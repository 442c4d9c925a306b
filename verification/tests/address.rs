use roadguard::address::{parse_ipv4, parse_octet, Ipv4};

#[test]
fn address_is_written_as_dotted_quad() {
    assert_eq!(Ipv4::new(10, 253, 3, 1).to_string(), "10.253.3.1");
    assert_eq!(Ipv4::new(0, 0, 0, 0).to_string(), "0.0.0.0");
    assert_eq!(Ipv4::new(255, 255, 255, 255).to_string(), "255.255.255.255");
    assert_eq!(Ipv4::new(1, 20, 100, 9).to_string(), "1.20.100.9");
}

#[test]
fn octets_come_most_significant_first() {
    assert_eq!(Ipv4::new(10, 253, 3, 1).octets(), [10, 253, 3, 1]);
}

#[test]
fn dotted_quad_is_read() {
    assert_eq!(parse_ipv4("10.253.3.1"), Some(Ipv4::new(10, 253, 3, 1)));
    assert_eq!(parse_ipv4("0.0.0.0"), Some(Ipv4::new(0, 0, 0, 0)));
    assert_eq!(parse_ipv4("255.255.255.255"), Some(Ipv4::new(255, 255, 255, 255)));
}

#[test]
fn anything_but_an_exact_dotted_quad_is_refused() {
    for text in [
        "",
        ".",
        "...",
        "1.2.3",
        "1.2.3.4.5",
        "1.2.3.",
        ".1.2.3",
        "1..2.3",
        "256.1.1.1",
        "1.1.1.256",
        "01.2.3.4",
        "1.2.3.04",
        "00.0.0.0",
        "1.2.3.4 ",
        " 1.2.3.4",
        "1.2.3.4\n",
        "1.2.3.a",
        "1.2.3.-4",
        "+1.2.3.4",
        "1.2.3.4/24",
        "1,2,3,4",
        "99999999999999999999.1.1.1",
        "１.2.3.4",
        "foo",
    ] {
        assert_eq!(parse_ipv4(text), None, "{:?}", text);
    }
}

#[test]
fn every_address_of_a_subnet_is_read_back_from_its_text() {
    for d in 0u8..=255 {
        let ip = Ipv4::new(10, d, 255 - d, d);
        assert_eq!(parse_ipv4(&ip.to_string()), Some(ip));
    }
}

#[test]
fn octet_is_read_from_canonical_decimal_only() {
    let chars = |s: &str| s.chars().collect::<Vec<char>>();
    assert_eq!(parse_octet(&chars("0")), Some(0));
    assert_eq!(parse_octet(&chars("7")), Some(7));
    assert_eq!(parse_octet(&chars("255")), Some(255));
    assert_eq!(parse_octet(&chars("256")), None);
    assert_eq!(parse_octet(&chars("007")), None);
    assert_eq!(parse_octet(&chars("")), None);
    assert_eq!(parse_octet(&chars("1a")), None);
}
