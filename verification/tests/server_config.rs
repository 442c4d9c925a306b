use roadguard::address::Ipv4;
use roadguard::command::OWNER_ONLY_MODE;
use roadguard::config::{field_value, starts_with};
use roadguard::keys::Keypair;
use roadguard::network::NetworkInterface;
use roadguard::server_config::{
    persist_server_config, render_server_config, server_address, server_private_key,
    ServerIdentity, LISTEN_PORT,
};

fn identity(private: &str) -> ServerIdentity {
    ServerIdentity::new(
        Ipv4::new(10, 253, 3, 1),
        Keypair { private: private.to_string(), public: "Q".to_string() },
    )
}

fn iface(name: &str) -> NetworkInterface {
    NetworkInterface { name: name.to_string() }
}

const GOLDEN: &str = "[Interface]
Address = 10.253.3.1/24
SaveConfig = true
PrivateKey = P
ListenPort = 51900
DNS = 1.1.1.1

PostUp = iptables -A FORWARD -i %i -j ACCEPT; iptables -A FORWARD -o %i -j ACCEPT; iptables -t nat -A POSTROUTING -o eth0 -j MASQUERADE
PostDown = iptables -D FORWARD -i %i -j ACCEPT; iptables -D FORWARD -o %i -j ACCEPT; iptables -t nat -D POSTROUTING -o eth0 -j MASQUERADE
";

#[test]
fn new_identity_has_the_standard_port_and_resolver() {
    let id = identity("P");
    assert_eq!(id.listen_port, 51900);
    assert_eq!(LISTEN_PORT, 51900);
    assert_eq!(id.dns, Ipv4::new(1, 1, 1, 1));
    assert_eq!(id.tunnel_address, Ipv4::new(10, 253, 3, 1));
    assert_eq!(id.keypair.private, "P");
    assert_eq!(id.keypair.public, "Q");
}

#[test]
fn server_config_matches_the_golden_text() {
    assert_eq!(render_server_config(&identity("P"), &iface("eth0")), GOLDEN);
}

#[test]
fn setup_scenario_holds_address_key_port_and_hooks() {
    let text = render_server_config(&identity("P"), &iface("eth0"));
    assert!(text.contains("Address = 10.253.3.1/24\n"));
    assert!(text.contains("PrivateKey = P\n"));
    assert!(text.contains("ListenPort = 51900\n"));
    assert!(text.contains("SaveConfig = true\n"));
    assert!(text.contains("DNS = 1.1.1.1\n"));
    assert!(text.contains("PostUp = ") && text.contains("-A POSTROUTING -o eth0 -j MASQUERADE\n"));
    assert!(text.contains("PostDown = ") && text.contains("-D POSTROUTING -o eth0 -j MASQUERADE\n"));
    assert!(text.starts_with("[Interface]\n"));
}

#[test]
fn rendering_twice_gives_the_same_bytes() {
    let id = identity("cFJpdmF0ZUtleQ==");
    let dev = iface("wlp3s0");
    let first = render_server_config(&id, &dev);
    let second = render_server_config(&id, &dev);
    assert_eq!(first.as_bytes(), second.as_bytes());
    let again = render_server_config(&id.clone(), &dev.clone());
    assert_eq!(first.as_bytes(), again.as_bytes());
}

#[test]
fn rendering_leaves_its_inputs_alone() {
    let id = identity("  key with spaces\t");
    let dev = iface("eth0 ");
    let before = (id.clone(), dev.clone());
    let text = render_server_config(&id, &dev);
    assert_eq!((id, dev), before);
    assert!(text.contains("PrivateKey =   key with spaces\t\n"));
    assert!(text.contains("-o eth0  -j MASQUERADE\n"));
}

#[test]
fn rendering_uses_the_identity_port_and_resolver() {
    let mut id = identity("P");
    id.listen_port = 7;
    id.dns = Ipv4::new(9, 9, 9, 9);
    let text = render_server_config(&id, &iface("eth0"));
    assert!(text.contains("ListenPort = 7\n"));
    assert!(text.contains("DNS = 9.9.9.9\n"));
}

#[test]
fn address_and_private_key_are_read_back() {
    for (ip, key, dev) in [
        (Ipv4::new(10, 253, 3, 1), "P", "eth0"),
        (Ipv4::new(0, 0, 0, 0), "", ""),
        (Ipv4::new(255, 255, 255, 255), "Address = 1.2.3.4/24", "PrivateKey = x"),
        (Ipv4::new(192, 168, 1, 1), "oK3bZ0mV9z4=  = \u{e9}", "en\n0"),
        (Ipv4::new(172, 16, 254, 9), "PrivateKey = nested", "eth0"),
    ] {
        let id = ServerIdentity::new(
            ip,
            Keypair { private: key.to_string(), public: "unused".to_string() },
        );
        let text = render_server_config(&id, &iface(dev));
        assert_eq!(server_address(&text), Some(ip));
        assert_eq!(server_private_key(&text), Some(key.to_string()));
    }
}

#[test]
fn golden_text_gives_its_fields_back() {
    assert_eq!(server_address(GOLDEN), Some(Ipv4::new(10, 253, 3, 1)));
    assert_eq!(server_private_key(GOLDEN), Some("P".to_string()));
    assert_eq!(field_value(GOLDEN, "ListenPort"), Some("51900".to_string()));
    assert_eq!(field_value(GOLDEN, "DNS"), Some("1.1.1.1".to_string()));
    assert_eq!(field_value(GOLDEN, "SaveConfig"), Some("true".to_string()));
    assert_eq!(field_value(GOLDEN, "Endpoint"), None);
}

#[test]
fn field_value_takes_the_first_line_that_sets_the_key() {
    assert_eq!(field_value("A = 1\nA = 2\n", "A"), Some("1".to_string()));
    assert_eq!(field_value("B = 1\nA = 2", "A"), Some("2".to_string()));
    assert_eq!(field_value("A = ", "A"), Some("".to_string()));
    assert_eq!(field_value("A = x = y\n", "A"), Some("x = y".to_string()));
    assert_eq!(field_value("\n\nA = z\n", "A"), Some("z".to_string()));
    assert_eq!(field_value("", ""), None);
    assert_eq!(field_value(" = v", ""), Some("v".to_string()));
}

#[test]
fn field_value_needs_the_key_at_the_start_of_a_line() {
    assert_eq!(field_value("", "A"), None);
    assert_eq!(field_value("A=1\n", "A"), None);
    assert_eq!(field_value("A =1\n", "A"), None);
    assert_eq!(field_value(" A = 1\n", "A"), None);
    assert_eq!(field_value("AA = 1\n", "A"), None);
    assert_eq!(field_value("xA = 1\n", "A"), None);
    assert_eq!(field_value("A\n = 1\n", "A"), None);
    assert_eq!(field_value("a = 1\n", "A"), None);
}

#[test]
fn server_address_needs_an_address_with_the_subnet_mask() {
    assert_eq!(server_address("Address = 10.0.0.1/24\n"), Some(Ipv4::new(10, 0, 0, 1)));
    assert_eq!(server_address("Address = 10.0.0.1\n"), None);
    assert_eq!(server_address("Address = 10.0.0.1/32\n"), None);
    assert_eq!(server_address("Address = 10.0.0.1/24 \n"), None);
    assert_eq!(server_address("Address = 10.0.0/24\n"), None);
    assert_eq!(server_address("Address = /24\n"), None);
    assert_eq!(server_address("Address = 24\n"), None);
    assert_eq!(server_address("Address = \n"), None);
    assert_eq!(server_address("PrivateKey = P\n"), None);
    assert_eq!(server_address(""), None);
}

#[test]
fn server_private_key_is_the_rest_of_its_line() {
    assert_eq!(server_private_key("PrivateKey = abc=\nrest"), Some("abc=".to_string()));
    assert_eq!(server_private_key("Address = 1.1.1.1/24\n"), None);
}

#[test]
fn starts_with_compares_from_the_first_character() {
    let c = |s: &str| s.chars().collect::<Vec<char>>();
    assert!(starts_with(&c("Address = x"), &c("Address = ")));
    assert!(starts_with(&c("abc"), &c("")));
    assert!(starts_with(&c(""), &c("")));
    assert!(starts_with(&c("abc"), &c("abc")));
    assert!(!starts_with(&c("ab"), &c("abc")));
    assert!(!starts_with(&c("xbc"), &c("abc")));
    assert!(!starts_with(&c("abx"), &c("abc")));
}

#[test]
fn server_config_is_stored_for_its_owner_only() {
    let w = persist_server_config("text".to_string());
    assert_eq!(w.path, "/etc/wireguard/wg0.conf");
    assert_eq!(w.contents, "text");
    assert_eq!(w.mode, 0o600);
    assert_eq!(w.mode, OWNER_ONLY_MODE);
    assert_eq!(w.mode & 0o077, 0);
}
