use roadguard::address::Ipv4;
use roadguard::command::CommandOutput;
use roadguard::error::WgInitErrors;
use roadguard::peers::{
    count_peers, next_address, peer_count_from_output, FIRST_CLIENT_HOST, LAST_CLIENT_HOST,
};

fn base() -> Ipv4 {
    Ipv4::new(10, 253, 3, 1)
}

fn answered(code: Option<i32>, stdout: &str, stderr: &str) -> CommandOutput {
    CommandOutput { exit_code: code, stdout: stdout.to_string(), stderr: stderr.to_string() }
}

#[test]
fn first_client_gets_host_two() {
    assert_eq!(next_address(base(), 0), Ok(Ipv4::new(10, 253, 3, 2)));
}

#[test]
fn every_count_up_to_251_gets_its_own_host() {
    let mut seen: Vec<Ipv4> = Vec::new();
    for count in 0u32..=251 {
        let ip = next_address(base(), count).unwrap();
        assert_eq!(ip.a, 10);
        assert_eq!(ip.b, 253);
        assert_eq!(ip.c, 3);
        assert_eq!(ip.d as u32, count + 2);
        assert!(ip.d >= FIRST_CLIENT_HOST && ip.d <= LAST_CLIENT_HOST);
        assert!(!seen.contains(&ip));
        seen.push(ip);
    }
    assert_eq!(seen.len(), 252);
}

#[test]
fn last_free_host_is_253() {
    assert_eq!(next_address(base(), 251), Ok(Ipv4::new(10, 253, 3, 253)));
}

#[test]
fn allocation_is_exhausted_at_252_peers() {
    assert_eq!(next_address(base(), 252), Err(WgInitErrors::PeerAllocationExhausted));
}

#[test]
fn allocation_stays_exhausted_beyond_the_subnet() {
    for count in [253u32, 254, 255, 256, 1000, u32::MAX - 1, u32::MAX] {
        assert_eq!(next_address(base(), count), Err(WgInitErrors::PeerAllocationExhausted));
    }
}

#[test]
fn allocation_keeps_the_subnet_of_the_base() {
    assert_eq!(next_address(Ipv4::new(192, 168, 0, 77), 5), Ok(Ipv4::new(192, 168, 0, 7)));
}

#[test]
fn peers_are_counted_with_wg_grep_and_wc() {
    let p = count_peers();
    assert_eq!(p.input, None);
    assert_eq!(p.stages.len(), 3);
    assert_eq!(p.stages[0].program, "wg");
    assert_eq!(p.stages[0].args, vec!["show".to_string()]);
    assert_eq!(p.stages[1].program, "grep");
    assert_eq!(p.stages[1].args, vec!["peer".to_string()]);
    assert_eq!(p.stages[2].program, "wc");
    assert_eq!(p.stages[2].args, vec!["-l".to_string()]);
}

#[test]
fn peer_count_is_read_from_the_line_count() {
    assert_eq!(peer_count_from_output(&answered(Some(0), "3\n", "")), Ok(3));
    assert_eq!(peer_count_from_output(&answered(Some(0), "0\n", "")), Ok(0));
    assert_eq!(peer_count_from_output(&answered(Some(0), "007", "")), Ok(7));
    assert_eq!(peer_count_from_output(&answered(Some(0), "4294967295\n", "")), Ok(u32::MAX));
}

#[test]
fn peer_count_that_is_no_number_is_a_process_failure() {
    for stdout in ["", "\n", "three\n", "-1\n", "+1\n", " 3\n", "3 \n", "4294967296\n", "1.5\n"] {
        let r = peer_count_from_output(&answered(Some(0), stdout, "oops"));
        let f = r.unwrap_err();
        assert_eq!(f.error, WgInitErrors::ProcessExecutionFailure);
        assert_eq!(f.message, "Error reading the number of peers");
        assert_eq!(f.diagnostic, "oops");
    }
}

#[test]
fn peer_count_after_a_failed_command_is_a_process_failure() {
    let f = peer_count_from_output(&answered(Some(1), "3\n", "wg: not found")).unwrap_err();
    assert_eq!(f.error, WgInitErrors::ProcessExecutionFailure);
    assert_eq!(f.diagnostic, "wg: not found");
    let f = peer_count_from_output(&answered(None, "3\n", "")).unwrap_err();
    assert_eq!(f.error, WgInitErrors::ProcessExecutionFailure);
}
