use roadguard::address::Ipv4;
use roadguard::command::{CommandOutput, FileWrite, Pipeline};
use roadguard::error::{Failure, WgInitErrors};
use roadguard::workflow::{
    advance, failure_kind_of, hint_of, start, Action, Event, Session, Stage, Workflow,
};

fn ok(stdout: &str) -> Event {
    Event::Ran(CommandOutput { exit_code: Some(0), stdout: stdout.to_string(), stderr: String::new() })
}

fn failed(stderr: &str) -> Event {
    Event::Ran(CommandOutput { exit_code: Some(1), stdout: String::new(), stderr: stderr.to_string() })
}

fn command_line(p: &Pipeline) -> String {
    p.stages
        .iter()
        .map(|i| {
            let mut words = vec![i.program.clone()];
            words.extend(i.args.iter().cloned());
            words.join(" ")
        })
        .collect::<Vec<String>>()
        .join(" | ")
}

fn run_of(action: &Action) -> String {
    match action {
        Action::Run(p) => command_line(p),
        other => panic!("expected a command, got {:?}", other),
    }
}

fn write_of(action: &Action) -> FileWrite {
    match action {
        Action::Write(w) => w.clone(),
        other => panic!("expected a file to write, got {:?}", other),
    }
}

fn abort_of(action: &Action) -> Failure {
    match action {
        Action::Abort(f) => f.clone(),
        other => panic!("expected the run to stop, got {:?}", other),
    }
}

const SETUP_STAGES: [Stage; 11] = [
    Stage::GenerateServerKey,
    Stage::DeriveServerPublicKey,
    Stage::PersistServerPrivateKey,
    Stage::PersistServerPublicKey,
    Stage::DiscoverInterface,
    Stage::PersistServerConfig,
    Stage::EnableForwarding,
    Stage::ReloadSysctl,
    Stage::EnableOnBoot,
    Stage::OwnConfigDirectory,
    Stage::RestrictServerConfig,
];

const ADD_CLIENT_STAGES: [Stage; 7] = [
    Stage::LoadServerPublicKey,
    Stage::GenerateClientKey,
    Stage::DeriveClientPublicKey,
    Stage::AskClientName,
    Stage::CountPeers,
    Stage::PersistClientConfig,
    Stage::RegisterPeer,
];

/// The event that a host on which everything works gives for `action`.
fn good_answer(action: &Action, peers: &str) -> Event {
    match action {
        Action::Run(p) => match command_line(p).as_str() {
            "wg genkey" => ok("PRIVATE=\n"),
            "wg pubkey" => ok("PUBLIC=\n"),
            "ip -o -4 route show to default | awk {print $5}" => ok("eth0\n"),
            "wg show | grep peer | wc -l" => ok(peers),
            _ => ok(""),
        },
        Action::Write(_) => Event::Wrote(true),
        Action::Read(_) => Event::Loaded(Some("SERVER-PUBLIC=\n".to_string())),
        Action::Ask(_) => Event::Answered("phone\n".to_string()),
        Action::Finish | Action::Abort(_) => panic!("the run has ended"),
    }
}

/// The event that reports that `action` did not work.
fn bad_answer(action: &Action) -> Event {
    match action {
        Action::Run(_) => failed("it broke"),
        Action::Write(_) => Event::Wrote(false),
        Action::Read(_) => Event::Loaded(None),
        Action::Ask(_) => Event::Wrote(true),
        Action::Finish | Action::Abort(_) => panic!("the run has ended"),
    }
}

#[test]
fn setup_runs_its_steps_in_order() {
    let (mut session, mut action) = start(Workflow::Setup, "10.253.3.1", "").unwrap();
    assert_eq!(session.server_address, Ipv4::new(10, 253, 3, 1));
    let mut stages = Vec::new();
    let mut asked = Vec::new();
    while !matches!(action, Action::Finish) {
        stages.push(session.stage);
        asked.push(match &action {
            Action::Run(p) => format!("run {}", command_line(p)),
            Action::Write(w) => format!("write {} {:o}", w.path, w.mode),
            other => panic!("unexpected {:?}", other),
        });
        let next = advance(session, good_answer(&action, "0\n"));
        session = next.0;
        action = next.1;
    }
    assert_eq!(session.stage, Stage::Done);
    assert_eq!(stages, SETUP_STAGES.to_vec());
    assert_eq!(
        asked,
        vec![
            "run wg genkey",
            "run wg pubkey",
            "write server_private_key 600",
            "write server_public_key 600",
            "run ip -o -4 route show to default | awk {print $5}",
            "write /etc/wireguard/wg0.conf 600",
            "run sed -i /net.ipv4.ip_forward=1/s/^#//g /etc/sysctl.conf",
            "run sysctl -p",
            "run systemctl enable wg-quick@wg0",
            "run chown -R root:root /etc/wireguard/",
            "run chmod -R og-rwx /etc/wireguard/wg0.conf",
        ]
    );
}

#[test]
fn setup_hands_the_private_key_to_the_derivation_and_stores_both_keys() {
    let (session, action) = start(Workflow::Setup, "10.253.3.1", "").unwrap();
    assert_eq!(run_of(&action), "wg genkey");
    let (session, action) = advance(session, ok("PRIVATE=\n"));
    match &action {
        Action::Run(p) => {
            assert_eq!(command_line(p), "wg pubkey");
            assert_eq!(p.input, Some("PRIVATE=\n".to_string()));
        },
        other => panic!("unexpected {:?}", other),
    }
    let (session, action) = advance(session, ok("PUBLIC=\n"));
    assert_eq!(
        write_of(&action),
        FileWrite {
            path: "server_private_key".to_string(),
            contents: "PRIVATE=\n".to_string(),
            mode: 0o600,
        }
    );
    let (session, action) = advance(session, Event::Wrote(true));
    assert_eq!(
        write_of(&action),
        FileWrite {
            path: "server_public_key".to_string(),
            contents: "PUBLIC=\n".to_string(),
            mode: 0o600,
        }
    );
    assert_eq!(session.stage, Stage::PersistServerPublicKey);
}

#[test]
fn setup_scenario_renders_the_server_config() {
    let (mut session, mut action) = start(Workflow::Setup, "10.253.3.1", "").unwrap();
    for answer in [ok("P\n"), ok("Q\n"), Event::Wrote(true), Event::Wrote(true), ok("eth0\n")] {
        let next = advance(session, answer);
        session = next.0;
        action = next.1;
    }
    let w = write_of(&action);
    assert_eq!(w.path, "/etc/wireguard/wg0.conf");
    assert_eq!(w.mode, 0o600);
    assert_eq!(
        w.contents,
        "[Interface]
Address = 10.253.3.1/24
SaveConfig = true
PrivateKey = P
ListenPort = 51900
DNS = 1.1.1.1

PostUp = iptables -A FORWARD -i %i -j ACCEPT; iptables -A FORWARD -o %i -j ACCEPT; iptables -t nat -A POSTROUTING -o eth0 -j MASQUERADE
PostDown = iptables -D FORWARD -i %i -j ACCEPT; iptables -D FORWARD -o %i -j ACCEPT; iptables -t nat -D POSTROUTING -o eth0 -j MASQUERADE
"
    );
}

#[test]
fn setup_takes_the_first_of_several_default_routes() {
    let (mut session, mut action) = start(Workflow::Setup, "10.253.3.1", "").unwrap();
    for answer in
        [ok("P\n"), ok("Q\n"), Event::Wrote(true), Event::Wrote(true), ok("eth0 \nwlan0\n")]
    {
        let next = advance(session, answer);
        session = next.0;
        action = next.1;
    }
    let w = write_of(&action);
    assert!(w.contents.contains("-o eth0 -j MASQUERADE\n"));
    assert!(!w.contents.contains("wlan0"));
}

#[test]
fn setup_stops_at_the_first_failure_wherever_it_is() {
    for failing in 0..SETUP_STAGES.len() {
        let (mut session, mut action) = start(Workflow::Setup, "10.253.3.1", "").unwrap();
        let mut done = 0;
        loop {
            if done == failing {
                let stage = session.stage;
                assert_eq!(stage, SETUP_STAGES[failing]);
                let next = advance(session, bad_answer(&action));
                let failure = abort_of(&next.1);
                assert_eq!(next.0.stage, Stage::Failed);
                assert_eq!(failure.error, failure_kind_of(stage));
                assert_eq!(failure.message, hint_of(stage));
                if matches!(action, Action::Run(_)) {
                    assert_eq!(failure.diagnostic, "it broke");
                } else {
                    assert_eq!(failure.diagnostic, "");
                }
                let after = advance(next.0.clone(), ok(""));
                assert_eq!(after.0, next.0);
                assert!(matches!(after.1, Action::Abort(_)));
                break;
            }
            let next = advance(session, good_answer(&action, "0\n"));
            session = next.0;
            action = next.1;
            done += 1;
        }
    }
}

#[test]
fn setup_failures_carry_their_kind_and_hint() {
    assert_eq!(failure_kind_of(Stage::GenerateServerKey), WgInitErrors::FailedToGenPrivateKey);
    assert_eq!(failure_kind_of(Stage::DeriveServerPublicKey), WgInitErrors::FailedToGenPrivateKey);
    assert_eq!(failure_kind_of(Stage::PersistServerPrivateKey), WgInitErrors::PersistenceFailure);
    assert_eq!(failure_kind_of(Stage::PersistServerPublicKey), WgInitErrors::PersistenceFailure);
    assert_eq!(failure_kind_of(Stage::DiscoverInterface), WgInitErrors::FailedToGetDefaultDevice);
    assert_eq!(failure_kind_of(Stage::PersistServerConfig), WgInitErrors::FailedToWriteWG0Conf);
    assert_eq!(failure_kind_of(Stage::EnableForwarding), WgInitErrors::ProcessExecutionFailure);
    assert_eq!(failure_kind_of(Stage::RegisterPeer), WgInitErrors::ProcessExecutionFailure);
    assert_eq!(failure_kind_of(Stage::LoadServerPublicKey), WgInitErrors::PersistenceFailure);
    assert_eq!(failure_kind_of(Stage::PersistClientConfig), WgInitErrors::PersistenceFailure);
    assert_eq!(failure_kind_of(Stage::CountPeers), WgInitErrors::ProcessExecutionFailure);
    assert_eq!(failure_kind_of(Stage::Failed), WgInitErrors::ValidationFailure);
    assert_eq!(
        hint_of(Stage::PersistServerConfig),
        "Error Writing /etc/wireguard/wg0.conf, please run: \n sudo roadguard setup"
    );
    assert_eq!(hint_of(Stage::ReloadSysctl), "Error reloading sysctl");
    assert_eq!(hint_of(Stage::EnableForwarding), "Error configuring port-forwarding in /etc/sysctl.conf");
    assert_eq!(hint_of(Stage::EnableOnBoot), "Error running systemctl enable wg-quick@wg0");
    assert_eq!(hint_of(Stage::OwnConfigDirectory), "Error running: chown -R root:root /etc/wireguard/");
    assert_eq!(hint_of(Stage::RegisterPeer), "Error running wg set wg0 peer");
    assert_eq!(hint_of(Stage::PersistClientConfig), "Error Writing client config file");
    assert_eq!(hint_of(Stage::GenerateServerKey), "");
    assert_eq!(hint_of(Stage::Done), "");
}

#[test]
fn setup_fails_where_no_default_route_exists() {
    let (mut session, mut action) = start(Workflow::Setup, "10.253.3.1", "").unwrap();
    for answer in [ok("P\n"), ok("Q\n"), Event::Wrote(true), Event::Wrote(true), ok("\n")] {
        let next = advance(session, answer);
        session = next.0;
        action = next.1;
    }
    assert_eq!(session.stage, Stage::Failed);
    assert_eq!(abort_of(&action).error, WgInitErrors::FailedToGetDefaultDevice);
}

#[test]
fn setup_needs_an_ipv4_address() {
    for ip in ["", "foo", "10.253.3", "10.253.3.256", "10.253.3.1/24"] {
        let f = start(Workflow::Setup, ip, "").unwrap_err();
        assert_eq!(f.error, WgInitErrors::ValidationFailure);
        assert_eq!(f.message, "--ip <ADDRESS> is not an IPv4 address");
        assert_eq!(f.diagnostic, "");
    }
    assert!(start(Workflow::Setup, "10.253.3.1\n", "").is_ok());
}

#[test]
fn add_client_without_endpoint_is_refused_before_anything_is_done() {
    let f = start(Workflow::AddClient, "10.253.3.1", "").unwrap_err();
    assert_eq!(
        f,
        Failure {
            error: WgInitErrors::ValidationFailure,
            message: "--endpoint <MY-ENDPOINT> flag not valid\n Please use: roadguard --endpoint MY-ENDPOINT add-client".to_string(),
            diagnostic: "".to_string(),
        }
    );
    let f = start(Workflow::AddClient, "not an address", "").unwrap_err();
    assert_eq!(f.error, WgInitErrors::ValidationFailure);
    assert!(f.message.starts_with("--endpoint"));
}

#[test]
fn add_client_needs_an_ipv4_address() {
    let f = start(Workflow::AddClient, "10.253.3", "vpn.example.com").unwrap_err();
    assert_eq!(f.error, WgInitErrors::ValidationFailure);
    assert_eq!(f.message, "--ip <ADDRESS> is not an IPv4 address");
}

#[test]
fn remove_client_is_turned_down() {
    for (ip, endpoint) in [("10.253.3.1", "vpn.example.com"), ("", ""), ("10.253.3.1", "")] {
        let f = start(Workflow::RemoveClient, ip, endpoint).unwrap_err();
        assert_eq!(f.error, WgInitErrors::ValidationFailure);
        assert_eq!(f.message, "This functionality is a WIP");
    }
}

#[test]
fn add_client_runs_its_steps_in_order() {
    let (mut session, mut action) =
        start(Workflow::AddClient, "10.253.3.1", "vpn.example.com").unwrap();
    assert_eq!(session.endpoint, "vpn.example.com");
    let mut stages = Vec::new();
    let mut asked = Vec::new();
    while !matches!(action, Action::Finish) {
        stages.push(session.stage);
        asked.push(match &action {
            Action::Run(p) => format!("run {}", command_line(p)),
            Action::Write(w) => format!("write {} {:o}", w.path, w.mode),
            Action::Read(path) => format!("read {}", path),
            Action::Ask(prompt) => format!("ask {}", prompt),
            other => panic!("unexpected {:?}", other),
        });
        let next = advance(session, good_answer(&action, "0\n"));
        session = next.0;
        action = next.1;
    }
    assert_eq!(session.stage, Stage::Done);
    assert_eq!(session.client_address, Some(Ipv4::new(10, 253, 3, 2)));
    assert_eq!(session.client_name, "phone");
    assert_eq!(stages, ADD_CLIENT_STAGES.to_vec());
    assert_eq!(
        asked,
        vec![
            "read server_public_key",
            "run wg genkey",
            "run wg pubkey",
            "ask Enter Name of Client:",
            "run wg show | grep peer | wc -l",
            "write phone.conf 600",
            "run wg set wg0 peer PUBLIC= allowed-ips 10.253.3.2",
        ]
    );
}

#[test]
fn add_client_scenario_writes_the_client_config() {
    let (mut session, mut action) =
        start(Workflow::AddClient, "10.253.3.1", "vpn.example.com").unwrap();
    for _ in 0..5 {
        let next = advance(session, good_answer(&action, "0\n"));
        session = next.0;
        action = next.1;
    }
    assert_eq!(
        write_of(&action),
        FileWrite {
            path: "phone.conf".to_string(),
            contents: "[Interface]
PrivateKey = PRIVATE=
Address = 10.253.3.2/32
DNS = 1.1.1.1

[Peer]
PublicKey = SERVER-PUBLIC=
AllowedIPs = 0.0.0.0/0, ::/0
Endpoint = vpn.example.com:51900
"
            .to_string(),
            mode: 0o600,
        }
    );
}

#[test]
fn add_client_feeds_the_clean_private_key_to_the_derivation() {
    let (session, _) = start(Workflow::AddClient, "10.253.3.1", "host").unwrap();
    let (session, _) = advance(session, Event::Loaded(Some("S\n".to_string())));
    let (session, action) = advance(session, ok("PRIV\nATE\n"));
    assert_eq!(session.private_key, "PRIVATE");
    match action {
        Action::Run(p) => assert_eq!(p.input, Some("PRIVATE\n".to_string())),
        other => panic!("unexpected {:?}", other),
    }
}

#[test]
fn add_client_gives_the_address_after_the_live_peers() {
    for (peers, address) in [("0\n", "10.253.3.2"), ("1\n", "10.253.3.3"), ("251\n", "10.253.3.253")]
    {
        let (mut session, mut action) =
            start(Workflow::AddClient, "10.253.3.1", "vpn.example.com").unwrap();
        for _ in 0..6 {
            let next = advance(session, good_answer(&action, peers));
            session = next.0;
            action = next.1;
        }
        assert_eq!(run_of(&action), format!("wg set wg0 peer PUBLIC= allowed-ips {}", address));
    }
}

#[test]
fn add_client_fails_when_the_subnet_is_full() {
    for peers in ["252\n", "253\n", "254\n", "1000\n"] {
        let (mut session, mut action) =
            start(Workflow::AddClient, "10.253.3.1", "vpn.example.com").unwrap();
        for _ in 0..5 {
            let next = advance(session, good_answer(&action, peers));
            session = next.0;
            action = next.1;
        }
        assert_eq!(session.stage, Stage::Failed);
        assert_eq!(session.client_address, None);
        assert_eq!(
            abort_of(&action),
            Failure {
                error: WgInitErrors::PeerAllocationExhausted,
                message: "No free address is left in the tunnel network".to_string(),
                diagnostic: "".to_string(),
            }
        );
    }
}

#[test]
fn add_client_stops_at_the_first_failure_wherever_it_is() {
    for failing in 0..ADD_CLIENT_STAGES.len() {
        let (mut session, mut action) =
            start(Workflow::AddClient, "10.253.3.1", "vpn.example.com").unwrap();
        for _ in 0..failing {
            let next = advance(session, good_answer(&action, "7\n"));
            session = next.0;
            action = next.1;
        }
        assert_eq!(session.stage, ADD_CLIENT_STAGES[failing]);
        let next = advance(session, bad_answer(&action));
        assert_eq!(next.0.stage, Stage::Failed);
        assert!(matches!(next.1, Action::Abort(_)));
    }
}

#[test]
fn an_event_that_answers_another_step_ends_the_run() {
    let (session, _) = start(Workflow::Setup, "10.253.3.1", "").unwrap();
    let (session, action) = advance(session, Event::Wrote(true));
    assert_eq!(session.stage, Stage::Failed);
    assert_eq!(
        abort_of(&action),
        Failure {
            error: WgInitErrors::ValidationFailure,
            message: "Unexpected answer for the step in progress".to_string(),
            diagnostic: "".to_string(),
        }
    );
}

#[test]
fn a_client_config_is_not_registered_without_an_address() {
    let (session, _) = start(Workflow::AddClient, "10.253.3.1", "host").unwrap();
    let forged = Session { stage: Stage::PersistClientConfig, ..session };
    let (session, action) = advance(forged, Event::Wrote(true));
    assert_eq!(session.stage, Stage::Failed);
    assert_eq!(abort_of(&action).error, WgInitErrors::ValidationFailure);
}

#[test]
fn a_completed_run_stays_completed() {
    let (session, _) = start(Workflow::Setup, "10.253.3.1", "").unwrap();
    let done = Session { stage: Stage::Done, ..session };
    for event in [ok(""), failed("x"), Event::Wrote(false), Event::Loaded(None), Event::Answered("a".to_string())] {
        let (after, action) = advance(done.clone(), event);
        assert_eq!(after, done);
        assert_eq!(action, Action::Finish);
    }
}

#[test]
fn every_file_a_run_writes_is_for_its_owner_only() {
    for (workflow, endpoint) in [(Workflow::Setup, ""), (Workflow::AddClient, "vpn.example.com")] {
        let (mut session, mut action) = start(workflow, "10.253.3.1", endpoint).unwrap();
        let mut writes = 0;
        while !matches!(action, Action::Finish) {
            if let Action::Write(w) = &action {
                assert_eq!(w.mode, 0o600);
                assert_eq!(w.mode & 0o077, 0);
                writes += 1;
            }
            let next = advance(session, good_answer(&action, "3\n"));
            session = next.0;
            action = next.1;
        }
        assert!(writes >= 1);
    }
}
