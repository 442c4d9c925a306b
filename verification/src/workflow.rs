//! The two provisioning runs, step by step.
//!
//! A run is a strict chain of steps. The library does none of them itself:
//! it names the next thing to do as an [`Action`], the caller does it and
//! reports what came of it as an [`Event`], and [`advance`] answers with the
//! action after that. The first failure ends the run; nothing already done
//! is undone.
//!
//! Setting up the server: generate the private key, derive the public key,
//! store both, find the outbound interface, render and store the interface
//! configuration, switch on forwarding, reload the kernel settings, enable
//! the tunnel at boot, and hand the configuration to the privileged account
//! alone.
//!
//! Adding a client: load the server's public key, generate the client's
//! private key, derive its public key, ask for the client's name, count the
//! live peers, pick the client's address, render and store its
//! configuration, and register it on the running interface.

use vstd::prelude::*;
use crate::address::{Ipv4, ipv4_of, parse_ipv4};
use crate::client_config::{
    client_config_file, client_config_text, persist_client_config, render_client_config,
};
use crate::command::{
    CommandOutput, CommandOutputView, FileWrite, FileWriteView, Pipeline, PipelineView,
};
use crate::error::{Failure, FailureView, WgInitErrors};
use crate::keys::{
    derive_public, derive_public_command, generate_key, generate_key_command, key_from_output,
    key_of, persist_private_key, persist_public_key, private_key_file, public_key_file, Keypair,
    KeypairView,
};
use crate::network::{default_route, default_route_command, discovered_interface, interface_from_output};
use crate::peers::{
    allocated_address, count_peers, count_peers_command, counted_peers, has_free_address,
    next_address, peer_count_from_output, ClientPeer, ClientPeerView,
};
use crate::server_config::{
    default_dns, lemma_server_config_round_trip, persist_server_config, render_server_config,
    server_address_of, server_config_file, server_config_text, server_private_key_of,
    ServerIdentity, ServerIdentityView, LISTEN_PORT,
};
use crate::system::{
    enable_forwarding, enable_forwarding_command, enable_on_boot, enable_on_boot_command,
    judged, own_config_directory, own_config_directory_command, register_live_peer,
    register_live_peer_command, reload_sysctl, reload_sysctl_command, require_success,
    restrict_server_config, restrict_server_config_command,
};
use crate::text::{lemma_without_newlines_one_line, strip_newlines, without_newlines};

verus! {

/// What the operator asked for.
#[derive(Debug, Clone, Copy, PartialEq, Eq, Structural)]
pub enum Workflow {
    /// Make this host the server.
    Setup,
    /// Create one more client and make it a live peer.
    AddClient,
    /// Take a client away. Not offered: the request is turned down.
    RemoveClient,
}

/// Where a run stands: the step whose outcome is awaited, or how the run
/// ended.
#[derive(Debug, Clone, Copy, PartialEq, Eq, Structural)]
pub enum Stage {
    GenerateServerKey,
    DeriveServerPublicKey,
    PersistServerPrivateKey,
    PersistServerPublicKey,
    DiscoverInterface,
    PersistServerConfig,
    EnableForwarding,
    ReloadSysctl,
    EnableOnBoot,
    OwnConfigDirectory,
    RestrictServerConfig,
    LoadServerPublicKey,
    GenerateClientKey,
    DeriveClientPublicKey,
    AskClientName,
    CountPeers,
    PersistClientConfig,
    RegisterPeer,
    Done,
    Failed,
}

/// A run in progress: its stage and what it has learnt so far.
///
/// During setup the two keys are kept as the key tool wrote them. While a
/// client is added they are the client's keys, already without line feeds.
#[derive(Debug, Clone, PartialEq, Eq)]
pub struct Session {
    pub stage: Stage,
    pub server_address: Ipv4,
    pub endpoint: String,
    pub private_key: String,
    pub public_key: String,
    pub server_public_key: String,
    pub client_name: String,
    pub client_address: Option<Ipv4>,
}

/// A [`Session`] as plain text.
pub struct SessionView {
    pub stage: Stage,
    pub server_address: Ipv4,
    pub endpoint: Seq<char>,
    pub private_key: Seq<char>,
    pub public_key: Seq<char>,
    pub server_public_key: Seq<char>,
    pub client_name: Seq<char>,
    pub client_address: Option<Ipv4>,
}

impl View for Session {
    type V = SessionView;

    open spec fn view(&self) -> SessionView {
        SessionView {
            stage: self.stage,
            server_address: self.server_address,
            endpoint: self.endpoint@,
            private_key: self.private_key@,
            public_key: self.public_key@,
            server_public_key: self.server_public_key@,
            client_name: self.client_name@,
            client_address: self.client_address,
        }
    }
}

/// What the caller is to do next.
#[derive(Debug, Clone, PartialEq, Eq)]
pub enum Action {
    /// Run the pipeline and report its outcome with [`Event::Ran`].
    Run(Pipeline),
    /// Write the file and report with [`Event::Wrote`] whether that worked.
    Write(FileWrite),
    /// Read the file at this path and report its text with
    /// [`Event::Loaded`].
    Read(String),
    /// Show this prompt, read one line and report it with
    /// [`Event::Answered`].
    Ask(String),
    /// The run is complete.
    Finish,
    /// The run has failed: report the failure and stop.
    Abort(Failure),
}

/// An [`Action`] as plain text.
pub enum ActionView {
    Run(PipelineView),
    Write(FileWriteView),
    Read(Seq<char>),
    Ask(Seq<char>),
    Finish,
    Abort(FailureView),
}

impl View for Action {
    type V = ActionView;

    open spec fn view(&self) -> ActionView {
        match self {
            Action::Run(p) => ActionView::Run(p@),
            Action::Write(w) => ActionView::Write(w@),
            Action::Read(path) => ActionView::Read(path@),
            Action::Ask(prompt) => ActionView::Ask(prompt@),
            Action::Finish => ActionView::Finish,
            Action::Abort(f) => ActionView::Abort(f@),
        }
    }
}

/// What came of the last action.
#[derive(Debug, Clone, PartialEq, Eq)]
pub enum Event {
    /// The pipeline ran and ended like this.
    Ran(CommandOutput),
    /// The file was written (`true`) or could not be (`false`).
    Wrote(bool),
    /// The text of the file, or `None` where it could not be read.
    Loaded(Option<String>),
    /// The line the operator typed.
    Answered(String),
}

/// An [`Event`] as plain text.
pub enum EventView {
    Ran(CommandOutputView),
    Wrote(bool),
    Loaded(Option<Seq<char>>),
    Answered(Seq<char>),
}

impl View for Event {
    type V = EventView;

    open spec fn view(&self) -> EventView {
        match self {
            Event::Ran(out) => EventView::Ran(out@),
            Event::Wrote(ok) => EventView::Wrote(*ok),
            Event::Loaded(text) => EventView::Loaded(
                match text {
                    Some(t) => Some(t@),
                    None => None,
                },
            ),
            Event::Answered(line) => EventView::Answered(line@),
        }
    }
}

/// The kind of failure that ends the run when the step awaited at `stage`
/// goes wrong.
pub open spec fn failure_kind(stage: Stage) -> WgInitErrors {
    match stage {
        Stage::GenerateServerKey | Stage::DeriveServerPublicKey | Stage::GenerateClientKey
        | Stage::DeriveClientPublicKey => WgInitErrors::FailedToGenPrivateKey,
        Stage::DiscoverInterface => WgInitErrors::FailedToGetDefaultDevice,
        Stage::PersistServerConfig => WgInitErrors::FailedToWriteWG0Conf,
        Stage::PersistServerPrivateKey | Stage::PersistServerPublicKey
        | Stage::LoadServerPublicKey | Stage::PersistClientConfig => WgInitErrors::PersistenceFailure,
        Stage::EnableForwarding | Stage::ReloadSysctl | Stage::EnableOnBoot
        | Stage::OwnConfigDirectory | Stage::RestrictServerConfig | Stage::CountPeers
        | Stage::RegisterPeer => WgInitErrors::ProcessExecutionFailure,
        Stage::AskClientName | Stage::Done | Stage::Failed => WgInitErrors::ValidationFailure,
    }
}

/// The line that tells the operator what went wrong when the step awaited
/// at `stage` fails. Key generation and interface discovery have none: the
/// tool's own words are all there is to say.
pub open spec fn hint(stage: Stage) -> Seq<char> {
    match stage {
        Stage::PersistServerPrivateKey => "Error Writing server_private_key"@,
        Stage::PersistServerPublicKey => "Error Writing server_public_key"@,
        Stage::PersistServerConfig => "Error Writing /etc/wireguard/wg0.conf, please run: \n sudo roadguard setup"@,
        Stage::EnableForwarding => "Error configuring port-forwarding in /etc/sysctl.conf"@,
        Stage::ReloadSysctl => "Error reloading sysctl"@,
        Stage::EnableOnBoot => "Error running systemctl enable wg-quick@wg0"@,
        Stage::OwnConfigDirectory => "Error running: chown -R root:root /etc/wireguard/"@,
        Stage::RestrictServerConfig => "Error running: chmod -R og-rwx /etc/wireguard/wg0.conf"@,
        Stage::LoadServerPublicKey => "Error Reading server_public_key, please run: \n sudo roadguard setup"@,
        Stage::CountPeers => "Error reading the number of peers"@,
        Stage::PersistClientConfig => "Error Writing client config file"@,
        Stage::RegisterPeer => "Error running wg set wg0 peer"@,
        _ => ""@,
    }
}

/// The failure kind of [`failure_kind`].
pub fn failure_kind_of(stage: Stage) -> (kind: WgInitErrors)
    ensures
        kind == failure_kind(stage),
{
    match stage {
        Stage::GenerateServerKey | Stage::DeriveServerPublicKey | Stage::GenerateClientKey
        | Stage::DeriveClientPublicKey => WgInitErrors::FailedToGenPrivateKey,
        Stage::DiscoverInterface => WgInitErrors::FailedToGetDefaultDevice,
        Stage::PersistServerConfig => WgInitErrors::FailedToWriteWG0Conf,
        Stage::PersistServerPrivateKey | Stage::PersistServerPublicKey
        | Stage::LoadServerPublicKey | Stage::PersistClientConfig => WgInitErrors::PersistenceFailure,
        Stage::EnableForwarding | Stage::ReloadSysctl | Stage::EnableOnBoot
        | Stage::OwnConfigDirectory | Stage::RestrictServerConfig | Stage::CountPeers
        | Stage::RegisterPeer => WgInitErrors::ProcessExecutionFailure,
        Stage::AskClientName | Stage::Done | Stage::Failed => WgInitErrors::ValidationFailure,
    }
}

/// The line of [`hint`].
pub fn hint_of(stage: Stage) -> (line: &'static str)
    ensures
        line@ == hint(stage),
{
    match stage {
        Stage::PersistServerPrivateKey => "Error Writing server_private_key",
        Stage::PersistServerPublicKey => "Error Writing server_public_key",
        Stage::PersistServerConfig => "Error Writing /etc/wireguard/wg0.conf, please run: \n sudo roadguard setup",
        Stage::EnableForwarding => "Error configuring port-forwarding in /etc/sysctl.conf",
        Stage::ReloadSysctl => "Error reloading sysctl",
        Stage::EnableOnBoot => "Error running systemctl enable wg-quick@wg0",
        Stage::OwnConfigDirectory => "Error running: chown -R root:root /etc/wireguard/",
        Stage::RestrictServerConfig => "Error running: chmod -R og-rwx /etc/wireguard/wg0.conf",
        Stage::LoadServerPublicKey => "Error Reading server_public_key, please run: \n sudo roadguard setup",
        Stage::CountPeers => "Error reading the number of peers",
        Stage::PersistClientConfig => "Error Writing client config file",
        Stage::RegisterPeer => "Error running wg set wg0 peer",
        _ => "",
    }
}

/// The failure of the step awaited at `stage`, with what the failing program
/// had to say.
pub open spec fn step_failure(stage: Stage, diagnostic: Seq<char>) -> FailureView {
    FailureView { error: failure_kind(stage), message: hint(stage), diagnostic }
}

/// The failure to report when an event does not answer the step in
/// progress.
pub open spec fn unexpected() -> FailureView {
    FailureView {
        error: WgInitErrors::ValidationFailure,
        message: "Unexpected answer for the step in progress"@,
        diagnostic: Seq::empty(),
    }
}

/// The failure to report when the tunnel network has no address left.
pub open spec fn exhausted() -> FailureView {
    FailureView {
        error: WgInitErrors::PeerAllocationExhausted,
        message: "No free address is left in the tunnel network"@,
        diagnostic: Seq::empty(),
    }
}

/// The run `s` ended by `failure`.
pub open spec fn aborted(s: SessionView, failure: FailureView) -> (SessionView, ActionView) {
    (SessionView { stage: Stage::Failed, ..s }, ActionView::Abort(failure))
}

/// The run `s` moved on to `stage`, with `action` to do.
pub open spec fn moved(s: SessionView, stage: Stage, action: ActionView) -> (
    SessionView,
    ActionView,
) {
    (SessionView { stage, ..s }, action)
}

/// What follows a host command: the next step after exit status zero, the
/// end of the run after anything else.
pub open spec fn after_command(
    s: SessionView,
    out: CommandOutputView,
    stage: Stage,
    action: ActionView,
) -> (SessionView, ActionView) {
    match judged(out, failure_kind(s.stage), hint(s.stage)) {
        Ok(_) => moved(s, stage, action),
        Err(f) => aborted(s, f),
    }
}

/// What follows the writing of a file: the next step where it was written,
/// the end of the run where it was not.
pub open spec fn after_write(s: SessionView, written: bool, stage: Stage, action: ActionView) -> (
    SessionView,
    ActionView,
) {
    if written {
        moved(s, stage, action)
    } else {
        aborted(s, step_failure(s.stage, Seq::empty()))
    }
}

/// The server's identity as the run knows it: the address it was started
/// with and the keys it has generated, without their line feeds.
pub open spec fn identity_of(s: SessionView) -> ServerIdentityView {
    ServerIdentityView {
        tunnel_address: s.server_address,
        keypair: KeypairView {
            private: without_newlines(s.private_key),
            public: without_newlines(s.public_key),
        },
        listen_port: LISTEN_PORT,
        dns: default_dns(),
    }
}

/// The client that the run is adding, once it has the address `address`.
pub open spec fn peer_of(s: SessionView, address: Ipv4) -> ClientPeerView {
    ClientPeerView {
        name: s.client_name,
        keypair: KeypairView { private: s.private_key, public: s.public_key },
        allocated_address: address,
    }
}

/// The transition of a run: the state after `e` has answered the step that
/// `s` was waiting for, and the action to take then.
///
/// Every step that succeeds leads to the one after it in the chain. Every
/// step that fails, and every event that does not answer the step in
/// progress, ends the run. A run that has ended stays as it is.
pub open spec fn next(s: SessionView, e: EventView) -> (SessionView, ActionView) {
    match (s.stage, e) {
        (Stage::GenerateServerKey, EventView::Ran(out)) => match key_of(out) {
            Ok(key) => (
                SessionView { stage: Stage::DeriveServerPublicKey, private_key: key, ..s },
                ActionView::Run(derive_public_command(key)),
            ),
            Err(f) => aborted(s, f),
        },
        (Stage::DeriveServerPublicKey, EventView::Ran(out)) => match key_of(out) {
            Ok(key) => (
                SessionView { stage: Stage::PersistServerPrivateKey, public_key: key, ..s },
                ActionView::Write(private_key_file(s.private_key)),
            ),
            Err(f) => aborted(s, f),
        },
        (Stage::PersistServerPrivateKey, EventView::Wrote(written)) => after_write(
            s,
            written,
            Stage::PersistServerPublicKey,
            ActionView::Write(public_key_file(s.public_key)),
        ),
        (Stage::PersistServerPublicKey, EventView::Wrote(written)) => after_write(
            s,
            written,
            Stage::DiscoverInterface,
            ActionView::Run(default_route_command()),
        ),
        (Stage::DiscoverInterface, EventView::Ran(out)) => match discovered_interface(out) {
            Ok(iface) => moved(
                s,
                Stage::PersistServerConfig,
                ActionView::Write(server_config_file(server_config_text(identity_of(s), iface))),
            ),
            Err(f) => aborted(s, f),
        },
        (Stage::PersistServerConfig, EventView::Wrote(written)) => after_write(
            s,
            written,
            Stage::EnableForwarding,
            ActionView::Run(enable_forwarding_command()),
        ),
        (Stage::EnableForwarding, EventView::Ran(out)) => after_command(
            s,
            out,
            Stage::ReloadSysctl,
            ActionView::Run(reload_sysctl_command()),
        ),
        (Stage::ReloadSysctl, EventView::Ran(out)) => after_command(
            s,
            out,
            Stage::EnableOnBoot,
            ActionView::Run(enable_on_boot_command()),
        ),
        (Stage::EnableOnBoot, EventView::Ran(out)) => after_command(
            s,
            out,
            Stage::OwnConfigDirectory,
            ActionView::Run(own_config_directory_command()),
        ),
        (Stage::OwnConfigDirectory, EventView::Ran(out)) => after_command(
            s,
            out,
            Stage::RestrictServerConfig,
            ActionView::Run(restrict_server_config_command()),
        ),
        (Stage::RestrictServerConfig, EventView::Ran(out)) => after_command(
            s,
            out,
            Stage::Done,
            ActionView::Finish,
        ),
        (Stage::LoadServerPublicKey, EventView::Loaded(text)) => match text {
            Some(key) => (
                SessionView {
                    stage: Stage::GenerateClientKey,
                    server_public_key: without_newlines(key),
                    ..s
                },
                ActionView::Run(generate_key_command()),
            ),
            None => aborted(s, step_failure(s.stage, Seq::empty())),
        },
        (Stage::GenerateClientKey, EventView::Ran(out)) => match key_of(out) {
            Ok(key) => (
                SessionView {
                    stage: Stage::DeriveClientPublicKey,
                    private_key: without_newlines(key),
                    ..s
                },
                ActionView::Run(derive_public_command(without_newlines(key) + "\n"@)),
            ),
            Err(f) => aborted(s, f),
        },
        (Stage::DeriveClientPublicKey, EventView::Ran(out)) => match key_of(out) {
            Ok(key) => (
                SessionView {
                    stage: Stage::AskClientName,
                    public_key: without_newlines(key),
                    ..s
                },
                ActionView::Ask("Enter Name of Client:"@),
            ),
            Err(f) => aborted(s, f),
        },
        (Stage::AskClientName, EventView::Answered(line)) => (
            SessionView { stage: Stage::CountPeers, client_name: without_newlines(line), ..s },
            ActionView::Run(count_peers_command()),
        ),
        (Stage::CountPeers, EventView::Ran(out)) => match counted_peers(out) {
            Ok(count) => if has_free_address(count) {
                let address = allocated_address(s.server_address, count);
                (
                    SessionView {
                        stage: Stage::PersistClientConfig,
                        client_address: Some(address),
                        ..s
                    },
                    ActionView::Write(
                        client_config_file(
                            s.client_name,
                            client_config_text(
                                peer_of(s, address),
                                s.server_public_key,
                                s.endpoint,
                            ),
                        ),
                    ),
                )
            } else {
                aborted(s, exhausted())
            },
            Err(f) => aborted(s, f),
        },
        (Stage::PersistClientConfig, EventView::Wrote(written)) => match s.client_address {
            Some(address) => after_write(
                s,
                written,
                Stage::RegisterPeer,
                ActionView::Run(register_live_peer_command(s.public_key, address)),
            ),
            None => aborted(s, unexpected()),
        },
        (Stage::RegisterPeer, EventView::Ran(out)) => after_command(
            s,
            out,
            Stage::Done,
            ActionView::Finish,
        ),
        (Stage::Done, _) => (s, ActionView::Finish),
        _ => aborted(s, unexpected()),
    }
}

/// A run at `stage` that has learnt nothing yet.
pub open spec fn fresh(stage: Stage, server_address: Ipv4, endpoint: Seq<char>) -> SessionView {
    SessionView {
        stage,
        server_address,
        endpoint,
        private_key: Seq::empty(),
        public_key: Seq::empty(),
        server_public_key: Seq::empty(),
        client_name: Seq::empty(),
        client_address: None,
    }
}

/// The failure that turns a request down, with the line that says why.
pub open spec fn refused(message: Seq<char>) -> FailureView {
    FailureView { error: WgInitErrors::ValidationFailure, message, diagnostic: Seq::empty() }
}

/// How a run begins, or why it does not.
///
/// Taking a client away is not offered. Adding a client needs an endpoint
/// that is not empty. Both runs need a server address in dotted-quad
/// notation; line feeds in it do not count. A request that passes begins
/// with its first step, and one that does not has caused no action at all.
pub open spec fn begun(workflow: Workflow, server_address: Seq<char>, endpoint: Seq<char>) -> Result<
    (SessionView, ActionView),
    FailureView,
> {
    match workflow {
        Workflow::RemoveClient => Err(refused("This functionality is a WIP"@)),
        Workflow::AddClient => if endpoint.len() == 0 {
            Err(
                refused(
                    "--endpoint <MY-ENDPOINT> flag not valid\n Please use: roadguard --endpoint MY-ENDPOINT add-client"@,
                ),
            )
        } else {
            match ipv4_of(without_newlines(server_address)) {
                Some(ip) => Ok(
                    (
                        fresh(Stage::LoadServerPublicKey, ip, endpoint),
                        ActionView::Read("server_public_key"@),
                    ),
                ),
                None => Err(refused("--ip <ADDRESS> is not an IPv4 address"@)),
            }
        },
        Workflow::Setup => match ipv4_of(without_newlines(server_address)) {
            Some(ip) => Ok(
                (
                    fresh(Stage::GenerateServerKey, ip, endpoint),
                    ActionView::Run(generate_key_command()),
                ),
            ),
            None => Err(refused("--ip <ADDRESS> is not an IPv4 address"@)),
        },
    }
}

/// Turns a request down.
fn refuse(message: &str) -> (f: Failure)
    ensures
        f@ == refused(message@),
{
    proof {
        reveal_strlit("");
    }
    assert(""@ =~= Seq::<char>::empty());
    Failure::new(WgInitErrors::ValidationFailure, message, "")
}

/// A run at `stage` that has learnt nothing yet.
fn fresh_session(stage: Stage, server_address: Ipv4, endpoint: &str) -> (session: Session)
    ensures
        session@ == fresh(stage, server_address, endpoint@),
{
    Session {
        stage,
        server_address,
        endpoint: endpoint.to_owned(),
        private_key: String::new(),
        public_key: String::new(),
        server_public_key: String::new(),
        client_name: String::new(),
        client_address: None,
    }
}

/// Begins a run.
///
/// Checks the request first. A request that is turned down has led to no
/// action: no program was run and no file was touched. A request that
/// passes comes back as a run with its first action.
pub fn start(workflow: Workflow, server_address: &str, endpoint: &str) -> (r: Result<
    (Session, Action),
    Failure,
>)
    ensures
        match r {
            Ok((session, action)) => begun(workflow, server_address@, endpoint@) == Ok::<
                (SessionView, ActionView),
                FailureView,
            >((session@, action@)),
            Err(f) => begun(workflow, server_address@, endpoint@) == Err::<
                (SessionView, ActionView),
                FailureView,
            >(f@),
        },
{
    match workflow {
        Workflow::RemoveClient => Err(refuse("This functionality is a WIP")),
        Workflow::AddClient => {
            if endpoint.is_empty() {
                return Err(
                    refuse(
                        "--endpoint <MY-ENDPOINT> flag not valid\n Please use: roadguard --endpoint MY-ENDPOINT add-client",
                    ),
                );
            }
            match parse_ipv4(strip_newlines(server_address).as_str()) {
                Some(ip) => Ok(
                    (
                        fresh_session(Stage::LoadServerPublicKey, ip, endpoint),
                        Action::Read("server_public_key".to_owned()),
                    ),
                ),
                None => Err(refuse("--ip <ADDRESS> is not an IPv4 address")),
            }
        },
        Workflow::Setup => match parse_ipv4(strip_newlines(server_address).as_str()) {
            Some(ip) => Ok(
                (
                    fresh_session(Stage::GenerateServerKey, ip, endpoint),
                    Action::Run(generate_key()),
                ),
            ),
            None => Err(refuse("--ip <ADDRESS> is not an IPv4 address")),
        },
    }
}

/// Ends the run with `failure`.
fn abort(session: Session, failure: Failure) -> (r: (Session, Action))
    ensures
        (r.0@, r.1@) == aborted(session@, failure@),
{
    (Session { stage: Stage::Failed, ..session }, Action::Abort(failure))
}

/// Ends the run with the failure of the step in progress.
fn abort_step(session: Session) -> (r: (Session, Action))
    ensures
        (r.0@, r.1@) == aborted(session@, step_failure(session.stage, Seq::empty())),
{
    proof {
        reveal_strlit("");
    }
    assert(""@ =~= Seq::<char>::empty());
    let failure = Failure::new(failure_kind_of(session.stage), hint_of(session.stage), "");
    abort(session, failure)
}

/// Ends the run because the event does not answer the step in progress.
fn abort_unexpected(session: Session) -> (r: (Session, Action))
    ensures
        (r.0@, r.1@) == aborted(session@, unexpected()),
{
    proof {
        reveal_strlit("");
    }
    assert(""@ =~= Seq::<char>::empty());
    let failure = Failure::new(
        WgInitErrors::ValidationFailure,
        "Unexpected answer for the step in progress",
        "",
    );
    abort(session, failure)
}

/// Moves the run on to `stage`.
fn go(session: Session, stage: Stage, action: Action) -> (r: (Session, Action))
    ensures
        (r.0@, r.1@) == moved(session@, stage, action@),
{
    (Session { stage, ..session }, action)
}

/// Judges a host command and moves on or ends the run.
fn go_after_command(session: Session, out: &CommandOutput, stage: Stage, action: Action) -> (r: (
    Session,
    Action,
))
    ensures
        (r.0@, r.1@) == after_command(session@, out@, stage, action@),
{
    match require_success(out, failure_kind_of(session.stage), hint_of(session.stage)) {
        Ok(_) => go(session, stage, action),
        Err(f) => abort(session, f),
    }
}

/// Moves on after a file was written, or ends the run where it was not.
fn go_after_write(session: Session, written: bool, stage: Stage, action: Action) -> (r: (
    Session,
    Action,
))
    ensures
        (r.0@, r.1@) == after_write(session@, written, stage, action@),
{
    if written {
        go(session, stage, action)
    } else {
        abort_step(session)
    }
}

/// Renders the server's configuration from what the run has learnt.
fn server_config_write(session: &Session, iface: &crate::network::NetworkInterface) -> (w:
    FileWrite)
    ensures
        w@ == server_config_file(server_config_text(identity_of(session@), iface@)),
{
    let keypair = Keypair {
        private: strip_newlines(session.private_key.as_str()),
        public: strip_newlines(session.public_key.as_str()),
    };
    let identity = ServerIdentity::new(session.server_address, keypair);
    persist_server_config(render_server_config(&identity, iface))
}

/// Renders the configuration of the client that the run is adding.
fn client_config_write(session: &Session, address: Ipv4) -> (w: FileWrite)
    ensures
        w@ == client_config_file(
            session@.client_name,
            client_config_text(
                peer_of(session@, address),
                session@.server_public_key,
                session@.endpoint,
            ),
        ),
{
    let peer = ClientPeer {
        name: session.client_name.clone(),
        keypair: Keypair {
            private: session.private_key.clone(),
            public: session.public_key.clone(),
        },
        allocated_address: address,
    };
    let text = render_client_config(
        &peer,
        session.server_public_key.as_str(),
        session.endpoint.as_str(),
    );
    persist_client_config(session.client_name.as_str(), text)
}

/// Takes the run one step further.
///
/// `event` is what came of the action that the run asked for last. The
/// answer is the run in its new state and the action to take now.
pub fn advance(session: Session, event: Event) -> (r: (Session, Action))
    ensures
        (r.0@, r.1@) == next(session@, event@),
{
    match (session.stage, event) {
        (Stage::GenerateServerKey, Event::Ran(out)) => match key_from_output(&out) {
            Ok(key) => {
                let command = derive_public(key.as_str());
                (
                    Session { stage: Stage::DeriveServerPublicKey, private_key: key, ..session },
                    Action::Run(command),
                )
            },
            Err(f) => abort(session, f),
        },
        (Stage::DeriveServerPublicKey, Event::Ran(out)) => match key_from_output(&out) {
            Ok(key) => {
                let write = persist_private_key(session.private_key.as_str());
                (
                    Session { stage: Stage::PersistServerPrivateKey, public_key: key, ..session },
                    Action::Write(write),
                )
            },
            Err(f) => abort(session, f),
        },
        (Stage::PersistServerPrivateKey, Event::Wrote(written)) => {
            let write = persist_public_key(session.public_key.as_str());
            go_after_write(session, written, Stage::PersistServerPublicKey, Action::Write(write))
        },
        (Stage::PersistServerPublicKey, Event::Wrote(written)) => go_after_write(
            session,
            written,
            Stage::DiscoverInterface,
            Action::Run(default_route()),
        ),
        (Stage::DiscoverInterface, Event::Ran(out)) => match interface_from_output(&out) {
            Ok(iface) => {
                let write = server_config_write(&session, &iface);
                go(session, Stage::PersistServerConfig, Action::Write(write))
            },
            Err(f) => abort(session, f),
        },
        (Stage::PersistServerConfig, Event::Wrote(written)) => go_after_write(
            session,
            written,
            Stage::EnableForwarding,
            Action::Run(enable_forwarding()),
        ),
        (Stage::EnableForwarding, Event::Ran(out)) => go_after_command(
            session,
            &out,
            Stage::ReloadSysctl,
            Action::Run(reload_sysctl()),
        ),
        (Stage::ReloadSysctl, Event::Ran(out)) => go_after_command(
            session,
            &out,
            Stage::EnableOnBoot,
            Action::Run(enable_on_boot()),
        ),
        (Stage::EnableOnBoot, Event::Ran(out)) => go_after_command(
            session,
            &out,
            Stage::OwnConfigDirectory,
            Action::Run(own_config_directory()),
        ),
        (Stage::OwnConfigDirectory, Event::Ran(out)) => go_after_command(
            session,
            &out,
            Stage::RestrictServerConfig,
            Action::Run(restrict_server_config()),
        ),
        (Stage::RestrictServerConfig, Event::Ran(out)) => go_after_command(
            session,
            &out,
            Stage::Done,
            Action::Finish,
        ),
        (Stage::LoadServerPublicKey, Event::Loaded(text)) => match text {
            Some(key) => (
                Session {
                    stage: Stage::GenerateClientKey,
                    server_public_key: strip_newlines(key.as_str()),
                    ..session
                },
                Action::Run(generate_key()),
            ),
            None => abort_step(session),
        },
        (Stage::GenerateClientKey, Event::Ran(out)) => match key_from_output(&out) {
            Ok(key) => {
                let private_key = strip_newlines(key.as_str());
                let mut input = private_key.clone();
                input.append("\n");
                let command = derive_public(input.as_str());
                (
                    Session { stage: Stage::DeriveClientPublicKey, private_key, ..session },
                    Action::Run(command),
                )
            },
            Err(f) => abort(session, f),
        },
        (Stage::DeriveClientPublicKey, Event::Ran(out)) => match key_from_output(&out) {
            Ok(key) => (
                Session {
                    stage: Stage::AskClientName,
                    public_key: strip_newlines(key.as_str()),
                    ..session
                },
                Action::Ask("Enter Name of Client:".to_owned()),
            ),
            Err(f) => abort(session, f),
        },
        (Stage::AskClientName, Event::Answered(line)) => (
            Session {
                stage: Stage::CountPeers,
                client_name: strip_newlines(line.as_str()),
                ..session
            },
            Action::Run(count_peers()),
        ),
        (Stage::CountPeers, Event::Ran(out)) => match peer_count_from_output(&out) {
            Ok(count) => match next_address(session.server_address, count) {
                Ok(address) => {
                    let write = client_config_write(&session, address);
                    (
                        Session {
                            stage: Stage::PersistClientConfig,
                            client_address: Some(address),
                            ..session
                        },
                        Action::Write(write),
                    )
                },
                Err(_) => {
                    proof {
                        reveal_strlit("");
                    }
                    assert(""@ =~= Seq::<char>::empty());
                    let failure = Failure::new(
                        WgInitErrors::PeerAllocationExhausted,
                        "No free address is left in the tunnel network",
                        "",
                    );
                    abort(session, failure)
                },
            },
            Err(f) => abort(session, f),
        },
        (Stage::PersistClientConfig, Event::Wrote(written)) => match session.client_address {
            Some(address) => {
                let command = register_live_peer(session.public_key.as_str(), address);
                go_after_write(session, written, Stage::RegisterPeer, Action::Run(command))
            },
            None => abort_unexpected(session),
        },
        (Stage::RegisterPeer, Event::Ran(out)) => go_after_command(
            session,
            &out,
            Stage::Done,
            Action::Finish,
        ),
        (Stage::Done, _) => (session, Action::Finish),
        _ => abort_unexpected(session),
    }
}

/// The step that follows `stage` in its chain. The last step of either run
/// is followed by the end of the run, and an ended run by itself.
pub open spec fn successor(stage: Stage) -> Stage {
    match stage {
        Stage::GenerateServerKey => Stage::DeriveServerPublicKey,
        Stage::DeriveServerPublicKey => Stage::PersistServerPrivateKey,
        Stage::PersistServerPrivateKey => Stage::PersistServerPublicKey,
        Stage::PersistServerPublicKey => Stage::DiscoverInterface,
        Stage::DiscoverInterface => Stage::PersistServerConfig,
        Stage::PersistServerConfig => Stage::EnableForwarding,
        Stage::EnableForwarding => Stage::ReloadSysctl,
        Stage::ReloadSysctl => Stage::EnableOnBoot,
        Stage::EnableOnBoot => Stage::OwnConfigDirectory,
        Stage::OwnConfigDirectory => Stage::RestrictServerConfig,
        Stage::RestrictServerConfig => Stage::Done,
        Stage::LoadServerPublicKey => Stage::GenerateClientKey,
        Stage::GenerateClientKey => Stage::DeriveClientPublicKey,
        Stage::DeriveClientPublicKey => Stage::AskClientName,
        Stage::AskClientName => Stage::CountPeers,
        Stage::CountPeers => Stage::PersistClientConfig,
        Stage::PersistClientConfig => Stage::RegisterPeer,
        Stage::RegisterPeer => Stage::Done,
        Stage::Done => Stage::Done,
        Stage::Failed => Stage::Failed,
    }
}

/// Whether `e` reports that the action it answers did not work: a command
/// that did not exit with status zero, a file that could not be written or
/// read.
pub open spec fn reports_failure(e: EventView) -> bool {
    match e {
        EventView::Ran(out) => !out.succeeded(),
        EventView::Wrote(written) => !written,
        EventView::Loaded(text) => text is None,
        EventView::Answered(_) => false,
    }
}

/// The chain is strict: whatever happens, a run either moves to the step
/// that follows the one in progress, or it fails. No step is skipped,
/// repeated or taken out of order.
pub proof fn lemma_steps_in_order(s: SessionView, e: EventView)
    ensures
        next(s, e).0.stage == successor(s.stage) || next(s, e).0.stage == Stage::Failed,
{
}

/// The first failure ends the run: while a run is in progress, an event
/// that reports a failure leads to no further step but to the end, with the
/// failure to report.
pub proof fn lemma_failure_ends_run(s: SessionView, e: EventView)
    requires
        s.stage != Stage::Done,
        reports_failure(e),
    ensures
        next(s, e).0.stage == Stage::Failed,
        next(s, e).1 is Abort,
{
}

/// A failure says which step it came from: the run reports the kind of
/// failure that belongs to the step in progress, or that the event did not
/// answer that step.
pub proof fn lemma_failure_names_its_step(s: SessionView, e: EventView)
    requires
        s.stage != Stage::Done,
        reports_failure(e),
    ensures
        next(s, e).1 matches ActionView::Abort(f) && (f.error == failure_kind(s.stage) || f
            == unexpected()),
{
}

/// What setup writes can be read back: the server configuration that a run
/// renders gives back the address the run was started with and the private
/// key it generated, line feeds apart, whatever the interface is called.
pub proof fn lemma_rendered_identity_reads_back(s: SessionView, iface: Seq<char>)
    ensures
        server_address_of(server_config_text(identity_of(s), iface)) == Some(s.server_address),
        server_private_key_of(server_config_text(identity_of(s), iface)) == Some(
            without_newlines(s.private_key),
        ),
{
    lemma_without_newlines_one_line(s.private_key);
    lemma_server_config_round_trip(identity_of(s), iface);
}

/// A run that has ended stays ended: a failed run asks for nothing but to
/// stop, a completed one for nothing at all, and neither changes.
pub proof fn lemma_ended_run_stays(s: SessionView, e: EventView)
    ensures
        s.stage == Stage::Failed ==> next(s, e).0 == s && next(s, e).1 is Abort,
        s.stage == Stage::Done ==> next(s, e).0 == s && next(s, e).1 is Finish,
        next(s, e).1 is Abort <==> next(s, e).0.stage == Stage::Failed,
{
}

/// Secret material stays with its owner: every file that a run asks to have
/// written, at its beginning or at any later step, carries the owner-only
/// permission bits.
pub proof fn lemma_writes_are_owner_only(s: SessionView, e: EventView)
    ensures
        next(s, e).1 matches ActionView::Write(w) ==> w.mode == crate::command::OWNER_ONLY_MODE,
{
}

/// A request is checked before anything is done: a run that begins asks to
/// run a program or to read a file, never to write one, and a client is not
/// added without an endpoint.
pub proof fn lemma_request_is_checked_first(
    workflow: Workflow,
    server_address: Seq<char>,
    endpoint: Seq<char>,
)
    ensures
        workflow == Workflow::AddClient && endpoint.len() == 0 ==> begun(
            workflow,
            server_address,
            endpoint,
        ) == Err::<(SessionView, ActionView), FailureView>(
            refused(
                "--endpoint <MY-ENDPOINT> flag not valid\n Please use: roadguard --endpoint MY-ENDPOINT add-client"@,
            ),
        ),
        workflow == Workflow::RemoveClient ==> begun(workflow, server_address, endpoint) is Err,
        begun(workflow, server_address, endpoint) matches Err(f) ==> f.error
            == WgInitErrors::ValidationFailure,
        begun(workflow, server_address, endpoint) matches Ok(begin) ==> !(begin.1 is Write),
{
}

} // verus!
