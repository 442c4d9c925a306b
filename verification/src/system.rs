//! Host-level changes that make the rendered server configuration take
//! effect and survive a reboot, and the registration of a peer on the running
//! tunnel interface.
//!
//! Each change is one command. The functions here only name the command; its
//! outcome is judged by [`require_success`].

use vstd::prelude::*;
use crate::address::{Ipv4, ipv4_text};
use crate::command::{CommandOutput, CommandOutputView, Invocation, Pipeline, PipelineView, single};
use crate::error::{Failure, FailureView, WgInitErrors};

verus! {

/// `sed -i /net.ipv4.ip_forward=1/s/^#//g /etc/sysctl.conf`: uncomments the
/// line that switches IPv4 forwarding on.
pub open spec fn enable_forwarding_command() -> PipelineView {
    single("sed"@, seq!["-i"@, "/net.ipv4.ip_forward=1/s/^#//g"@, "/etc/sysctl.conf"@])
}

/// `sysctl -p`: loads the kernel settings again.
pub open spec fn reload_sysctl_command() -> PipelineView {
    single("sysctl"@, seq!["-p"@])
}

/// `systemctl enable wg-quick@wg0`: brings the tunnel up at boot.
pub open spec fn enable_on_boot_command() -> PipelineView {
    single("systemctl"@, seq!["enable"@, "wg-quick@wg0"@])
}

/// `chown -R root:root /etc/wireguard/`: hands the configuration directory
/// to the privileged account.
pub open spec fn own_config_directory_command() -> PipelineView {
    single("chown"@, seq!["-R"@, "root:root"@, "/etc/wireguard/"@])
}

/// `chmod -R og-rwx /etc/wireguard/wg0.conf`: takes every right on the
/// server configuration away from group and others.
pub open spec fn restrict_server_config_command() -> PipelineView {
    single("chmod"@, seq!["-R"@, "og-rwx"@, "/etc/wireguard/wg0.conf"@])
}

/// `wg set wg0 peer <public_key> allowed-ips <allowed_address>`: adds the
/// peer to the running interface.
pub open spec fn register_live_peer_command(
    public_key: Seq<char>,
    allowed_address: Ipv4,
) -> PipelineView {
    single(
        "wg"@,
        seq!["set"@, "wg0"@, "peer"@, public_key, "allowed-ips"@, ipv4_text(allowed_address)],
    )
}

/// The command that switches IPv4 forwarding on in the host's sysctl file.
pub fn enable_forwarding() -> (p: Pipeline)
    ensures
        p@ == enable_forwarding_command(),
{
    let p = Pipeline::of(
        Invocation::program("sed").arg("-i").arg("/net.ipv4.ip_forward=1/s/^#//g").arg(
            "/etc/sysctl.conf",
        ),
    );
    assert(p@.stages[0].args =~= enable_forwarding_command().stages[0].args);
    p
}

/// The command that makes the kernel read its settings again.
pub fn reload_sysctl() -> (p: Pipeline)
    ensures
        p@ == reload_sysctl_command(),
{
    let p = Pipeline::of(Invocation::program("sysctl").arg("-p"));
    assert(p@.stages[0].args =~= reload_sysctl_command().stages[0].args);
    p
}

/// The command that registers the tunnel service for activation at boot.
pub fn enable_on_boot() -> (p: Pipeline)
    ensures
        p@ == enable_on_boot_command(),
{
    let p = Pipeline::of(Invocation::program("systemctl").arg("enable").arg("wg-quick@wg0"));
    assert(p@.stages[0].args =~= enable_on_boot_command().stages[0].args);
    p
}

/// The command that gives the configuration directory to the privileged
/// account.
pub fn own_config_directory() -> (p: Pipeline)
    ensures
        p@ == own_config_directory_command(),
{
    let p = Pipeline::of(
        Invocation::program("chown").arg("-R").arg("root:root").arg("/etc/wireguard/"),
    );
    assert(p@.stages[0].args =~= own_config_directory_command().stages[0].args);
    p
}

/// The command that leaves the server configuration readable by its owner
/// alone.
pub fn restrict_server_config() -> (p: Pipeline)
    ensures
        p@ == restrict_server_config_command(),
{
    let p = Pipeline::of(
        Invocation::program("chmod").arg("-R").arg("og-rwx").arg("/etc/wireguard/wg0.conf"),
    );
    assert(p@.stages[0].args =~= restrict_server_config_command().stages[0].args);
    p
}

/// The command that adds a peer with `public_key`, reachable at
/// `allowed_address`, to the running tunnel interface.
pub fn register_live_peer(public_key: &str, allowed_address: Ipv4) -> (p: Pipeline)
    ensures
        p@ == register_live_peer_command(public_key@, allowed_address),
{
    let address = allowed_address.to_string();
    let p = Pipeline::of(
        Invocation::program("wg").arg("set").arg("wg0").arg("peer").arg(public_key).arg(
            "allowed-ips",
        ).arg(address.as_str()),
    );
    assert(p@.stages[0].args =~= register_live_peer_command(
        public_key@,
        allowed_address,
    ).stages[0].args);
    p
}

/// What a command's outcome means for the step that ran it: nothing to
/// report after exit status zero, otherwise the failure `error` with
/// `message` and the command's error stream.
pub open spec fn judged(
    output: CommandOutputView,
    error: WgInitErrors,
    message: Seq<char>,
) -> Result<(), FailureView> {
    if output.succeeded() {
        Ok(())
    } else {
        Err(FailureView { error, message, diagnostic: output.stderr })
    }
}

/// Judges the outcome of a command: `Ok` after exit status zero, and after
/// any other ending the failure to report.
pub fn require_success(output: &CommandOutput, error: WgInitErrors, message: &str) -> (r: Result<
    (),
    Failure,
>)
    ensures
        match r {
            Ok(_) => judged(output@, error, message@) is Ok,
            Err(f) => judged(output@, error, message@) == Err::<(), FailureView>(f@),
        },
{
    if output.succeeded() {
        Ok(())
    } else {
        Err(Failure::new(error, message, output.stderr.as_str()))
    }
}

} // verus!
