//! Peers: how many the running tunnel interface has, and which address
//! inside the server's /24 subnet the next one gets.
//!
//! The library keeps no list of peers. The interface's own peer table is the
//! ledger, and it is read anew for every allocation. The address of the next
//! client follows from the number of peers alone, so addresses stay unique
//! as long as peers are only ever added.
//!
//! Counting the peers and registering the new one are two separate steps,
//! and nothing locks the interface in between: two runs that add a client at
//! the same moment can read the same count and be given the same address.

use vstd::prelude::*;
use crate::address::Ipv4;
use crate::command::{
    CommandOutput, CommandOutputView, Invocation, InvocationView, Pipeline, PipelineView,
};
use crate::error::{Failure, FailureView, WgInitErrors};
use crate::keys::{Keypair, KeypairView};
use crate::text::{chars_of, decimal_value, parse_decimal, strip_newlines, without_newlines};

verus! {

/// Host numbers below this one are kept for the network and the server.
pub const FIRST_CLIENT_HOST: u8 = 2;

/// The highest host number a client can get; 254 and 255 stay free.
pub const LAST_CLIENT_HOST: u8 = 253;

/// The address of the client that joins when `current_peer_count` peers
/// exist: the subnet of `base` with host number `current_peer_count + 2`.
pub open spec fn allocated_address(base: Ipv4, current_peer_count: u32) -> Ipv4
    recommends
        current_peer_count + FIRST_CLIENT_HOST <= LAST_CLIENT_HOST,
{
    Ipv4 { a: base.a, b: base.b, c: base.c, d: (current_peer_count + FIRST_CLIENT_HOST) as u8 }
}

/// Whether the subnet still has a client address for one more peer.
pub open spec fn has_free_address(current_peer_count: u32) -> bool {
    current_peer_count + FIRST_CLIENT_HOST <= LAST_CLIENT_HOST
}

/// Picks the tunnel address of the next client.
///
/// The first three octets are those of `server_subnet_base`; the last is
/// `current_peer_count + 2`. Once that would pass 253 the subnet is
/// exhausted and no address is handed out.
pub fn next_address(server_subnet_base: Ipv4, current_peer_count: u32) -> (r: Result<
    Ipv4,
    WgInitErrors,
>)
    ensures
        has_free_address(current_peer_count) ==> r == Ok::<Ipv4, WgInitErrors>(
            allocated_address(server_subnet_base, current_peer_count),
        ),
        !has_free_address(current_peer_count) ==> r == Err::<Ipv4, WgInitErrors>(
            WgInitErrors::PeerAllocationExhausted,
        ),
{
    if current_peer_count > (LAST_CLIENT_HOST - FIRST_CLIENT_HOST) as u32 {
        return Err(WgInitErrors::PeerAllocationExhausted);
    }
    let host: u8 = current_peer_count as u8 + FIRST_CLIENT_HOST;
    Ok(Ipv4 { a: server_subnet_base.a, b: server_subnet_base.b, c: server_subnet_base.c, d: host })
}

/// Different numbers of peers give different addresses: as long as peers
/// are only added, no two clients share one.
pub proof fn lemma_allocated_addresses_differ(base: Ipv4, count: u32, other: u32)
    requires
        has_free_address(count),
        has_free_address(other),
        count != other,
    ensures
        allocated_address(base, count) != allocated_address(base, other),
{
}

/// An allocated address lies in the server's /24 network, and its host
/// number is none of 0, 1, 254 and 255, which are not for clients.
pub proof fn lemma_allocated_address_is_a_client_host(base: Ipv4, count: u32)
    requires
        has_free_address(count),
    ensures
        allocated_address(base, count).a == base.a,
        allocated_address(base, count).b == base.b,
        allocated_address(base, count).c == base.c,
        FIRST_CLIENT_HOST <= allocated_address(base, count).d <= LAST_CLIENT_HOST,
        allocated_address(base, count).d == count + 2,
{
}

/// A client of the tunnel: the name its configuration file goes by, its keys
/// and the tunnel address it was given.
#[derive(Debug, Clone, PartialEq, Eq)]
pub struct ClientPeer {
    pub name: String,
    pub keypair: Keypair,
    pub allocated_address: Ipv4,
}

/// A [`ClientPeer`] as plain text.
pub struct ClientPeerView {
    pub name: Seq<char>,
    pub keypair: KeypairView,
    pub allocated_address: Ipv4,
}

impl View for ClientPeer {
    type V = ClientPeerView;

    open spec fn view(&self) -> ClientPeerView {
        ClientPeerView {
            name: self.name@,
            keypair: self.keypair@,
            allocated_address: self.allocated_address,
        }
    }
}

/// `wg show | grep peer | wc -l`: the number of peers on the running
/// interfaces, one line of the listing for each.
pub open spec fn count_peers_command() -> PipelineView {
    PipelineView {
        stages: seq![
            InvocationView { program: "wg"@, args: seq!["show"@] },
            InvocationView { program: "grep"@, args: seq!["peer"@] },
            InvocationView { program: "wc"@, args: seq!["-l"@] },
        ],
        input: None,
    }
}

/// The command that counts the live peers.
pub fn count_peers() -> (p: Pipeline)
    ensures
        p@ == count_peers_command(),
{
    let p = Pipeline::of(Invocation::program("wg").arg("show")).pipe(
        Invocation::program("grep").arg("peer"),
    ).pipe(Invocation::program("wc").arg("-l"));
    assert(p@.stages[0].args =~= count_peers_command().stages[0].args);
    assert(p@.stages[1].args =~= count_peers_command().stages[1].args);
    assert(p@.stages[2].args =~= count_peers_command().stages[2].args);
    assert(p@.stages =~= count_peers_command().stages);
    p
}

/// The number that the counting command wrote: `stdout` without its line
/// feeds, read as a decimal number that fits `u32`.
pub open spec fn peer_count(stdout: Seq<char>) -> Option<u32> {
    match decimal_value(without_newlines(stdout)) {
        Some(n) => if n <= u32::MAX {
            Some(n as u32)
        } else {
            None
        },
        None => None,
    }
}

/// The current number of peers according to the answer to [`count_peers`].
/// A command that did not exit with status zero, or whose output is not a
/// number, leaves the count unknown.
pub open spec fn counted_peers(output: CommandOutputView) -> Result<u32, FailureView> {
    if output.succeeded() && peer_count(output.stdout) is Some {
        Ok(peer_count(output.stdout)->0)
    } else {
        Err(
            FailureView {
                error: WgInitErrors::ProcessExecutionFailure,
                message: "Error reading the number of peers"@,
                diagnostic: output.stderr,
            },
        )
    }
}

/// Reads the current number of peers from the answer to [`count_peers`].
pub fn peer_count_from_output(output: &CommandOutput) -> (r: Result<u32, Failure>)
    ensures
        match r {
            Ok(n) => counted_peers(output@) == Ok::<u32, FailureView>(n),
            Err(f) => counted_peers(output@) == Err::<u32, FailureView>(f@),
        },
{
    let digits = strip_newlines(output.stdout.as_str());
    let chars = chars_of(digits.as_str());
    let count = parse_decimal(chars.as_slice());
    if output.succeeded() {
        if let Some(n) = count {
            return Ok(n);
        }
    }
    Err(
        Failure::new(
            WgInitErrors::ProcessExecutionFailure,
            "Error reading the number of peers",
            output.stderr.as_str(),
        ),
    )
}

} // verus!
