//! A client's interface configuration: the client's own keys and address,
//! and the server as its only peer.

use vstd::prelude::*;
use crate::address::{Ipv4, ipv4_text};
use crate::command::{FileWrite, FileWriteView, OWNER_ONLY_MODE};
use crate::config::field_line;
use crate::peers::{ClientPeer, ClientPeerView};
use crate::server_config::{append_field, default_dns, LISTEN_PORT};
use crate::text::{decimal_string, decimal_text};

verus! {

/// The client's tunnel address as a single host.
pub open spec fn host_address(ip: Ipv4) -> Seq<char> {
    ipv4_text(ip) + "/32"@
}

/// Where the client reaches the server: `endpoint` and the server's port.
pub open spec fn endpoint_with_port(endpoint: Seq<char>) -> Seq<char> {
    endpoint + ":"@ + decimal_text(LISTEN_PORT as nat)
}

/// The text of a client's interface configuration.
///
/// An `[Interface]` section with the client's private key, its address as a
/// single host and the resolver; a blank line; and a `[Peer]` section with
/// the server's public key, all IPv4 and IPv6 traffic routed to it, and the
/// server's endpoint on the listen port.
pub open spec fn client_config_text(
    peer: ClientPeerView,
    server_public_key: Seq<char>,
    endpoint: Seq<char>,
) -> Seq<char> {
    "[Interface]\n"@ + field_line("PrivateKey"@, peer.keypair.private) + field_line(
        "Address"@,
        host_address(peer.allocated_address),
    ) + field_line("DNS"@, ipv4_text(default_dns())) + "\n[Peer]\n"@ + field_line(
        "PublicKey"@,
        server_public_key,
    ) + field_line("AllowedIPs"@, "0.0.0.0/0, ::/0"@) + field_line(
        "Endpoint"@,
        endpoint_with_port(endpoint),
    )
}

/// Renders a client's interface configuration.
///
/// The text depends on the three arguments alone and holds them as they
/// were given.
pub fn render_client_config(peer: &ClientPeer, server_public_key: &str, endpoint: &str) -> (text:
    String)
    ensures
        text@ == client_config_text(peer@, server_public_key@, endpoint@),
{
    let mut address = peer.allocated_address.to_string();
    address.append("/32");
    let dns = Ipv4 { a: 1, b: 1, c: 1, d: 1 }.to_string();
    let mut reach = endpoint.to_owned();
    reach.append(":");
    reach.append(decimal_string(LISTEN_PORT as u32).as_str());

    let mut text = "[Interface]\n".to_owned();
    append_field(&mut text, "PrivateKey", peer.keypair.private.as_str());
    append_field(&mut text, "Address", address.as_str());
    append_field(&mut text, "DNS", dns.as_str());
    text.append("\n[Peer]\n");
    append_field(&mut text, "PublicKey", server_public_key);
    append_field(&mut text, "AllowedIPs", "0.0.0.0/0, ::/0");
    append_field(&mut text, "Endpoint", reach.as_str());
    text
}

/// The file that holds the configuration of the client called `name`:
/// `<name>.conf` in the working directory.
pub open spec fn client_config_file(name: Seq<char>, contents: Seq<char>) -> FileWriteView {
    FileWriteView { path: name + ".conf"@, contents, mode: OWNER_ONLY_MODE }
}

/// The request to store a client's configuration, which holds the client's
/// private key, for its owner's eyes only.
pub fn persist_client_config(name: &str, contents: String) -> (w: FileWrite)
    ensures
        w@ == client_config_file(name@, contents@),
{
    let mut path = name.to_owned();
    path.append(".conf");
    FileWrite::owner_only(path, contents)
}

} // verus!
