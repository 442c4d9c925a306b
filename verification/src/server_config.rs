//! The server's interface configuration: rendering it from the server's
//! identity and the host's outbound interface, and reading the identity's
//! fields back out of the rendered text.

use vstd::prelude::*;
use crate::address::{
    Ipv4, ipv4_text, lemma_ipv4_text_injective, lemma_ipv4_text_one_line, parse_ipv4,
};
use crate::config::{
    field_line, field_of, field_value, label, lemma_field_of_finds, lemma_field_of_skips,
    lemma_one_line_concat,
};
use crate::command::{FileWrite, FileWriteView, OWNER_ONLY_MODE};
use crate::keys::{Keypair, KeypairView};
use crate::network::NetworkInterface;
use crate::text::{chars_of, decimal_string, decimal_text, one_line};

verus! {

/// The UDP port the server listens on.
pub const LISTEN_PORT: u16 = 51900;

/// The resolver that tunnel traffic is pointed at: 1.1.1.1.
pub open spec fn default_dns() -> Ipv4 {
    Ipv4 { a: 1, b: 1, c: 1, d: 1 }
}

/// Who the server is inside the tunnel: its address in the /24 tunnel
/// network, its keys, the port it listens on and the resolver it announces.
#[derive(Debug, Clone, PartialEq, Eq)]
pub struct ServerIdentity {
    pub tunnel_address: Ipv4,
    pub keypair: Keypair,
    pub listen_port: u16,
    pub dns: Ipv4,
}

/// A [`ServerIdentity`] as plain text.
pub struct ServerIdentityView {
    pub tunnel_address: Ipv4,
    pub keypair: KeypairView,
    pub listen_port: u16,
    pub dns: Ipv4,
}

impl View for ServerIdentity {
    type V = ServerIdentityView;

    open spec fn view(&self) -> ServerIdentityView {
        ServerIdentityView {
            tunnel_address: self.tunnel_address,
            keypair: self.keypair@,
            listen_port: self.listen_port,
            dns: self.dns,
        }
    }
}

impl ServerIdentity {
    /// The identity with the given address and keys, the standard port and
    /// the standard resolver.
    pub fn new(tunnel_address: Ipv4, keypair: Keypair) -> (identity: ServerIdentity)
        ensures
            identity@ == (ServerIdentityView {
                tunnel_address,
                keypair: keypair@,
                listen_port: LISTEN_PORT,
                dns: default_dns(),
            }),
    {
        ServerIdentity {
            tunnel_address,
            keypair,
            listen_port: LISTEN_PORT,
            dns: Ipv4 { a: 1, b: 1, c: 1, d: 1 },
        }
    }
}

/// The hook that opens forwarding for the tunnel and masquerades what
/// leaves through `iface`, run when the tunnel comes up.
pub open spec fn post_up(iface: Seq<char>) -> Seq<char> {
    "iptables -A FORWARD -i %i -j ACCEPT; iptables -A FORWARD -o %i -j ACCEPT; iptables -t nat -A POSTROUTING -o "@
        + iface + " -j MASQUERADE"@
}

/// The hook that takes the rules of [`post_up`] away again, run when the
/// tunnel goes down.
pub open spec fn post_down(iface: Seq<char>) -> Seq<char> {
    "iptables -D FORWARD -i %i -j ACCEPT; iptables -D FORWARD -o %i -j ACCEPT; iptables -t nat -D POSTROUTING -o "@
        + iface + " -j MASQUERADE"@
}

/// The tunnel address with the prefix length of the tunnel network.
pub open spec fn subnet_address(ip: Ipv4) -> Seq<char> {
    ipv4_text(ip) + "/24"@
}

/// What follows the private key in the server's configuration: port,
/// resolver, and the two hooks bound to `iface`.
pub open spec fn server_config_tail(identity: ServerIdentityView, iface: Seq<char>) -> Seq<char> {
    field_line("ListenPort"@, decimal_text(identity.listen_port as nat)) + field_line(
        "DNS"@,
        ipv4_text(identity.dns),
    ) + "\n"@ + field_line("PostUp"@, post_up(iface)) + field_line("PostDown"@, post_down(iface))
}

/// The text of the server's interface configuration.
///
/// An `[Interface]` section with, in this order: the tunnel address with its
/// prefix length, the flag that lets the tunnel write live peer changes back
/// into the file, the private key, the listen port, the resolver, a blank
/// line, and the hooks for `iface`.
pub open spec fn server_config_text(identity: ServerIdentityView, iface: Seq<char>) -> Seq<char> {
    "[Interface]\n"@ + field_line("Address"@, subnet_address(identity.tunnel_address))
        + field_line("SaveConfig"@, "true"@) + field_line(
        "PrivateKey"@,
        identity.keypair.private,
    ) + server_config_tail(identity, iface)
}

/// Appends the line that sets `key` to `value`.
pub fn append_field(out: &mut String, key: &str, value: &str)
    ensures
        final(out)@ == old(out)@ + field_line(key@, value@),
{
    out.append(key);
    out.append(" = ");
    out.append(value);
    out.append("\n");
    assert(out@ =~= old(out)@ + field_line(key@, value@));
}

/// Renders the server's interface configuration.
///
/// The text depends on `identity` and `iface` alone, and it holds both as
/// they were given: nothing is trimmed, escaped or otherwise changed.
pub fn render_server_config(identity: &ServerIdentity, iface: &NetworkInterface) -> (text: String)
    ensures
        text@ == server_config_text(identity@, iface@),
{
    let mut address = identity.tunnel_address.to_string();
    address.append("/24");
    let mut up =
        "iptables -A FORWARD -i %i -j ACCEPT; iptables -A FORWARD -o %i -j ACCEPT; iptables -t nat -A POSTROUTING -o ".to_owned();
    up.append(iface.name.as_str());
    up.append(" -j MASQUERADE");
    let mut down =
        "iptables -D FORWARD -i %i -j ACCEPT; iptables -D FORWARD -o %i -j ACCEPT; iptables -t nat -D POSTROUTING -o ".to_owned();
    down.append(iface.name.as_str());
    down.append(" -j MASQUERADE");

    let mut text = "[Interface]\n".to_owned();
    append_field(&mut text, "Address", address.as_str());
    append_field(&mut text, "SaveConfig", "true");
    append_field(&mut text, "PrivateKey", identity.keypair.private.as_str());
    let ghost head = text@;
    append_field(&mut text, "ListenPort", decimal_string(identity.listen_port as u32).as_str());
    append_field(&mut text, "DNS", identity.dns.to_string().as_str());
    text.append("\n");
    append_field(&mut text, "PostUp", up.as_str());
    append_field(&mut text, "PostDown", down.as_str());
    assert(text@ =~= head + server_config_tail(identity@, iface@));
    text
}

/// Rendering is a function of what it is given: identities that hold the
/// same values and interfaces of the same name are rendered to the same
/// text, character for character, however often.
pub proof fn lemma_render_is_deterministic(
    identity: ServerIdentity,
    iface: NetworkInterface,
    same_identity: ServerIdentity,
    same_iface: NetworkInterface,
)
    requires
        identity@ == same_identity@,
        iface@ == same_iface@,
    ensures
        server_config_text(identity@, iface@) == server_config_text(same_identity@, same_iface@),
{
}

/// The file that holds the server's configuration:
/// `/etc/wireguard/wg0.conf`.
pub open spec fn server_config_file(contents: Seq<char>) -> FileWriteView {
    FileWriteView { path: "/etc/wireguard/wg0.conf"@, contents, mode: OWNER_ONLY_MODE }
}

/// The request to store the server's configuration, which holds the
/// server's private key, for its owner's eyes only.
pub fn persist_server_config(contents: String) -> (w: FileWrite)
    ensures
        w@ == server_config_file(contents@),
{
    FileWrite::owner_only("/etc/wireguard/wg0.conf".to_owned(), contents)
}

/// The address that the value of an `Address` setting names: the one whose
/// text with the prefix length of the tunnel network the value is.
pub open spec fn subnet_address_value(value: Seq<char>) -> Option<Ipv4> {
    if exists|ip: Ipv4| value == #[trigger] subnet_address(ip) {
        Some(choose|ip: Ipv4| value == #[trigger] subnet_address(ip))
    } else {
        None
    }
}

/// The tunnel address that the configuration `config` sets.
pub open spec fn server_address_of(config: Seq<char>) -> Option<Ipv4> {
    match field_of(config, "Address"@) {
        Some(value) => subnet_address_value(value),
        None => None,
    }
}

/// The private key that the configuration `config` sets.
pub open spec fn server_private_key_of(config: Seq<char>) -> Option<Seq<char>> {
    field_of(config, "PrivateKey"@)
}

/// Two addresses that are written alike are the same address.
pub proof fn lemma_subnet_address_injective(x: Ipv4, y: Ipv4)
    requires
        subnet_address(x) == subnet_address(y),
    ensures
        x == y,
{
    reveal_strlit("/24");
    let tx = ipv4_text(x);
    let ty = ipv4_text(y);
    assert(subnet_address(x).len() == tx.len() + 3);
    assert(subnet_address(y).len() == ty.len() + 3);
    assert(tx =~= subnet_address(x).take(tx.len() as int));
    assert(ty =~= subnet_address(y).take(ty.len() as int));
    lemma_ipv4_text_injective(x, y);
}

/// An address is read back from the way it is written.
pub proof fn lemma_subnet_address_value(ip: Ipv4)
    ensures
        subnet_address_value(subnet_address(ip)) == Some(ip),
{
    let found = choose|other: Ipv4| subnet_address(ip) == #[trigger] subnet_address(other);
    lemma_subnet_address_injective(ip, found);
}

/// Reads the tunnel address out of a server configuration.
///
/// Returns `None` where the text has no `Address` setting and where the
/// setting is not an address followed by `/24`.
pub fn server_address(config: &str) -> (r: Option<Ipv4>)
    ensures
        r == server_address_of(config@),
{
    let value = match field_value(config, "Address") {
        Some(value) => value,
        None => { return None; },
    };
    let chars = chars_of(value.as_str());
    let n = chars.len();
    proof {
        reveal_strlit("/24");
        assert forall|ip: Ipv4| value@ == #[trigger] subnet_address(ip) implies n >= 3
            && chars@[n - 3] == '/' && chars@[n - 2] == '2' && chars@[n - 1] == '4'
            && value@.subrange(0, n - 3) == ipv4_text(ip) by {
            assert(subnet_address(ip).len() == ipv4_text(ip).len() + 3);
            assert(value@.subrange(0, n - 3) =~= ipv4_text(ip));
        }
    }
    if n < 3 || chars[n - 3] != '/' || chars[n - 2] != '2' || chars[n - 1] != '4' {
        return None;
    }
    match parse_ipv4(value.as_str().substring_char(0, n - 3)) {
        Some(ip) => {
            proof {
                assert(value@ =~= subnet_address(ip));
                lemma_subnet_address_value(ip);
            }
            Some(ip)
        },
        None => None,
    }
}

/// Reads the private key out of a server configuration.
///
/// Returns `None` where the text has no `PrivateKey` setting.
pub fn server_private_key(config: &str) -> (r: Option<String>)
    ensures
        match r {
            Some(key) => server_private_key_of(config@) == Some(key@),
            None => server_private_key_of(config@) is None,
        },
{
    field_value(config, "PrivateKey")
}

/// Reading a rendered configuration gives the identity back.
///
/// For every identity whose private key is a single line and every
/// interface name, the address and the private key that are read out of the
/// rendered text are the identity's own.
pub proof fn lemma_server_config_round_trip(identity: ServerIdentityView, iface: Seq<char>)
    requires
        one_line(identity.keypair.private),
    ensures
        server_address_of(server_config_text(identity, iface)) == Some(identity.tunnel_address),
        server_private_key_of(server_config_text(identity, iface)) == Some(
            identity.keypair.private,
        ),
{
    reveal_strlit("[Interface]\n");
    reveal_strlit("[Interface]");
    reveal_strlit("\n");
    reveal_strlit(" = ");
    reveal_strlit("/24");
    reveal_strlit("Address");
    reveal_strlit("SaveConfig");
    reveal_strlit("true");
    reveal_strlit("PrivateKey");

    let text = server_config_text(identity, iface);
    let address = subnet_address(identity.tunnel_address);
    let key = identity.keypair.private;
    let tail = server_config_tail(identity, iface);
    let header = "[Interface]"@;
    let key_line = field_line("PrivateKey"@, key);
    let save_line = label("SaveConfig"@) + "true"@;
    let address_line = label("Address"@) + address;

    let after_save = key_line + tail;
    let after_address = save_line + "\n"@ + after_save;
    let after_header = address_line + "\n"@ + after_address;
    assert(text =~= header + "\n"@ + after_header);

    assert(one_line(address)) by {
        lemma_ipv4_text_one_line(identity.tunnel_address);
        lemma_one_line_concat(ipv4_text(identity.tunnel_address), "/24"@);
    }
    assert(one_line(address_line)) by {
        lemma_one_line_concat("Address"@, " = "@);
        lemma_one_line_concat(label("Address"@), address);
    }
    assert(one_line(save_line)) by {
        lemma_one_line_concat("SaveConfig"@, " = "@);
        lemma_one_line_concat(label("SaveConfig"@), "true"@);
    }

    // The address stands on the first line behind the section header.
    assert(!label("Address"@).is_prefix_of(header)) by {
        assert(label("Address"@)[0] == 'A');
        assert(header.subrange(0, label("Address"@).len() as int)[0] == '[');
    }
    lemma_field_of_skips(header, after_header, "Address"@);
    assert(after_header =~= field_line("Address"@, address) + after_address);
    lemma_field_of_finds("Address"@, address, after_address);
    lemma_subnet_address_value(identity.tunnel_address);

    // The private key stands two lines further down.
    assert(!label("PrivateKey"@).is_prefix_of(header)) by {
        assert(label("PrivateKey"@).len() > header.len());
    }
    lemma_field_of_skips(header, after_header, "PrivateKey"@);
    assert(!label("PrivateKey"@).is_prefix_of(address_line)) by {
        assert(label("PrivateKey"@)[0] == 'P');
        assert(address_line[0] == 'A');
        if label("PrivateKey"@).len() <= address_line.len() {
            assert(address_line.subrange(0, label("PrivateKey"@).len() as int)[0] == 'A');
        }
    }
    lemma_field_of_skips(address_line, after_address, "PrivateKey"@);
    assert(!label("PrivateKey"@).is_prefix_of(save_line)) by {
        assert(label("PrivateKey"@)[0] == 'P');
        assert(save_line[0] == 'S');
        if label("PrivateKey"@).len() <= save_line.len() {
            assert(save_line.subrange(0, label("PrivateKey"@).len() as int)[0] == 'S');
        }
    }
    lemma_field_of_skips(save_line, after_save, "PrivateKey"@);
    lemma_field_of_finds("PrivateKey"@, key, tail);
}

} // verus!
