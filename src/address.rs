//! Dial targets: structured multi-segment addresses such as
//! `/dns4/host.example/tcp/443/wss/p2p/<peer id>`.
use std::str::FromStr;
use vstd::prelude::*;

verus! {

#[verifier::external_type_specification]
#[verifier::external_body]
pub struct ExMultiaddr(libp2p::Multiaddr);

/// Whether multiaddr's parser accepts the text.
pub uninterp spec fn multiaddr_accepts(text: Seq<char>) -> bool;

/// The protocol tags (`"dns4"`, `"tcp"`, `"wss"`, ...) of the parsed text, in order.
pub uninterp spec fn multiaddr_tags(text: Seq<char>) -> Seq<Seq<char>>;

/// The binary peer id carried by the last segment of the parsed text, when
/// that segment is `p2p`.
pub uninterp spec fn multiaddr_peer(text: Seq<char>) -> Option<Seq<u8>>;

pub open spec fn opt_bytes(o: Option<Vec<u8>>) -> Option<Seq<u8>> {
    match o {
        Some(v) => Some(v@),
        None => None,
    }
}

/// Relies on `<Multiaddr as FromStr>::from_str` to parse the text, on
/// `Multiaddr::protocol_stack` to list the tag of each parsed segment, and on
/// `Multiaddr::iter` for the last segment, whose peer id is taken out when it
/// is `Protocol::P2p` (tagged `p2p`).
#[verifier::external_body]
fn parse_multiaddr(text: &str) -> (r: Option<(libp2p::Multiaddr, Vec<String>, Option<Vec<u8>>)>)
    ensures
        r.is_some() == multiaddr_accepts(text@),
        r matches Some(p) ==> {
            &&& p.1@.map_values(|t: String| t@) == multiaddr_tags(text@)
            &&& opt_bytes(p.2) == multiaddr_peer(text@)
            &&& p.2.is_some() == (p.1@.len() > 0 && p.1@.last()@ == "p2p"@)
        },
{
    let addr = libp2p::Multiaddr::from_str(text).ok()?;
    let tags = addr.protocol_stack().map(String::from).collect();
    let peer = match addr.iter().last() {
        Some(libp2p::multiaddr::Protocol::P2p(id)) => Some(id.to_bytes()),
        _ => None,
    };
    Some((addr, tags, peer))
}

/// Character-wise equality of two strings.
pub fn str_eq(a: &str, b: &str) -> (r: bool)
    ensures
        r == (a@ == b@),
{
    let n = a.unicode_len();
    if n != b.unicode_len() {
        return false;
    }
    let mut i: usize = 0;
    while i < n
        invariant
            n == a@.len(),
            n == b@.len(),
            i <= n,
            a@.subrange(0, i as int) == b@.subrange(0, i as int),
        decreases n - i,
    {
        if a.get_char(i) != b.get_char(i) {
            assert(a@[i as int] != b@[i as int]);
            return false;
        }
        assert(a@.subrange(0, i + 1) == a@.subrange(0, i as int).push(a@[i as int]));
        assert(b@.subrange(0, i + 1) == b@.subrange(0, i as int).push(b@[i as int]));
        i = i + 1;
    }
    assert(a@ == a@.subrange(0, n as int));
    assert(b@ == b@.subrange(0, n as int));
    true
}

/// Host segment tags that the websocket transport can dial.
pub open spec fn is_host_tag(t: Seq<char>) -> bool {
    t == "dns4"@ || t == "dns6"@ || t == "dns"@ || t == "ip4"@ || t == "ip6"@
}

/// Socket segment tags: plain (`ws`) or TLS-secured (`wss`) websocket.
pub open spec fn is_socket_tag(t: Seq<char>) -> bool {
    t == "ws"@ || t == "wss"@
}

/// The stacks that the upgrade pipeline's transport dials:
/// host, `tcp`, websocket, and optionally the target peer (`p2p`).
pub open spec fn websocket_stack(tags: Seq<Seq<char>>) -> bool {
    (tags.len() == 3 || (tags.len() == 4 && tags[3] == "p2p"@))
        && is_host_tag(tags[0])
        && tags[1] == "tcp"@
        && is_socket_tag(tags[2])
}

/// Why a dial target was turned down before any network activity.
#[derive(Clone, Copy, Debug, PartialEq, Eq, Structural)]
pub enum AddressError {
    /// The text is not a well-formed multi-segment address.
    Malformed,
    /// The address is well formed, but the transport cannot dial its protocol stack.
    UnsupportedTransport,
}

/// A validated dial target.
pub struct DialTarget {
    /// The address as given.
    pub text: String,
    /// The parsed address, handed to the transport when dialing.
    pub addr: libp2p::Multiaddr,
    /// Whether the websocket runs over TLS (`wss`).
    pub secure: bool,
    /// The binary id of the peer that the address expects to reach (`p2p`).
    pub peer: Option<Vec<u8>>,
}

fn tag_is(t: &String, lit: &str) -> (r: bool)
    ensures
        r == (t@ == lit@),
{
    str_eq(t.as_str(), lit)
}

/// Validates a tag list against the websocket stacks.
pub fn is_websocket_stack(tags: &Vec<String>) -> (r: bool)
    ensures
        r == websocket_stack(tags@.map_values(|t: String| t@)),
{
    let ghost v = tags@.map_values(|t: String| t@);
    if tags.len() != 3 && tags.len() != 4 {
        return false;
    }
    if tags.len() == 4 && !tag_is(&tags[3], "p2p") {
        return false;
    }
    let host = tag_is(&tags[0], "dns4") || tag_is(&tags[0], "dns6") || tag_is(&tags[0], "dns")
        || tag_is(&tags[0], "ip4") || tag_is(&tags[0], "ip6");
    let sock = tag_is(&tags[2], "ws") || tag_is(&tags[2], "wss");
    host && tag_is(&tags[1], "tcp") && sock
}

/// Parses and validates a dial target. Nothing is sent or opened.
pub fn parse_dial_target(text: &str) -> (r: Result<DialTarget, AddressError>)
    ensures
        (r matches Err(AddressError::Malformed)) == !multiaddr_accepts(text@),
        (r matches Err(AddressError::UnsupportedTransport)) == (multiaddr_accepts(text@)
            && !websocket_stack(multiaddr_tags(text@))),
        r matches Ok(t) ==> {
            &&& multiaddr_accepts(text@)
            &&& websocket_stack(multiaddr_tags(text@))
            &&& t.text@ == text@
            &&& t.secure == (multiaddr_tags(text@)[2] == "wss"@)
            &&& t.peer.is_some() == (multiaddr_tags(text@).len() == 4)
            &&& opt_bytes(t.peer) == multiaddr_peer(text@)
        },
{
    match parse_multiaddr(text) {
        None => Err(AddressError::Malformed),
        Some((addr, tags, peer)) => {
            if !is_websocket_stack(&tags) {
                return Err(AddressError::UnsupportedTransport);
            }
            let secure = tag_is(&tags[2], "wss");
            proof {
                reveal_strlit("p2p");
                reveal_strlit("ws");
                reveal_strlit("wss");
                let v = tags@.map_values(|t: String| t@);
                assert(v[v.len() - 1] == tags@.last()@);
                if tags@.len() == 3 {
                    assert(is_socket_tag(v[2]));
                    assert("p2p"@[0] == 'p' && "ws"@[0] == 'w' && "wss"@[0] == 'w');
                    assert(v[2][0] != "p2p"@[0]);
                }
            }
            Ok(DialTarget { text: text.to_string(), addr, secure, peer })
        },
    }
}

} // verus!
