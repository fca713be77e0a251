//! Peer identity: the derivation of a peer id from a public key, the local
//! identity, and the check of what a remote reports in the identify exchange.
use vstd::prelude::*;

verus! {

/// The protocol name announced in the identify exchange.
pub const PROTOCOL_NAME: &'static str = "/fluence/particle/2.0.0";

/// Whether the bytes are the protobuf encoding of a public key of a supported kind.
pub uninterp spec fn key_decodes(encoded_key: Seq<u8>) -> bool;

/// The binary peer id derived from a protobuf-encoded public key.
pub uninterp spec fn peer_id_of_key(encoded_key: Seq<u8>) -> Seq<u8>;

/// Relies on `PublicKey::try_decode_protobuf` to decode the key, and on
/// `PeerId::from_public_key` with `PeerId::to_bytes` for its binary peer id.
#[verifier::external_body]
fn derive_peer_id(encoded_key: &[u8]) -> (r: Option<Vec<u8>>)
    ensures
        r.is_some() == key_decodes(encoded_key@),
        r matches Some(id) ==> id@ == peer_id_of_key(encoded_key@),
{
    let key = libp2p::identity::PublicKey::try_decode_protobuf(encoded_key).ok()?;
    Some(libp2p::PeerId::from_public_key(&key).to_bytes())
}

/// The local endpoint's identity: a public key and the peer id derived from it.
/// The private half of the key pair stays with the host.
pub struct Identity {
    public_key: Vec<u8>,
    peer_id: Vec<u8>,
}

impl Identity {
    /// The peer id belongs to the public key.
    pub open spec fn wf(&self) -> bool {
        self.id() == peer_id_of_key(self.key())
    }

    pub closed spec fn key(&self) -> Seq<u8> {
        self.public_key@
    }

    pub closed spec fn id(&self) -> Seq<u8> {
        self.peer_id@
    }

    /// Builds the identity of a protobuf-encoded public key; `None` when the
    /// key does not decode.
    pub fn from_public_key(encoded_key: Vec<u8>) -> (r: Option<Identity>)
        ensures
            r.is_some() == key_decodes(encoded_key@),
            r matches Some(id) ==> id.wf() && id.key() == encoded_key@,
    {
        match derive_peer_id(encoded_key.as_slice()) {
            Some(peer_id) => Some(Identity { public_key: encoded_key, peer_id }),
            None => None,
        }
    }

    pub fn public_key(&self) -> (r: &Vec<u8>)
        ensures
            r@ == self.key(),
    {
        &self.public_key
    }

    pub fn peer_id(&self) -> (r: &Vec<u8>)
        ensures
            r@ == self.id(),
    {
        &self.peer_id
    }
}

/// What a remote peer reports about itself in the identify exchange.
#[derive(Debug)]
pub struct RemotePeerInfo {
    pub peer_id: Vec<u8>,
    /// Protobuf encoding of the remote's public key.
    pub public_key: Vec<u8>,
    pub protocol_version: String,
    pub agent_version: String,
    pub listen_addrs: Vec<String>,
}

/// The verdict on a received identify payload.
#[derive(Clone, Copy, Debug, PartialEq, Eq, Structural)]
pub enum IdentifyVerdict {
    /// The peer id is the one derived from the carried public key.
    Accepted,
    /// The carried public key does not decode.
    UndecodableKey,
    /// The peer id differs from the one derived from the carried public key.
    PeerMismatch,
}

/// The verdict for a payload whose key derives `derived` (`None`: the key
/// does not decode) and which claims the peer id `claimed`.
pub open spec fn verdict(derived: Option<Seq<u8>>, claimed: Seq<u8>) -> IdentifyVerdict {
    match derived {
        None => IdentifyVerdict::UndecodableKey,
        Some(d) => if d == claimed {
            IdentifyVerdict::Accepted
        } else {
            IdentifyVerdict::PeerMismatch
        },
    }
}

/// The peer id derived from the key, or `None` when it does not decode.
pub open spec fn derived_id(encoded_key: Seq<u8>) -> Option<Seq<u8>> {
    if key_decodes(encoded_key) {
        Some(peer_id_of_key(encoded_key))
    } else {
        None
    }
}

/// The verdict on an identify payload.
pub open spec fn identify_verdict(info: RemotePeerInfo) -> IdentifyVerdict {
    verdict(derived_id(info.public_key@), info.peer_id@)
}

/// Judges a payload given the peer id derived from its key.
pub fn judge_identify(derived: &Option<Vec<u8>>, claimed: &Vec<u8>) -> (r: IdentifyVerdict)
    ensures
        r == verdict(
            match derived {
                Some(d) => Some(d@),
                None => None,
            },
            claimed@,
        ),
{
    match derived {
        None => IdentifyVerdict::UndecodableKey,
        Some(d) => {
            if bytes_eq(d, claimed) {
                IdentifyVerdict::Accepted
            } else {
                IdentifyVerdict::PeerMismatch
            }
        },
    }
}

/// Derives the peer id from the payload's key and judges the payload.
pub fn check_identify(info: &RemotePeerInfo) -> (r: IdentifyVerdict)
    ensures
        r == identify_verdict(*info),
{
    let derived = derive_peer_id(info.public_key.as_slice());
    judge_identify(&derived, &info.peer_id)
}

/// Byte-wise equality.
pub fn bytes_eq(a: &Vec<u8>, b: &Vec<u8>) -> (r: bool)
    ensures
        r == (a@ == b@),
{
    if a.len() != b.len() {
        return false;
    }
    let mut i: usize = 0;
    while i < a.len()
        invariant
            a@.len() == b@.len(),
            i <= a@.len(),
            a@.subrange(0, i as int) == b@.subrange(0, i as int),
        decreases a@.len() - i,
    {
        if a[i] != b[i] {
            assert(a@[i as int] != b@[i as int]);
            return false;
        }
        assert(a@.subrange(0, i + 1) == a@.subrange(0, i as int).push(a@[i as int]));
        assert(b@.subrange(0, i + 1) == b@.subrange(0, i as int).push(b@[i as int]));
        i = i + 1;
    }
    assert(a@ == a@.subrange(0, a@.len() as int));
    assert(b@ == b@.subrange(0, b@.len() as int));
    true
}

} // verus!
