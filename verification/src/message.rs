//! The messages the core reasons about: the classification of the peer's
//! first frame, and the local capability-advertising Hello payload.

use vstd::prelude::*;

verus! {

/// Maximum accepted size, in bytes, of the first frame received from the
/// peer.  A larger frame is rejected before any decoding is attempted.
pub const MAX_PAYLOAD_SIZE: usize = 16 * 1024 * 1024;

/// What the peer's first post-channel frame decodes to.  The wire codec is
/// an outside collaborator; the driver decodes the frame and reports the
/// result as one of these.  Only `Hello` confirms the handshake; a
/// `Disconnect` keeps the peer's reason verbatim; every other valid message
/// falls into `Other`; bytes that do not parse fall into `DecodeFailure`
/// with the decoder's cause text.
#[derive(Debug, Clone, PartialEq, Eq)]
pub enum PeerMessage {
    Hello,
    Disconnect(String),
    Other,
    DecodeFailure(String),
}

/// One protocol capability advertised in a Hello message: a name and a
/// version.
#[derive(Debug, Clone, PartialEq, Eq)]
pub struct Capability {
    pub name: String,
    pub version: u64,
}

/// The local node's capability-advertising payload, built fresh per session
/// from that session's ephemeral identity.
#[derive(Debug, Clone, PartialEq, Eq)]
pub struct HelloMessage {
    /// Version of the base wire protocol.
    pub protocol_version: u64,
    /// Human-readable client identifier.
    pub client_id: String,
    /// Advertised sub-protocol capabilities.
    pub capabilities: Vec<Capability>,
    /// Advertised listening port; zero when not listening.
    pub port: u16,
    /// The node's 64-byte public identity, derived from the session key.
    pub id: Vec<u8>,
}

/// An owned copy of a byte vector, element for element.
pub fn copy_bytes(v: &Vec<u8>) -> (r: Vec<u8>)
    ensures
        r@ == v@,
{
    let mut r: Vec<u8> = Vec::new();
    let mut i: usize = 0;
    while i < v.len()
        invariant
            i <= v@.len(),
            r@ == v@.subrange(0, i as int),
        decreases v@.len() - i,
    {
        r.push(v[i]);
        assert(v@.subrange(0, i + 1 as int) =~= v@.subrange(0, i as int).push(v@[i as int]));
        i = i + 1;
    }
    assert(r@ =~= v@);
    r
}

impl HelloMessage {
    /// A Hello payload is well-formed when its identity has the 64-byte
    /// length the wire format fixes.
    pub open spec fn wf(self) -> bool {
        self.id@.len() == 64
    }
}

} // verus!
