//! The target of one handshake: a remote node's identity and address, the
//! per-session pairing of a target with the shared deadline, and the local
//! Hello payload built for that session.

use vstd::prelude::*;

use crate::identity::SessionIdentity;
use crate::message::{copy_bytes, Capability, HelloMessage};

verus! {

/// Version of the base wire protocol advertised in the local Hello.
pub const PROTOCOL_VERSION: u64 = 5;

/// Version of the `eth` capability advertised in the local Hello.
pub const ETH_CAPABILITY_VERSION: u64 = 68;

/// A remote node to handshake with: its network address in text form, its
/// TCP port, and its 64-byte public identity.  Read-only input, parsed
/// upstream of the library.
#[derive(Debug, Clone, PartialEq, Eq)]
pub struct TargetPeer {
    /// The node's network address, in the text form it was supplied in.
    pub address: String,
    /// The node's TCP listening port.
    pub tcp_port: u16,
    /// The node's 64-byte public identity.
    pub id: Vec<u8>,
}

/// Everything one session needs: its target peer and the shared deadline
/// in milliseconds.  Built once per peer by the orchestrator; never
/// mutated.
#[derive(Debug, Clone, PartialEq, Eq)]
pub struct NodeConfig {
    /// Deadline in milliseconds for the connect step and for the wait for
    /// the peer's first frame.
    pub timeout: u64,
    /// The peer this session handshakes with.
    pub peer: TargetPeer,
}

impl NodeConfig {
    /// Builds the local Hello payload for one session from that session's
    /// ephemeral identity: the fixed protocol version and capability set,
    /// no listening port, and the identity's 64-byte node id.
    pub fn create_hello_msg(identity: &SessionIdentity) -> (r: HelloMessage)
        requires
            identity.wf(),
        ensures
            r.wf(),
            r.id@ == identity.id_view(),
            r.protocol_version == PROTOCOL_VERSION,
            r.port == 0,
            r.client_id@ == "p2p-handshake-eth"@,
            r.capabilities@.len() == 1,
            r.capabilities@[0].name@ == "eth"@,
            r.capabilities@[0].version == ETH_CAPABILITY_VERSION,
    {
        let mut capabilities: Vec<Capability> = Vec::new();
        capabilities.push(
            Capability { name: String::from_str("eth"), version: ETH_CAPABILITY_VERSION },
        );
        HelloMessage {
            protocol_version: PROTOCOL_VERSION,
            client_id: String::from_str("p2p-handshake-eth"),
            capabilities,
            port: 0,
            id: copy_bytes(identity.peer_id()),
        }
    }
}

} // verus!
