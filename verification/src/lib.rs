//! Verified core of a peer-to-peer wire-protocol handshake tool.
//!
//! The library owns the logic of the handshake: the per-peer session state
//! machine, the validation of the peer's first message, the closed error
//! taxonomy, and the orchestration bookkeeping that turns one terminal
//! session state per peer into one outcome per peer.  Network transport,
//! the encrypted-channel negotiation and the binary wire codec are outside
//! collaborators: a driver performs them and feeds their results back into
//! the state machine as events.

pub mod config;
pub mod errors;
pub mod identity;
pub mod message;
pub mod node;
pub mod orchestrator;
pub mod session;
