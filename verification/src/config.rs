//! The invocation-wide handshake configuration: one deadline, in
//! milliseconds, applied independently to the connect step and to the wait
//! for the peer's first frame.

use vstd::prelude::*;

verus! {

/// Default deadline, in milliseconds, for each bounded handshake step.
pub const HANDSHAKE_TIMEOUT: u64 = 1000;

/// Configuration shared, read-only, by every session of one invocation.
#[derive(Debug, Clone, PartialEq, Eq)]
pub struct HandshakeConfig {
    /// Deadline in milliseconds for the connect step and for the wait for
    /// the peer's first frame; zero stands for "unspecified".
    pub timeout: u64,
}

impl HandshakeConfig {
    /// The deadline a session actually runs under: the configured value,
    /// or the default where none was given.
    pub open spec fn effective_timeout_spec(self) -> u64 {
        if self.timeout == 0 {
            HANDSHAKE_TIMEOUT
        } else {
            self.timeout
        }
    }

    /// Returns the deadline a session runs under; always positive.
    pub fn effective_timeout(&self) -> (t: u64)
        ensures
            t == self.effective_timeout_spec(),
            t > 0,
    {
        if self.timeout == 0 {
            HANDSHAKE_TIMEOUT
        } else {
            self.timeout
        }
    }
}

} // verus!
