//! The error model: a closed taxonomy of handshake failure kinds, and the
//! per-peer failure record that attributes a kind to a peer address.

use vstd::prelude::*;

verus! {

/// Every way a handshake session can fail.  Each layer of the session maps
/// its faults into exactly one of these kinds; nothing else escapes a
/// session.  Variants carry the operator-facing context they need: a cause
/// string where an outside fault was reported in words, the observed size
/// for an oversized frame, and the peer's verbatim reason for a disconnect.
#[derive(Debug, Clone, PartialEq, Eq)]
pub enum P2PError {
    /// TCP-level connect failure (refused, unreachable).
    ConnectionError(String),
    /// The connect step or the wait for the first frame exceeded the deadline.
    Timeout,
    /// The encrypted-channel negotiation failed (identity or crypto fault).
    SecureChannelError(String),
    /// A read or write fault on an established channel.
    IOError(String),
    /// The channel closed before any frame arrived.
    NoResponse,
    /// The first frame exceeded the maximum payload size; carries the
    /// observed byte length.
    MessageTooBig(usize),
    /// The first frame's bytes do not parse as a valid message.
    DecodeError(String),
    /// The peer's first message was a Disconnect; the reason is preserved
    /// verbatim.
    PeerDisconnected(String),
    /// The peer's first message was neither Hello nor Disconnect.
    UnexpectedMessage,
    /// The concurrency runtime failed to run a session to completion.
    TaskFault(String),
}

/// The operator-facing text for a failure kind: a fixed phrase per kind,
/// followed by the carried cause or reason where the kind has one.
pub open spec fn error_text_spec(err: P2PError) -> Seq<char> {
    match err {
        P2PError::ConnectionError(cause) => "connection error: "@ + cause@,
        P2PError::Timeout => "timed out"@,
        P2PError::SecureChannelError(cause) => "secure channel error: "@ + cause@,
        P2PError::IOError(cause) => "io error: "@ + cause@,
        P2PError::NoResponse => "no response from peer"@,
        P2PError::MessageTooBig(_) => "message too big"@,
        P2PError::DecodeError(cause) => "decode error: "@ + cause@,
        P2PError::PeerDisconnected(reason) => "disconnected by peer: "@ + reason@,
        P2PError::UnexpectedMessage => "unexpected message"@,
        P2PError::TaskFault(cause) => "task fault: "@ + cause@,
    }
}

/// Builds the operator-facing text for a failure kind.
pub fn error_text(err: &P2PError) -> (r: String)
    ensures
        r@ == error_text_spec(*err),
{
    match err {
        P2PError::ConnectionError(cause) => String::from_str("connection error: ").concat(
            cause.as_str(),
        ),
        P2PError::Timeout => String::from_str("timed out"),
        P2PError::SecureChannelError(cause) => String::from_str("secure channel error: ").concat(
            cause.as_str(),
        ),
        P2PError::IOError(cause) => String::from_str("io error: ").concat(cause.as_str()),
        P2PError::NoResponse => String::from_str("no response from peer"),
        P2PError::MessageTooBig(_) => String::from_str("message too big"),
        P2PError::DecodeError(cause) => String::from_str("decode error: ").concat(cause.as_str()),
        P2PError::PeerDisconnected(reason) => String::from_str("disconnected by peer: ").concat(
            reason.as_str(),
        ),
        P2PError::UnexpectedMessage => String::from_str("unexpected message"),
        P2PError::TaskFault(cause) => String::from_str("task fault: ").concat(cause.as_str()),
    }
}

/// A failure attributed to one peer: the failure kind's text and the peer's
/// address, kept together for reporting.
#[derive(Debug, Clone, PartialEq, Eq)]
pub struct P2PHandshakeErr {
    message: String,
    address: String,
}

impl P2PHandshakeErr {
    /// The stored failure text.
    pub closed spec fn message_view(self) -> Seq<char> {
        self.message@
    }

    /// The stored peer address.
    pub closed spec fn address_view(self) -> Seq<char> {
        self.address@
    }

    /// Attributes a failure kind to a peer address.
    pub fn new(err: P2PError, address: String) -> (r: P2PHandshakeErr)
        ensures
            r.message_view() == error_text_spec(err),
            r.address_view() == address@,
    {
        P2PHandshakeErr { message: error_text(&err), address }
    }

    /// The failure text.
    pub fn message(&self) -> (r: &String)
        ensures
            r@ == self.message_view(),
    {
        &self.message
    }

    /// The peer address the failure is attributed to.
    pub fn address(&self) -> (r: &String)
        ensures
            r@ == self.address_view(),
    {
        &self.address
    }

    /// One report line: the address, then the failure text.
    pub fn text(&self) -> (r: String)
        ensures
            r@ == "[failed] ["@ + self.address_view() + "] error: "@ + self.message_view(),
    {
        String::from_str("[failed] [").concat(self.address.as_str()).concat("] error: ").concat(
            self.message.as_str(),
        )
    }
}

} // verus!
