//! The per-peer handshake session, as a state machine.
//!
//! A session owns one connection attempt end to end.  The blocking work —
//! connecting, negotiating the encrypted channel, sending and receiving
//! frames, decoding — is done by a driver outside the library; the machine
//! here makes every decision.  `step` takes the current state and the event
//! the driver observed, and returns the next state together with the action
//! the driver must perform next.  Steps are strictly sequential and never
//! move backwards; `Done` and `Failed` are terminal.

use vstd::prelude::*;

use crate::errors::P2PError;
use crate::message::{PeerMessage, MAX_PAYLOAD_SIZE};

verus! {

/// The states of one handshake session, in the order they are passed
/// through.  `Failed` carries the failure kind of whichever step raised it.
#[derive(Debug, Clone, PartialEq, Eq)]
pub enum SessionState {
    /// Opening the raw connection, bounded by the configured deadline.
    Connecting,
    /// Negotiating the encrypted channel over the raw connection.
    SecuringChannel,
    /// Writing the local Hello frame to the secured channel.
    SendingHello,
    /// Waiting for the peer's first frame, bounded by the deadline.
    AwaitingResponse,
    /// Checking the received frame: size first, then its decoded class.
    Validating,
    /// Sending the courtesy Disconnect after a confirmed handshake.
    Disconnecting,
    /// Terminal: the handshake succeeded.
    Done,
    /// Terminal: the handshake failed with the carried kind.
    Failed(P2PError),
}

/// What the driver observed while performing the last requested action.
#[derive(Debug, Clone, PartialEq, Eq)]
pub enum SessionEvent {
    /// The raw connection is open.
    Connected,
    /// The connect was refused or the peer was unreachable; carries the
    /// reported cause.
    ConnectFailed(String),
    /// The connect did not finish before the deadline.
    ConnectTimedOut,
    /// The encrypted channel is established.
    ChannelSecured,
    /// The channel negotiation failed; carries the reported cause.
    ChannelFailed(String),
    /// The local Hello frame was written.
    HelloSent,
    /// Writing the Hello frame failed; carries the reported cause.
    SendFailed(String),
    /// A first frame arrived; carries its bytes.
    FrameReceived(Vec<u8>),
    /// No frame arrived before the deadline.
    ReadTimedOut,
    /// Reading the first frame failed on the established channel; carries
    /// the reported cause.
    ReadFailed(String),
    /// The channel closed before any frame arrived.
    ChannelClosed,
    /// The requested decode finished; carries the frame's class.
    FrameDecoded(PeerMessage),
    /// The courtesy Disconnect frame was written.
    DisconnectSent,
    /// Writing the courtesy Disconnect failed; carries the reported cause.
    /// This never demotes a confirmed handshake.
    DisconnectSendFailed(String),
}

/// What the driver must do next.  `Stop` means the session is over and its
/// connection is to be released.
#[derive(Debug, Clone, PartialEq, Eq)]
pub enum SessionAction {
    /// Open the raw connection, bounded by the deadline.
    Connect,
    /// Negotiate the encrypted channel with a fresh ephemeral identity.
    SecureChannel,
    /// Encode and write the local Hello message.
    SendHello,
    /// Read the peer's first frame, bounded by the deadline.
    AwaitFrame,
    /// Decode the carried frame bytes with the wire codec.
    DecodeFrame(Vec<u8>),
    /// Encode and write the courtesy Disconnect, best effort.
    SendDisconnect,
    /// Release the connection; the session is over.
    Stop,
}

/// Terminal states: a session in one of these never moves again.
pub open spec fn is_terminal(s: SessionState) -> bool {
    s is Done || s is Failed
}

/// Position of a state in the session's one-way order.  Both terminal
/// states share the final position.
pub open spec fn rank(s: SessionState) -> int {
    match s {
        SessionState::Connecting => 0,
        SessionState::SecuringChannel => 1,
        SessionState::SendingHello => 2,
        SessionState::AwaitingResponse => 3,
        SessionState::Validating => 4,
        SessionState::Disconnecting => 5,
        SessionState::Done => 6,
        SessionState::Failed(_) => 6,
    }
}

/// The events a driver that performed the state's pending action can
/// legitimately report in that state.  No event fits a terminal state.
pub open spec fn fits(s: SessionState, e: SessionEvent) -> bool {
    match s {
        SessionState::Connecting => e is Connected || e is ConnectFailed || e is ConnectTimedOut,
        SessionState::SecuringChannel => e is ChannelSecured || e is ChannelFailed,
        SessionState::SendingHello => e is HelloSent || e is SendFailed,
        SessionState::AwaitingResponse => e is FrameReceived || e is ReadTimedOut
            || e is ReadFailed || e is ChannelClosed,
        SessionState::Validating => e is FrameDecoded,
        SessionState::Disconnecting => e is DisconnectSent || e is DisconnectSendFailed,
        SessionState::Done => false,
        SessionState::Failed(_) => false,
    }
}

/// The whole transition function.  An event that does not fit the state
/// leaves the state unchanged and stops the driver.
pub open spec fn step_spec(s: SessionState, e: SessionEvent) -> (SessionState, SessionAction) {
    match s {
        SessionState::Connecting => match e {
            SessionEvent::Connected => (SessionState::SecuringChannel, SessionAction::SecureChannel),
            SessionEvent::ConnectFailed(cause) => (
                SessionState::Failed(P2PError::ConnectionError(cause)),
                SessionAction::Stop,
            ),
            SessionEvent::ConnectTimedOut => (
                SessionState::Failed(P2PError::Timeout),
                SessionAction::Stop,
            ),
            _ => (SessionState::Connecting, SessionAction::Stop),
        },
        SessionState::SecuringChannel => match e {
            SessionEvent::ChannelSecured => (SessionState::SendingHello, SessionAction::SendHello),
            SessionEvent::ChannelFailed(cause) => (
                SessionState::Failed(P2PError::SecureChannelError(cause)),
                SessionAction::Stop,
            ),
            _ => (SessionState::SecuringChannel, SessionAction::Stop),
        },
        SessionState::SendingHello => match e {
            SessionEvent::HelloSent => (SessionState::AwaitingResponse, SessionAction::AwaitFrame),
            SessionEvent::SendFailed(cause) => (
                SessionState::Failed(P2PError::IOError(cause)),
                SessionAction::Stop,
            ),
            _ => (SessionState::SendingHello, SessionAction::Stop),
        },
        SessionState::AwaitingResponse => match e {
            SessionEvent::FrameReceived(frame) => if frame@.len() > MAX_PAYLOAD_SIZE {
                (
                    SessionState::Failed(P2PError::MessageTooBig(frame@.len() as usize)),
                    SessionAction::Stop,
                )
            } else {
                (SessionState::Validating, SessionAction::DecodeFrame(frame))
            },
            SessionEvent::ReadTimedOut => (
                SessionState::Failed(P2PError::Timeout),
                SessionAction::Stop,
            ),
            SessionEvent::ReadFailed(cause) => (
                SessionState::Failed(P2PError::IOError(cause)),
                SessionAction::Stop,
            ),
            SessionEvent::ChannelClosed => (
                SessionState::Failed(P2PError::NoResponse),
                SessionAction::Stop,
            ),
            _ => (SessionState::AwaitingResponse, SessionAction::Stop),
        },
        SessionState::Validating => match e {
            SessionEvent::FrameDecoded(message) => match message {
                PeerMessage::Hello => (SessionState::Disconnecting, SessionAction::SendDisconnect),
                PeerMessage::Disconnect(reason) => (
                    SessionState::Failed(P2PError::PeerDisconnected(reason)),
                    SessionAction::Stop,
                ),
                PeerMessage::Other => (
                    SessionState::Failed(P2PError::UnexpectedMessage),
                    SessionAction::Stop,
                ),
                PeerMessage::DecodeFailure(cause) => (
                    SessionState::Failed(P2PError::DecodeError(cause)),
                    SessionAction::Stop,
                ),
            },
            _ => (SessionState::Validating, SessionAction::Stop),
        },
        SessionState::Disconnecting => match e {
            SessionEvent::DisconnectSent => (SessionState::Done, SessionAction::Stop),
            SessionEvent::DisconnectSendFailed(_) => (SessionState::Done, SessionAction::Stop),
            _ => (SessionState::Disconnecting, SessionAction::Stop),
        },
        SessionState::Done => (SessionState::Done, SessionAction::Stop),
        SessionState::Failed(err) => (SessionState::Failed(err), SessionAction::Stop),
    }
}

/// A session starts by connecting.
pub fn start() -> (r: (SessionState, SessionAction))
    ensures
        r.0 == SessionState::Connecting,
        r.1 == SessionAction::Connect,
{
    (SessionState::Connecting, SessionAction::Connect)
}

/// Takes one step of the session: from the current state and the driver's
/// observation to the next state and the next action.
pub fn step(state: SessionState, event: SessionEvent) -> (r: (SessionState, SessionAction))
    ensures
        r == step_spec(state, event),
{
    match state {
        SessionState::Connecting => match event {
            SessionEvent::Connected => (
                SessionState::SecuringChannel,
                SessionAction::SecureChannel,
            ),
            SessionEvent::ConnectFailed(cause) => (
                SessionState::Failed(P2PError::ConnectionError(cause)),
                SessionAction::Stop,
            ),
            SessionEvent::ConnectTimedOut => (
                SessionState::Failed(P2PError::Timeout),
                SessionAction::Stop,
            ),
            _ => (SessionState::Connecting, SessionAction::Stop),
        },
        SessionState::SecuringChannel => match event {
            SessionEvent::ChannelSecured => (SessionState::SendingHello, SessionAction::SendHello),
            SessionEvent::ChannelFailed(cause) => (
                SessionState::Failed(P2PError::SecureChannelError(cause)),
                SessionAction::Stop,
            ),
            _ => (SessionState::SecuringChannel, SessionAction::Stop),
        },
        SessionState::SendingHello => match event {
            SessionEvent::HelloSent => (SessionState::AwaitingResponse, SessionAction::AwaitFrame),
            SessionEvent::SendFailed(cause) => (
                SessionState::Failed(P2PError::IOError(cause)),
                SessionAction::Stop,
            ),
            _ => (SessionState::SendingHello, SessionAction::Stop),
        },
        SessionState::AwaitingResponse => match event {
            SessionEvent::FrameReceived(frame) => if frame.len() > MAX_PAYLOAD_SIZE {
                (
                    SessionState::Failed(P2PError::MessageTooBig(frame.len())),
                    SessionAction::Stop,
                )
            } else {
                (SessionState::Validating, SessionAction::DecodeFrame(frame))
            },
            SessionEvent::ReadTimedOut => (
                SessionState::Failed(P2PError::Timeout),
                SessionAction::Stop,
            ),
            SessionEvent::ReadFailed(cause) => (
                SessionState::Failed(P2PError::IOError(cause)),
                SessionAction::Stop,
            ),
            SessionEvent::ChannelClosed => (
                SessionState::Failed(P2PError::NoResponse),
                SessionAction::Stop,
            ),
            _ => (SessionState::AwaitingResponse, SessionAction::Stop),
        },
        SessionState::Validating => match event {
            SessionEvent::FrameDecoded(message) => match message {
                PeerMessage::Hello => (SessionState::Disconnecting, SessionAction::SendDisconnect),
                PeerMessage::Disconnect(reason) => (
                    SessionState::Failed(P2PError::PeerDisconnected(reason)),
                    SessionAction::Stop,
                ),
                PeerMessage::Other => (
                    SessionState::Failed(P2PError::UnexpectedMessage),
                    SessionAction::Stop,
                ),
                PeerMessage::DecodeFailure(cause) => (
                    SessionState::Failed(P2PError::DecodeError(cause)),
                    SessionAction::Stop,
                ),
            },
            _ => (SessionState::Validating, SessionAction::Stop),
        },
        SessionState::Disconnecting => match event {
            SessionEvent::DisconnectSent => (SessionState::Done, SessionAction::Stop),
            SessionEvent::DisconnectSendFailed(_) => (SessionState::Done, SessionAction::Stop),
            _ => (SessionState::Disconnecting, SessionAction::Stop),
        },
        SessionState::Done => (SessionState::Done, SessionAction::Stop),
        SessionState::Failed(err) => (SessionState::Failed(err), SessionAction::Stop),
    }
}

/// The state a session reaches after a sequence of events.
pub open spec fn run_state(s: SessionState, events: Seq<SessionEvent>) -> SessionState
    decreases events.len(),
{
    if events.len() == 0 {
        s
    } else {
        run_state(step_spec(s, events[0]).0, events.drop_first())
    }
}

/// Whether every event of the sequence fits the state it is delivered in.
pub open spec fn fitting_run(s: SessionState, events: Seq<SessionEvent>) -> bool
    decreases events.len(),
{
    events.len() == 0 || (fits(s, events[0]) && fitting_run(
        step_spec(s, events[0]).0,
        events.drop_first(),
    ))
}

/// A session always terminates: every fitting event strictly advances the
/// state's rank and no event fits a terminal state, so no run of fitting
/// events from any state can take more than six steps.  A driver that
/// reports what it observed therefore reaches `Done` or `Failed` after at
/// most six steps and never loops.
pub proof fn lemma_session_terminates(s: SessionState, events: Seq<SessionEvent>)
    requires
        fitting_run(s, events),
    ensures
        events.len() <= 6 - rank(s),
    decreases events.len(),
{
    if events.len() > 0 {
        lemma_step_progress(s, events[0]);
        lemma_session_terminates(step_spec(s, events[0]).0, events.drop_first());
    }
}

/// A decoded Hello is the only confirmation of the handshake: the session
/// then attempts the courtesy Disconnect, and it ends in the successful
/// terminal state whether or not that best-effort send goes through.
pub proof fn lemma_hello_confirms_handshake()
    ensures
        step_spec(SessionState::Validating, SessionEvent::FrameDecoded(PeerMessage::Hello)) == (
            SessionState::Disconnecting,
            SessionAction::SendDisconnect,
        ),
        forall|e: SessionEvent|
            fits(SessionState::Disconnecting, e) ==> step_spec(
                SessionState::Disconnecting,
                e,
            ).0 == SessionState::Done,
{
}

/// A first message that decodes to Disconnect fails the session with the
/// peer's reason preserved verbatim; any other non-Hello class fails it
/// with the matching kind.
pub proof fn lemma_first_message_classified(message: PeerMessage)
    ensures
        message matches PeerMessage::Disconnect(reason) ==> step_spec(
            SessionState::Validating,
            SessionEvent::FrameDecoded(message),
        ) == (SessionState::Failed(P2PError::PeerDisconnected(reason)), SessionAction::Stop),
        message is Other ==> step_spec(
            SessionState::Validating,
            SessionEvent::FrameDecoded(message),
        ) == (SessionState::Failed(P2PError::UnexpectedMessage), SessionAction::Stop),
        message matches PeerMessage::DecodeFailure(cause) ==> step_spec(
            SessionState::Validating,
            SessionEvent::FrameDecoded(message),
        ) == (SessionState::Failed(P2PError::DecodeError(cause)), SessionAction::Stop),
{
}

/// Exceeding the deadline fails the session with `Timeout`, both at the
/// connect step and while waiting for the peer's first frame.
pub proof fn lemma_deadline_exceeded_times_out()
    ensures
        step_spec(SessionState::Connecting, SessionEvent::ConnectTimedOut) == (
            SessionState::Failed(P2PError::Timeout),
            SessionAction::Stop,
        ),
        step_spec(SessionState::AwaitingResponse, SessionEvent::ReadTimedOut) == (
            SessionState::Failed(P2PError::Timeout),
            SessionAction::Stop,
        ),
{
}

/// An oversized first frame is rejected outright: the session fails with
/// `MessageTooBig` carrying the observed size, and the driver is stopped —
/// no `DecodeFrame` action is ever issued for such a frame.
pub proof fn lemma_oversized_frame_never_decoded(frame: Vec<u8>)
    requires
        frame@.len() > MAX_PAYLOAD_SIZE,
    ensures
        step_spec(SessionState::AwaitingResponse, SessionEvent::FrameReceived(frame)) == (
            SessionState::Failed(P2PError::MessageTooBig(frame@.len() as usize)),
            SessionAction::Stop,
        ),
{
}

/// A frame within the size bound is decoded before any judgement: the
/// session asks the driver for exactly one decode of those same bytes.
pub proof fn lemma_sized_frame_decoded(frame: Vec<u8>)
    requires
        frame@.len() <= MAX_PAYLOAD_SIZE,
    ensures
        step_spec(SessionState::AwaitingResponse, SessionEvent::FrameReceived(frame)) == (
            SessionState::Validating,
            SessionAction::DecodeFrame(frame),
        ),
{
}

/// Steps never move backwards; a fitting event in a non-terminal state
/// makes strict progress; an event that does not fit, and any event in a
/// terminal state, leaves the state unchanged and stops the driver.
pub proof fn lemma_step_progress(s: SessionState, e: SessionEvent)
    ensures
        rank(step_spec(s, e).0) >= rank(s),
        fits(s, e) ==> rank(step_spec(s, e).0) > rank(s),
        !fits(s, e) ==> step_spec(s, e) == (s, SessionAction::Stop),
        is_terminal(s) ==> step_spec(s, e) == (s, SessionAction::Stop),
{
}

} // verus!
