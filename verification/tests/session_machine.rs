use p2p_handshake_eth::errors::P2PError;
use p2p_handshake_eth::message::{PeerMessage, MAX_PAYLOAD_SIZE};
use p2p_handshake_eth::session::{start, step, SessionAction, SessionEvent, SessionState};

#[test]
fn session_starts_by_connecting() {
    let (state, action) = start();
    assert_eq!(state, SessionState::Connecting);
    assert_eq!(action, SessionAction::Connect);
}

#[test]
fn successful_path_reaches_done() {
    let (mut state, mut action) = start();
    assert_eq!(action, SessionAction::Connect);
    let events = vec![
        SessionEvent::Connected,
        SessionEvent::ChannelSecured,
        SessionEvent::HelloSent,
        SessionEvent::FrameReceived(vec![0x80u8]),
        SessionEvent::FrameDecoded(PeerMessage::Hello),
        SessionEvent::DisconnectSent,
    ];
    let mut steps = 0usize;
    for event in events {
        let (next, next_action) = step(state, event);
        state = next;
        action = next_action;
        steps += 1;
    }
    assert_eq!(state, SessionState::Done);
    assert_eq!(action, SessionAction::Stop);
    assert!(steps <= 6);
}

#[test]
fn hello_confirms_and_courtesy_disconnect_is_attempted() {
    let (state, action) = step(
        SessionState::Validating,
        SessionEvent::FrameDecoded(PeerMessage::Hello),
    );
    assert_eq!(state, SessionState::Disconnecting);
    assert_eq!(action, SessionAction::SendDisconnect);
}

#[test]
fn failed_courtesy_disconnect_keeps_the_success() {
    let (state, action) = step(
        SessionState::Disconnecting,
        SessionEvent::DisconnectSendFailed(String::from("broken pipe")),
    );
    assert_eq!(state, SessionState::Done);
    assert_eq!(action, SessionAction::Stop);
    let (state, action) = step(SessionState::Disconnecting, SessionEvent::DisconnectSent);
    assert_eq!(state, SessionState::Done);
    assert_eq!(action, SessionAction::Stop);
}

#[test]
fn peer_disconnect_reason_is_preserved_verbatim() {
    let reason = String::from("too many peers");
    let (state, action) = step(
        SessionState::Validating,
        SessionEvent::FrameDecoded(PeerMessage::Disconnect(reason)),
    );
    assert_eq!(
        state,
        SessionState::Failed(P2PError::PeerDisconnected(String::from("too many peers")))
    );
    assert_eq!(action, SessionAction::Stop);
}

#[test]
fn non_hello_first_message_is_a_protocol_violation() {
    let (state, action) = step(
        SessionState::Validating,
        SessionEvent::FrameDecoded(PeerMessage::Other),
    );
    assert_eq!(state, SessionState::Failed(P2PError::UnexpectedMessage));
    assert_eq!(action, SessionAction::Stop);
}

#[test]
fn undecodable_first_message_fails_with_the_cause() {
    let (state, _) = step(
        SessionState::Validating,
        SessionEvent::FrameDecoded(PeerMessage::DecodeFailure(String::from("input too short"))),
    );
    assert_eq!(
        state,
        SessionState::Failed(P2PError::DecodeError(String::from("input too short")))
    );
}

#[test]
fn connect_timeout_fails_with_timeout() {
    let (state, action) = step(SessionState::Connecting, SessionEvent::ConnectTimedOut);
    assert_eq!(state, SessionState::Failed(P2PError::Timeout));
    assert_eq!(action, SessionAction::Stop);
}

#[test]
fn silent_peer_fails_with_timeout_after_channel_setup() {
    let (state, mut action) = start();
    assert_eq!(action, SessionAction::Connect);
    let (state, next_action) = step(state, SessionEvent::Connected);
    action = next_action;
    assert_eq!(action, SessionAction::SecureChannel);
    let (state, next_action) = step(state, SessionEvent::ChannelSecured);
    action = next_action;
    assert_eq!(action, SessionAction::SendHello);
    let (state, next_action) = step(state, SessionEvent::HelloSent);
    action = next_action;
    assert_eq!(action, SessionAction::AwaitFrame);
    let (state, action) = step(state, SessionEvent::ReadTimedOut);
    assert_eq!(state, SessionState::Failed(P2PError::Timeout));
    assert_eq!(action, SessionAction::Stop);
}

#[test]
fn read_fault_fails_with_io_error() {
    let (state, _) = step(
        SessionState::AwaitingResponse,
        SessionEvent::ReadFailed(String::from("stream error")),
    );
    assert_eq!(
        state,
        SessionState::Failed(P2PError::IOError(String::from("stream error")))
    );
}

#[test]
fn closed_channel_fails_with_no_response() {
    let (state, _) = step(SessionState::AwaitingResponse, SessionEvent::ChannelClosed);
    assert_eq!(state, SessionState::Failed(P2PError::NoResponse));
}

#[test]
fn connect_refusal_fails_with_connection_error() {
    let (state, _) = step(
        SessionState::Connecting,
        SessionEvent::ConnectFailed(String::from("connection refused")),
    );
    assert_eq!(
        state,
        SessionState::Failed(P2PError::ConnectionError(String::from("connection refused")))
    );
}

#[test]
fn channel_negotiation_failure_fails_the_session() {
    let (state, _) = step(
        SessionState::SecuringChannel,
        SessionEvent::ChannelFailed(String::from("invalid ack data")),
    );
    assert_eq!(
        state,
        SessionState::Failed(P2PError::SecureChannelError(String::from("invalid ack data")))
    );
}

#[test]
fn hello_write_failure_fails_with_io_error() {
    let (state, _) = step(
        SessionState::SendingHello,
        SessionEvent::SendFailed(String::from("connection reset")),
    );
    assert_eq!(
        state,
        SessionState::Failed(P2PError::IOError(String::from("connection reset")))
    );
}

#[test]
fn oversized_frame_is_rejected_without_decoding() {
    let frame = vec![0u8; MAX_PAYLOAD_SIZE + 1];
    let (state, action) = step(
        SessionState::AwaitingResponse,
        SessionEvent::FrameReceived(frame),
    );
    assert_eq!(
        state,
        SessionState::Failed(P2PError::MessageTooBig(MAX_PAYLOAD_SIZE + 1))
    );
    assert_eq!(action, SessionAction::Stop);
}

#[test]
fn frame_at_the_size_bound_is_decoded() {
    let frame = vec![0u8; MAX_PAYLOAD_SIZE];
    let (state, action) = step(
        SessionState::AwaitingResponse,
        SessionEvent::FrameReceived(frame.clone()),
    );
    assert_eq!(state, SessionState::Validating);
    assert_eq!(action, SessionAction::DecodeFrame(frame));
}

#[test]
fn terminal_states_absorb_every_event() {
    let (state, action) = step(SessionState::Done, SessionEvent::Connected);
    assert_eq!(state, SessionState::Done);
    assert_eq!(action, SessionAction::Stop);
    let failed = SessionState::Failed(P2PError::Timeout);
    let (state, action) = step(failed.clone(), SessionEvent::ChannelSecured);
    assert_eq!(state, failed);
    assert_eq!(action, SessionAction::Stop);
}
