use p2p_handshake_eth::config::HandshakeConfig;
use p2p_handshake_eth::errors::P2PError;
use p2p_handshake_eth::message::PeerMessage;
use p2p_handshake_eth::node::TargetPeer;
use p2p_handshake_eth::orchestrator::{
    aggregate_outcomes, outcome_of, plan_sessions, HandshakeOutcome, SessionReport,
};
use p2p_handshake_eth::session::{start, step, SessionEvent, SessionState};

fn peer(address: &str, port: u16) -> TargetPeer {
    TargetPeer {
        address: String::from(address),
        tcp_port: port,
        id: vec![7u8; 64],
    }
}

/// Drives one session's state machine over the given events and returns
/// its terminal state, as a driver would.
fn run_session(events: Vec<SessionEvent>) -> SessionState {
    let (mut state, _) = start();
    for event in events {
        let (next, _) = step(state, event);
        state = next;
    }
    state
}

#[test]
fn one_plan_per_peer_under_the_shared_deadline() {
    let config = HandshakeConfig { timeout: 500 };
    let peers = vec![peer("10.0.0.1", 30303), peer("10.0.0.2", 30304), peer("10.0.0.3", 30305)];
    let plans = plan_sessions(&config, peers.clone());
    assert_eq!(plans.len(), peers.len());
    for (plan, requested) in plans.iter().zip(peers.iter()) {
        assert_eq!(plan.timeout, 500);
        assert_eq!(&plan.peer, requested);
    }
}

#[test]
fn zero_timeout_falls_back_to_the_default() {
    let config = HandshakeConfig { timeout: 0 };
    assert_eq!(config.effective_timeout(), 1000);
    let plans = plan_sessions(&config, vec![peer("10.0.0.1", 30303)]);
    assert_eq!(plans[0].timeout, 1000);
    let config = HandshakeConfig { timeout: 250 };
    assert_eq!(config.effective_timeout(), 250);
}

#[test]
fn empty_peer_list_yields_no_outcomes() {
    let config = HandshakeConfig { timeout: 500 };
    let plans = plan_sessions(&config, Vec::new());
    assert!(plans.is_empty());
    let outcomes = aggregate_outcomes(Vec::new());
    assert!(outcomes.is_empty());
}

#[test]
fn outcome_count_equals_peer_count_matched_by_identity() {
    let reports = vec![
        SessionReport { address: String::from("10.0.0.1"), terminal: SessionState::Done },
        SessionReport {
            address: String::from("10.0.0.2"),
            terminal: SessionState::Failed(P2PError::Timeout),
        },
        SessionReport { address: String::from("10.0.0.3"), terminal: SessionState::Done },
    ];
    let outcomes = aggregate_outcomes(reports);
    assert_eq!(outcomes.len(), 3);
    assert_eq!(outcomes[0], HandshakeOutcome::Success(String::from("10.0.0.1")));
    assert_eq!(
        outcomes[1],
        HandshakeOutcome::Failure(String::from("10.0.0.2"), P2PError::Timeout)
    );
    assert_eq!(outcomes[2], HandshakeOutcome::Success(String::from("10.0.0.3")));
}

#[test]
fn one_failing_peer_leaves_the_other_four_untouched() {
    let all_good: Vec<SessionReport> = (1..=5)
        .map(|i| SessionReport {
            address: format!("10.0.0.{}", i),
            terminal: SessionState::Done,
        })
        .collect();
    let mut one_bad = all_good.clone();
    one_bad[2] = SessionReport {
        address: String::from("10.0.0.3"),
        terminal: SessionState::Failed(P2PError::ConnectionError(String::from(
            "connection refused",
        ))),
    };
    let good_outcomes = aggregate_outcomes(all_good);
    let mixed_outcomes = aggregate_outcomes(one_bad);
    assert_eq!(good_outcomes.len(), 5);
    assert_eq!(mixed_outcomes.len(), 5);
    for i in [0usize, 1, 3, 4] {
        assert_eq!(good_outcomes[i], mixed_outcomes[i]);
    }
    assert_eq!(
        mixed_outcomes[2],
        HandshakeOutcome::Failure(
            String::from("10.0.0.3"),
            P2PError::ConnectionError(String::from("connection refused"))
        )
    );
}

#[test]
fn task_fault_surfaces_as_that_peer_failure() {
    let outcome = outcome_of(
        String::from("10.0.0.9"),
        SessionState::Failed(P2PError::TaskFault(String::from("task panicked"))),
    );
    assert_eq!(
        outcome,
        HandshakeOutcome::Failure(
            String::from("10.0.0.9"),
            P2PError::TaskFault(String::from("task panicked"))
        )
    );
}

#[test]
fn mixed_scenario_hello_disconnect_and_connect_timeout() {
    // Peer A answers Hello, peer B disconnects with a reason, peer C never
    // finishes its connect within the deadline.
    let terminal_a = run_session(vec![
        SessionEvent::Connected,
        SessionEvent::ChannelSecured,
        SessionEvent::HelloSent,
        SessionEvent::FrameReceived(vec![0x80u8]),
        SessionEvent::FrameDecoded(PeerMessage::Hello),
        SessionEvent::DisconnectSent,
    ]);
    let terminal_b = run_session(vec![
        SessionEvent::Connected,
        SessionEvent::ChannelSecured,
        SessionEvent::HelloSent,
        SessionEvent::FrameReceived(vec![0x80u8]),
        SessionEvent::FrameDecoded(PeerMessage::Disconnect(String::from("too many peers"))),
    ]);
    let terminal_c = run_session(vec![SessionEvent::ConnectTimedOut]);

    let reports = vec![
        SessionReport { address: String::from("peer-a"), terminal: terminal_a },
        SessionReport { address: String::from("peer-b"), terminal: terminal_b },
        SessionReport { address: String::from("peer-c"), terminal: terminal_c },
    ];
    let outcomes = aggregate_outcomes(reports);
    assert_eq!(outcomes.len(), 3);
    assert_eq!(outcomes[0], HandshakeOutcome::Success(String::from("peer-a")));
    assert_eq!(
        outcomes[1],
        HandshakeOutcome::Failure(
            String::from("peer-b"),
            P2PError::PeerDisconnected(String::from("too many peers"))
        )
    );
    assert_eq!(
        outcomes[2],
        HandshakeOutcome::Failure(String::from("peer-c"), P2PError::Timeout)
    );
}
