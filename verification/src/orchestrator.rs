//! The orchestration bookkeeping: one session plan per requested peer, and
//! one outcome per finished session.
//!
//! The concurrent launching itself is the driver's: it runs one session
//! per plan, in any order and genuinely in parallel, and brings back one
//! terminal report per session.  The functions here pin down everything
//! that is not scheduling: every peer gets exactly one plan with the
//! shared deadline, every report yields exactly one outcome attributed to
//! its own peer, and no peer's outcome depends on how the others fared.

use vstd::prelude::*;

use crate::config::HandshakeConfig;
use crate::errors::P2PError;
use crate::message::PeerMessage;
use crate::node::{NodeConfig, TargetPeer};
use crate::session::{fits, is_terminal, step_spec, SessionAction, SessionEvent, SessionState};

verus! {

/// The terminal result of one peer's handshake: its address, and on
/// failure the failure kind.
#[derive(Debug, Clone, PartialEq, Eq)]
pub enum HandshakeOutcome {
    Success(String),
    Failure(String, P2PError),
}

impl HandshakeOutcome {
    /// The address of the peer the outcome belongs to.
    pub open spec fn address_view(self) -> Seq<char> {
        match self {
            HandshakeOutcome::Success(address) => address@,
            HandshakeOutcome::Failure(address, _) => address@,
        }
    }

    /// Whether the handshake succeeded.
    pub open spec fn is_success(self) -> bool {
        self is Success
    }
}

/// What one finished session hands back: the peer's address and the
/// terminal state its state machine ended in.  A fault of the concurrency
/// runtime is reported the same way, as `Failed(TaskFault)`.
#[derive(Debug, Clone, PartialEq, Eq)]
pub struct SessionReport {
    pub address: String,
    pub terminal: SessionState,
}

/// The outcome a terminal state yields for a peer: success for `Done`, the
/// carried failure kind for `Failed`.  Meaningful for terminal states
/// only.
pub open spec fn outcome_spec(address: String, terminal: SessionState) -> HandshakeOutcome
    recommends
        is_terminal(terminal),
{
    match terminal {
        SessionState::Failed(err) => HandshakeOutcome::Failure(address, err),
        _ => HandshakeOutcome::Success(address),
    }
}

/// The outcome list a report list yields, report by report.
pub open spec fn outcomes_spec(reports: Seq<SessionReport>) -> Seq<HandshakeOutcome> {
    reports.map_values(|r: SessionReport| outcome_spec(r.address, r.terminal))
}

/// Turns one session's terminal state into that peer's outcome.
pub fn outcome_of(address: String, terminal: SessionState) -> (r: HandshakeOutcome)
    requires
        is_terminal(terminal),
    ensures
        r == outcome_spec(address, terminal),
        r.address_view() == address@,
        r.is_success() <==> terminal is Done,
{
    match terminal {
        SessionState::Done => HandshakeOutcome::Success(address),
        SessionState::Failed(err) => HandshakeOutcome::Failure(address, err),
        _ => unreached(),
    }
}

/// Pairs every requested peer with the shared deadline: one plan per peer,
/// in the order requested, no peer dropped, none invented, all under the
/// same effective timeout.
pub fn plan_sessions(config: &HandshakeConfig, peers: Vec<TargetPeer>) -> (plans: Vec<NodeConfig>)
    ensures
        plans@.len() == peers@.len(),
        forall|i: int|
            0 <= i < peers@.len() ==> #[trigger] plans@[i] == (NodeConfig {
                timeout: config.effective_timeout_spec(),
                peer: peers@[i],
            }),
{
    let ghost original = peers@;
    let mut remaining = peers;
    let mut plans: Vec<NodeConfig> = Vec::new();
    while remaining.len() > 0
        invariant
            plans@.len() + remaining@.len() == original.len(),
            remaining@ == original.skip(plans@.len() as int),
            forall|i: int|
                0 <= i < plans@.len() ==> #[trigger] plans@[i] == (NodeConfig {
                    timeout: config.effective_timeout_spec(),
                    peer: original[i],
                }),
        decreases remaining@.len(),
    {
        let ghost done = plans@.len() as int;
        let peer = remaining.remove(0);
        assert(peer == original[done]);
        plans.push(NodeConfig { timeout: config.effective_timeout(), peer });
        assert(original.skip(done).drop_first() =~= original.skip(done + 1));
    }
    plans
}

/// Joins the finished sessions: one outcome per report, each attributed to
/// that report's own peer, success exactly where the session ended `Done`.
pub fn aggregate_outcomes(reports: Vec<SessionReport>) -> (out: Vec<HandshakeOutcome>)
    requires
        forall|i: int| 0 <= i < reports@.len() ==> is_terminal(#[trigger] reports@[i].terminal),
    ensures
        out@ == outcomes_spec(reports@),
        out@.len() == reports@.len(),
        forall|i: int|
            0 <= i < reports@.len() ==> #[trigger] out@[i] == outcome_spec(
                reports@[i].address,
                reports@[i].terminal,
            ),
{
    let ghost original = reports@;
    let mut remaining = reports;
    let mut out: Vec<HandshakeOutcome> = Vec::new();
    while remaining.len() > 0
        invariant
            out@.len() + remaining@.len() == original.len(),
            remaining@ == original.skip(out@.len() as int),
            forall|i: int| 0 <= i < original.len() ==> is_terminal(#[trigger] original[i].terminal),
            forall|i: int|
                0 <= i < out@.len() ==> #[trigger] out@[i] == outcome_spec(
                    original[i].address,
                    original[i].terminal,
                ),
        decreases remaining@.len(),
    {
        let ghost done = out@.len() as int;
        let report = remaining.remove(0);
        assert(report == original[done]);
        out.push(outcome_of(report.address, report.terminal));
        assert(original.skip(done).drop_first() =~= original.skip(done + 1));
    }
    assert(out@ =~= outcomes_spec(original));
    out
}

/// One outcome per requested peer, matched by peer identity: the outcome
/// list is as long as the report list, and the outcome at every position
/// carries the address of the report at that position.
pub proof fn lemma_outcomes_match_reports(reports: Seq<SessionReport>)
    ensures
        outcomes_spec(reports).len() == reports.len(),
        forall|i: int|
            0 <= i < reports.len() ==> #[trigger] outcomes_spec(reports)[i].address_view()
                == reports[i].address@,
{
    assert forall|i: int| 0 <= i < reports.len() implies #[trigger] outcomes_spec(
        reports,
    )[i].address_view() == reports[i].address@ by {
        assert(outcomes_spec(reports)[i] == outcome_spec(reports[i].address, reports[i].terminal));
    }
}

/// A peer whose first message decoded to Hello ends successful: the
/// machine orders the courtesy Disconnect, the session then reaches `Done`
/// whichever way that best-effort send goes, and a `Done` session yields
/// `Success` with that peer's own address.
pub proof fn lemma_hello_peer_succeeds(address: String, closing: SessionEvent)
    requires
        fits(SessionState::Disconnecting, closing),
    ensures
        ({
            let after_hello = step_spec(
                SessionState::Validating,
                SessionEvent::FrameDecoded(PeerMessage::Hello),
            );
            after_hello.1 == SessionAction::SendDisconnect && outcome_spec(
                address,
                step_spec(after_hello.0, closing).0,
            ) == HandshakeOutcome::Success(address)
        }),
{
}

/// A peer whose first message decoded to Disconnect ends failed, and its
/// outcome carries the peer's reason verbatim.
pub proof fn lemma_disconnect_reason_in_outcome(address: String, reason: String)
    ensures
        outcome_spec(
            address,
            step_spec(
                SessionState::Validating,
                SessionEvent::FrameDecoded(PeerMessage::Disconnect(reason)),
            ).0,
        ) == HandshakeOutcome::Failure(address, P2PError::PeerDisconnected(reason)),
{
}

/// Sibling independence: a peer's outcome is a function of that peer's own
/// report alone.  Two invocations whose report lists agree at one position
/// agree on that position's outcome, however every other peer fared.
pub proof fn lemma_outcome_independence(a: Seq<SessionReport>, b: Seq<SessionReport>, j: int)
    requires
        0 <= j < a.len(),
        0 <= j < b.len(),
        a[j] == b[j],
    ensures
        outcomes_spec(a)[j] == outcomes_spec(b)[j],
{
    assert(outcomes_spec(a)[j] == outcome_spec(a[j].address, a[j].terminal));
    assert(outcomes_spec(b)[j] == outcome_spec(b[j].address, b[j].terminal));
}

} // verus!
