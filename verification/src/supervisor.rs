//! The reverse-proxy supervisor's accept loop.
//!
//! The supervisor owns the overlay listener.  Every accepted stream is
//! handed to an independent admission task; an `accept` error makes the
//! supervisor re-bind the listener against the same session, and only a
//! failed re-bind is fatal.  Per-connection failures never reach the
//! supervisor, which the trace law at the end pins down: a supervisor
//! that never sees a failed re-bind is still accepting after any finite
//! number of per-connection failures.

use vstd::prelude::*;

verus! {

/// The supervisor's states.
#[derive(Clone, Copy, Debug, PartialEq, Eq, Structural)]
pub enum SupervisorState {
    /// Waiting on `accept`.
    Accepting,
    /// An `accept` error occurred; the listener is being re-bound.
    Rebinding,
    /// Re-binding failed; the supervisor exits with a fatal error.
    Fatal,
}

/// What the supervisor observed.
#[derive(Clone, Copy, Debug, PartialEq, Eq, Structural)]
pub enum SupervisorEvent {
    /// `accept` returned a stream.
    ConnectionAccepted,
    /// A spawned admission task ended, well or badly; the supervisor
    /// only logs it.
    TaskEnded,
    /// `accept` returned an error.
    AcceptFailed,
    /// The listener was re-bound against the same session.
    RebindSucceeded,
    /// The listener could not be re-bound.
    RebindFailed,
}

/// What the supervisor must do after a step.
#[derive(Clone, Copy, Debug, PartialEq, Eq, Structural)]
pub enum SupervisorAction {
    /// Spawn an independent admission task for the accepted stream.
    SpawnHandler,
    /// Re-bind the listener against the same session.
    RebindListener,
    /// Keep accepting.
    KeepAccepting,
    /// Exit with a fatal error.
    Exit,
}

/// The supervisor's transition relation.
pub open spec fn supervisor_next(s: SupervisorState, e: SupervisorEvent) -> (
    SupervisorState,
    SupervisorAction,
) {
    match (s, e) {
        (SupervisorState::Accepting, SupervisorEvent::ConnectionAccepted) => (
            SupervisorState::Accepting,
            SupervisorAction::SpawnHandler,
        ),
        (SupervisorState::Accepting, SupervisorEvent::TaskEnded) => (
            SupervisorState::Accepting,
            SupervisorAction::KeepAccepting,
        ),
        (SupervisorState::Accepting, SupervisorEvent::AcceptFailed) => (
            SupervisorState::Rebinding,
            SupervisorAction::RebindListener,
        ),
        (SupervisorState::Rebinding, SupervisorEvent::RebindSucceeded) => (
            SupervisorState::Accepting,
            SupervisorAction::KeepAccepting,
        ),
        (SupervisorState::Rebinding, SupervisorEvent::RebindFailed) => (
            SupervisorState::Fatal,
            SupervisorAction::Exit,
        ),
        (SupervisorState::Fatal, _) => (SupervisorState::Fatal, SupervisorAction::Exit),
        // An event a state does not expect changes nothing.
        (_, _) => (s, SupervisorAction::KeepAccepting),
    }
}

/// Step the supervisor once.
pub fn supervisor_advance(s: SupervisorState, e: SupervisorEvent) -> (r: (
    SupervisorState,
    SupervisorAction,
))
    ensures
        r == supervisor_next(s, e),
{
    match (s, e) {
        (SupervisorState::Accepting, SupervisorEvent::ConnectionAccepted) => (
            SupervisorState::Accepting,
            SupervisorAction::SpawnHandler,
        ),
        (SupervisorState::Accepting, SupervisorEvent::TaskEnded) => (
            SupervisorState::Accepting,
            SupervisorAction::KeepAccepting,
        ),
        (SupervisorState::Accepting, SupervisorEvent::AcceptFailed) => (
            SupervisorState::Rebinding,
            SupervisorAction::RebindListener,
        ),
        (SupervisorState::Rebinding, SupervisorEvent::RebindSucceeded) => (
            SupervisorState::Accepting,
            SupervisorAction::KeepAccepting,
        ),
        (SupervisorState::Rebinding, SupervisorEvent::RebindFailed) => (
            SupervisorState::Fatal,
            SupervisorAction::Exit,
        ),
        (SupervisorState::Fatal, _) => (SupervisorState::Fatal, SupervisorAction::Exit),
        (_, _) => (s, SupervisorAction::KeepAccepting),
    }
}

/// Run the supervisor over a whole event sequence.
pub open spec fn supervisor_run(s: SupervisorState, es: Seq<SupervisorEvent>) -> SupervisorState
    decreases es.len(),
{
    if es.len() == 0 {
        s
    } else {
        supervisor_run(supervisor_next(s, es[0]).0, es.skip(1))
    }
}

/// Law: the supervisor survives every per-connection failure.  Over any
/// finite event sequence in which no re-bind fails, a supervisor that
/// started accepting is still accepting or re-binding — never fatal —
/// however many tasks ended badly or accepts failed along the way.
pub proof fn lemma_supervisor_keeps_accepting(s: SupervisorState, es: Seq<SupervisorEvent>)
    requires
        s != SupervisorState::Fatal,
        forall|i: int| 0 <= i < es.len() ==> es[i] != SupervisorEvent::RebindFailed,
    ensures
        supervisor_run(s, es) != SupervisorState::Fatal,
    decreases es.len(),
{
    if es.len() > 0 {
        let s1 = supervisor_next(s, es[0]).0;
        assert(es[0] != SupervisorEvent::RebindFailed);
        assert(s1 != SupervisorState::Fatal);
        assert(forall|i: int|
            0 <= i < es.skip(1).len() ==> es.skip(1)[i] != SupervisorEvent::RebindFailed) by {
            assert(forall|i: int| 0 <= i < es.skip(1).len() ==> es.skip(1)[i] == es[i + 1]);
        }
        lemma_supervisor_keeps_accepting(s1, es.skip(1));
    }
}

} // verus!
