//! The bidirectional splice.
//!
//! After admission, the adapted overlay stream and the freshly dialed
//! backend stream are copied into each other by two independent
//! directions: `overlay → backend` and `backend → overlay`.  Each
//! direction is a small state machine over plain copy events; the
//! process that owns the sockets performs the reads, writes and
//! shutdowns that the machine's actions name.  The half-close rule —
//! end of input on one side shuts down the write half of the other —
//! holds of the machine by construction, and the splice as a whole
//! completes only when both directions have ended.

use vstd::prelude::*;

verus! {

/// One copy direction of the splice.
#[derive(Clone, Copy, Debug, PartialEq, Eq, Structural)]
pub enum CopyState {
    /// Reading from the source and writing to the destination.
    Streaming,
    /// The source reached end of input and the destination's write half
    /// was ordered shut; the direction is over.
    ShutdownSent,
    /// An I/O error ended this direction; the other one continues.
    Failed,
}

/// What one copy step of a direction reported.
#[derive(Clone, Copy, Debug, PartialEq, Eq, Structural)]
pub enum CopyEvent {
    /// A chunk was read and written whole.
    Copied,
    /// The source reached end of input.
    SourceEof,
    /// A read or write failed.
    IoError,
}

/// What the owner of the sockets must do after a step.
#[derive(Clone, Copy, Debug, PartialEq, Eq, Structural)]
pub enum CopyAction {
    /// Keep copying: read the next chunk.
    Continue,
    /// Shut down the write half of the destination.
    ShutdownWrite,
    /// Stop this direction without touching the peer's read half.
    Stop,
}

/// The transition of one copy direction.  A terminal state ignores
/// further events.
pub open spec fn copy_next(s: CopyState, e: CopyEvent) -> (CopyState, CopyAction) {
    match (s, e) {
        (CopyState::Streaming, CopyEvent::Copied) => (CopyState::Streaming, CopyAction::Continue),
        (CopyState::Streaming, CopyEvent::SourceEof) => (
            CopyState::ShutdownSent,
            CopyAction::ShutdownWrite,
        ),
        (CopyState::Streaming, CopyEvent::IoError) => (CopyState::Failed, CopyAction::Stop),
        (_, _) => (s, CopyAction::Stop),
    }
}

/// Whether a direction has ended.
pub open spec fn copy_done(s: CopyState) -> bool {
    s == CopyState::ShutdownSent || s == CopyState::Failed
}

/// Step one copy direction.
pub fn copy_advance(s: CopyState, e: CopyEvent) -> (r: (CopyState, CopyAction))
    ensures
        r == copy_next(s, e),
{
    match (s, e) {
        (CopyState::Streaming, CopyEvent::Copied) => (CopyState::Streaming, CopyAction::Continue),
        (CopyState::Streaming, CopyEvent::SourceEof) => (
            CopyState::ShutdownSent,
            CopyAction::ShutdownWrite,
        ),
        (CopyState::Streaming, CopyEvent::IoError) => (CopyState::Failed, CopyAction::Stop),
        (_, _) => (s, CopyAction::Stop),
    }
}

/// Law: end of input propagates as a write shutdown.  In either
/// direction, a streaming copy that sees its source's end of input
/// orders the write half of its destination shut, and only that event
/// ever orders it — an I/O error stops the direction without one.
pub proof fn lemma_eof_propagates_shutdown(s: CopyState, e: CopyEvent)
    ensures
        copy_next(CopyState::Streaming, CopyEvent::SourceEof).1 == CopyAction::ShutdownWrite,
        copy_next(s, e).1 == CopyAction::ShutdownWrite ==> s == CopyState::Streaming && e
            == CopyEvent::SourceEof,
{
}

/// Both directions of one splice.
#[derive(Clone, Copy, Debug, PartialEq, Eq, Structural)]
pub struct SpliceState {
    /// The `overlay → backend` direction.
    pub upstream: CopyState,
    /// The `backend → overlay` direction.
    pub downstream: CopyState,
}

impl SpliceState {
    /// A splice starts with both directions streaming.
    pub fn new() -> (s: SpliceState)
        ensures
            s.upstream == CopyState::Streaming,
            s.downstream == CopyState::Streaming,
    {
        SpliceState { upstream: CopyState::Streaming, downstream: CopyState::Streaming }
    }

    /// The splice is complete only when both directions have ended.
    pub open spec fn spec_done(self) -> bool {
        copy_done(self.upstream) && copy_done(self.downstream)
    }

    /// Whether the splice is complete.
    pub fn done(&self) -> (r: bool)
        ensures
            r == self.spec_done(),
    {
        let up = match self.upstream {
            CopyState::Streaming => false,
            _ => true,
        };
        let down = match self.downstream {
            CopyState::Streaming => false,
            _ => true,
        };
        up && down
    }

    /// Step the `overlay → backend` direction; the other direction is
    /// untouched, so an error on one side never ends the other.
    pub fn advance_upstream(self, e: CopyEvent) -> (r: (SpliceState, CopyAction))
        ensures
            r.0.upstream == copy_next(self.upstream, e).0,
            r.1 == copy_next(self.upstream, e).1,
            r.0.downstream == self.downstream,
    {
        let (s, a) = copy_advance(self.upstream, e);
        (SpliceState { upstream: s, downstream: self.downstream }, a)
    }

    /// Step the `backend → overlay` direction; the other direction is
    /// untouched.
    pub fn advance_downstream(self, e: CopyEvent) -> (r: (SpliceState, CopyAction))
        ensures
            r.0.downstream == copy_next(self.downstream, e).0,
            r.1 == copy_next(self.downstream, e).1,
            r.0.upstream == self.upstream,
    {
        let (s, a) = copy_advance(self.downstream, e);
        (SpliceState { upstream: self.upstream, downstream: s }, a)
    }
}

} // verus!
