//! The life of a server: created, listening, shutting down, stopped, in that order and never
//! back.

use vstd::prelude::*;

verus! {

/// Where a server is in its life.
#[derive(Debug, Clone, Copy, PartialEq, Eq)]
pub enum Lifecycle {
    /// Its listener is not bound yet.
    Created,
    /// Its listener is bound and it accepts connections.
    Listening,
    /// It has been asked to shut down: it accepts no new connection and answers the requests
    /// that are in flight.
    ShuttingDown,
    /// Its serving task has ended and its socket is closed.
    Stopped,
}

/// What moves a server on in its life.
#[derive(Debug, Clone, Copy, PartialEq, Eq)]
pub enum Event {
    /// The listener was bound.
    Bound,
    /// The handle asked for shutdown, or was dropped.
    ShutdownRequested,
    /// The serving task saw the request to shut down and answered what was in flight.
    Drained,
}

impl Lifecycle {
    /// How far along its life a server in this state is.
    pub open spec fn rank(self) -> nat {
        match self {
            Lifecycle::Created => 0,
            Lifecycle::Listening => 1,
            Lifecycle::ShuttingDown => 2,
            Lifecycle::Stopped => 3,
        }
    }

    /// The state that follows this one on `event`. An event that does not belong to the state
    /// changes nothing.
    pub open spec fn spec_after(self, event: Event) -> Lifecycle {
        match (self, event) {
            (Lifecycle::Created, Event::Bound) => Lifecycle::Listening,
            (Lifecycle::Listening, Event::ShutdownRequested) => Lifecycle::ShuttingDown,
            (Lifecycle::ShuttingDown, Event::Drained) => Lifecycle::Stopped,
            _ => self,
        }
    }

    /// The state that follows this one on `event`.
    #[verifier::when_used_as_spec(spec_after)]
    pub fn after(self, event: Event) -> (next: Lifecycle)
        ensures
            next == self.after(event),
    {
        match (self, event) {
            (Lifecycle::Created, Event::Bound) => Lifecycle::Listening,
            (Lifecycle::Listening, Event::ShutdownRequested) => Lifecycle::ShuttingDown,
            (Lifecycle::ShuttingDown, Event::Drained) => Lifecycle::Stopped,
            _ => self,
        }
    }
}

/// No event takes a server back, and none makes it skip a state.
pub proof fn lemma_life_moves_forward(state: Lifecycle, event: Event)
    ensures
        state.rank() <= state.after(event).rank() <= state.rank() + 1,
{
}

/// A server that has stopped stays stopped.
pub proof fn lemma_stopped_is_final(event: Event)
    ensures
        Lifecycle::Stopped.after(event) == Lifecycle::Stopped,
{
}

/// Asking for shutdown a second time changes nothing.
pub proof fn lemma_shutdown_is_asked_once(state: Lifecycle)
    ensures
        state.after(Event::ShutdownRequested).after(Event::ShutdownRequested) == state.after(
            Event::ShutdownRequested,
        ),
{
}

} // verus!
