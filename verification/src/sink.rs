//! The single-slot completion channel.
//!
//! A [`CompletionSink`] is the caller-visible end of one authentication
//! attempt: it starts empty and receives at most one verification
//! outcome. Delivery requires the slot to be empty, so a sink can never
//! be filled twice; the blocking entry point drains it once the native
//! layer has definitively finished.

use vstd::prelude::*;

use crate::error::Error;

verus! {

/// A single-use slot that receives exactly one verification outcome.
pub struct CompletionSink {
    slot: Option<Result<(), Error>>,
}

impl CompletionSink {
    /// The outcome delivered so far, if any.
    pub closed spec fn outcome(&self) -> Option<Result<(), Error>> {
        self.slot
    }

    /// True while no outcome has been delivered.
    pub open spec fn is_pending(&self) -> bool {
        self.outcome() is None
    }

    /// Creates an empty sink, awaiting its one outcome.
    pub fn new() -> (r: Self)
        ensures
            r.is_pending(),
    {
        Self { slot: None }
    }

    /// Delivers the one verification outcome. A sink accepts a delivery
    /// only while pending, so the caller's callback can never be fired
    /// twice through it.
    pub(crate) fn deliver(&mut self, outcome: Result<(), Error>)
        requires
            old(self).is_pending(),
        ensures
            final(self).outcome() == Some(outcome),
    {
        self.slot = Some(outcome);
    }

    /// Takes the delivered outcome out of the sink, leaving it pending
    /// again; `None` if nothing has been delivered.
    pub fn take(&mut self) -> (r: Option<Result<(), Error>>)
        ensures
            r == old(self).outcome(),
            final(self).is_pending(),
    {
        self.slot.take()
    }

    /// Reads the delivered outcome without consuming it.
    pub fn peek(&self) -> (r: Option<Result<(), Error>>)
        ensures
            r == self.outcome(),
    {
        self.slot
    }
}

} // verus!
