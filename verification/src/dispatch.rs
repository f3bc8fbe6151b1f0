//! Work under a bound, and cooperative cancellation.
//!
//! The observer validates up to a fixed number of messages at a time. When
//! cancellation is raised it starts nothing more, lets what is in flight
//! finish, and only then is done.

use vstd::prelude::*;

verus! {

/// The number of messages the observer validates at a time.
pub const CONCURRENCY: usize = 32;

/// The state of the observer's loop.
pub struct Dispatcher {
    limit: usize,
    in_flight: usize,
    completed: u64,
    cancelled: bool,
}

/// What the loop may do next.
#[derive(Clone, Copy, Debug, PartialEq, Eq, Structural)]
pub enum Next {
    /// Pull the next event and start its validation.
    Start,
    /// Wait for a unit in flight to finish.
    Wait,
    /// Return: cancellation was raised and nothing is in flight.
    Return,
}

impl Dispatcher {
    #[verifier::type_invariant]
    spec fn bounded(self) -> bool {
        self.in_flight <= self.limit
    }

    /// The most units that may be in flight.
    pub closed spec fn limit(&self) -> nat {
        self.limit as nat
    }

    /// The units in flight.
    pub closed spec fn in_flight(&self) -> nat {
        self.in_flight as nat
    }

    /// The units that have finished, saturating at `u64::MAX`.
    pub closed spec fn completed(&self) -> nat {
        self.completed as nat
    }

    /// Whether cancellation was raised.
    pub closed spec fn cancelled(&self) -> bool {
        self.cancelled
    }

    /// What the loop may do in this state: return once cancellation was
    /// raised and nothing is in flight, wait while cancellation was raised
    /// or the bound is reached, start a unit otherwise.
    pub open spec fn next_step(&self) -> Next {
        if self.cancelled() {
            if self.in_flight() == 0 {
                Next::Return
            } else {
                Next::Wait
            }
        } else if self.in_flight() < self.limit() {
            Next::Start
        } else {
            Next::Wait
        }
    }

    /// A loop that runs up to `limit` units at a time.
    pub fn new(limit: usize) -> (dispatcher: Dispatcher)
        ensures
            dispatcher.limit() == limit,
            dispatcher.in_flight() == 0,
            dispatcher.completed() == 0,
            !dispatcher.cancelled(),
    {
        Dispatcher { limit, in_flight: 0, completed: 0, cancelled: false }
    }

    /// The units in flight.
    pub fn running(&self) -> (count: usize)
        ensures
            count == self.in_flight(),
            count <= self.limit(),
    {
        proof {
            use_type_invariant(self);
        }
        self.in_flight
    }

    /// The units that have finished.
    pub fn finished(&self) -> (count: u64)
        ensures
            count == self.completed(),
    {
        self.completed
    }

    /// Whether cancellation was raised.
    pub fn is_cancelled(&self) -> (cancelled: bool)
        ensures
            cancelled == self.cancelled(),
    {
        self.cancelled
    }

    /// What the loop may do next.
    pub fn next(&self) -> (step: Next)
        ensures
            step == self.next_step(),
    {
        if self.cancelled {
            if self.in_flight == 0 {
                Next::Return
            } else {
                Next::Wait
            }
        } else if self.in_flight < self.limit {
            Next::Start
        } else {
            Next::Wait
        }
    }

    /// Raises cancellation. What is in flight stays in flight.
    pub fn cancel(&mut self)
        ensures
            final(self).cancelled(),
            final(self).limit() == old(self).limit(),
            final(self).in_flight() == old(self).in_flight(),
            final(self).completed() == old(self).completed(),
    {
        proof {
            use_type_invariant(&*self);
        }
        self.cancelled = true;
    }

    /// Asks to start one more unit. It starts exactly when the next step is
    /// to start one; otherwise nothing changes.
    pub fn start(&mut self) -> (started: bool)
        ensures
            started == (old(self).next_step() == Next::Start),
            final(self).in_flight() == old(self).in_flight() + if started {
                1nat
            } else {
                0nat
            },
            final(self).limit() == old(self).limit(),
            final(self).completed() == old(self).completed(),
            final(self).cancelled() == old(self).cancelled(),
    {
        proof {
            use_type_invariant(&*self);
        }
        if !self.cancelled && self.in_flight < self.limit {
            self.in_flight = self.in_flight + 1;
            true
        } else {
            false
        }
    }

    /// Notes that one unit in flight has finished. Where nothing is in
    /// flight nothing changes and the answer is `false`.
    pub fn complete(&mut self) -> (noted: bool)
        ensures
            noted == (old(self).in_flight() > 0),
            final(self).in_flight() == old(self).in_flight() - if noted {
                1int
            } else {
                0int
            },
            final(self).completed() == if noted && old(self).completed() < u64::MAX {
                old(self).completed() + 1
            } else {
                old(self).completed()
            },
            final(self).limit() == old(self).limit(),
            final(self).cancelled() == old(self).cancelled(),
    {
        proof {
            use_type_invariant(&*self);
        }
        if self.in_flight > 0 {
            self.in_flight = self.in_flight - 1;
            if self.completed < u64::MAX {
                self.completed = self.completed + 1;
            }
            true
        } else {
            false
        }
    }
}

/// Once cancellation is raised no unit starts any more.
pub proof fn lemma_cancelled_starts_nothing(dispatcher: Dispatcher)
    requires
        dispatcher.cancelled(),
    ensures
        dispatcher.next_step() != Next::Start,
{
}

/// The loop returns exactly when cancellation was raised and every unit that
/// was started has finished.
pub proof fn lemma_returns_when_drained(dispatcher: Dispatcher)
    ensures
        dispatcher.next_step() == Next::Return <==> (dispatcher.cancelled()
            && dispatcher.in_flight() == 0),
{
}

} // verus!
