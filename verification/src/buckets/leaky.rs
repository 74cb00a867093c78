//! The drain limiter: consumed capacity leaks away at a fixed rate.

use vstd::prelude::*;
use crate::buckets::Bucket;
use crate::limiter::{RateLimiter, Step};

verus! {

/// A counter of consumed capacity that drains by `leak_rate` on every
/// maintenance tick. It starts full, so no request of positive weight is
/// admitted before the first tick.
pub struct LeakyBucket {
    capacity: u64,
    leak_rate: u64,
    used: u64,
    stop: bool,
}

impl View for LeakyBucket {
    type V = Bucket;

    closed spec fn view(&self) -> Bucket {
        Bucket {
            capacity: self.capacity as nat,
            rate: self.leak_rate as nat,
            used: self.used as nat,
            stopped: self.stop,
        }
    }
}

impl LeakyBucket {
    #[verifier::type_invariant]
    spec fn inv(self) -> bool {
        self.used <= self.capacity
    }

    /// A full bucket of the given capacity that leaks `leak_rate` per tick.
    pub fn new(capacity: u64, leak_rate: u64) -> (bucket: Self)
        ensures
            bucket@ == Bucket::fresh(capacity as nat, leak_rate as nat),
            bucket@.wf(),
    {
        LeakyBucket { capacity, leak_rate, used: capacity, stop: false }
    }

    /// One turn of the maintenance loop. A stopped bucket answers `Exit` and
    /// stays as it is; a running one leaks once and asks to be woken after
    /// one time unit.
    pub fn maintain(&mut self) -> (step: Step)
        ensures
            final(self)@ == old(self)@.maintain(),
            final(self)@.wf(),
            step == (if old(self)@.stopped {
                Step::Exit
            } else {
                Step::Sleep(1)
            }),
    {
        proof {
            use_type_invariant(&*self);
        }
        if self.stop {
            Step::Exit
        } else {
            self.used = self.used.saturating_sub(self.leak_rate);
            Step::Sleep(1)
        }
    }

    /// The most that may be consumed at once.
    pub fn capacity(&self) -> (capacity: u64)
        ensures
            capacity == self@.capacity,
    {
        self.capacity
    }

    /// How much one maintenance tick gives back.
    pub fn leak_rate(&self) -> (rate: u64)
        ensures
            rate == self@.rate,
    {
        self.leak_rate
    }

    /// How much is consumed at this moment.
    pub fn used(&self) -> (used: u64)
        ensures
            used == self@.used,
            used <= self@.capacity,
    {
        proof {
            use_type_invariant(self);
        }
        self.used
    }

    /// Whether the maintenance activity has been asked to end.
    pub fn is_stopped(&self) -> (stopped: bool)
        ensures
            stopped == self@.stopped,
    {
        self.stop
    }
}

impl RateLimiter for LeakyBucket {
    open spec fn limit(&self) -> nat {
        self@.capacity
    }

    open spec fn in_use(&self) -> nat {
        self@.used
    }

    open spec fn cost(&self, weight: u64) -> nat {
        weight as nat
    }

    open spec fn stopped(&self) -> bool {
        self@.stopped
    }

    fn is_rate_limited(&mut self, weight: u64) -> (admitted: bool)
        ensures
            admitted == old(self)@.admits(weight as nat),
            final(self)@ == old(self)@.decide(weight as nat),
            final(self)@.wf(),
    {
        proof {
            use_type_invariant(&*self);
        }
        if weight <= self.capacity - self.used {
            self.used = self.used + weight;
            true
        } else {
            false
        }
    }

    fn cleanup(&mut self)
        ensures
            final(self)@ == old(self)@.stop(),
            final(self)@.wf(),
    {
        proof {
            use_type_invariant(&*self);
        }
        self.stop = true;
    }
}

} // verus!
