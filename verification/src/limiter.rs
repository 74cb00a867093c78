//! The interface shared by all limiters, and the vocabulary of the
//! maintenance loop.

use vstd::prelude::*;

verus! {

/// What the maintenance activity of a limiter does next.
#[derive(Clone, Copy, Debug, PartialEq, Eq, Structural)]
pub enum Step {
    /// Suspend for this many time units, then take the next turn.
    Sleep(u64),
    /// The limiter was stopped: end the activity.
    Exit,
}

/// An admission-control decision over a single budget.
///
/// Every limiter keeps an amount `in_use` that never exceeds its `limit`.
/// A request is admitted exactly when its `cost` still fits, and only an
/// admitted request changes what is in use.
pub trait RateLimiter {
    /// The most that may be in use at once.
    spec fn limit(&self) -> nat;

    /// How much of the limit is taken at this moment.
    spec fn in_use(&self) -> nat;

    /// What an admitted request of the given weight takes.
    spec fn cost(&self, weight: u64) -> nat;

    /// Whether the maintenance activity has been asked to end.
    spec fn stopped(&self) -> bool;

    /// Whether a request of the given weight is admitted in this state.
    open spec fn admits(&self, weight: u64) -> bool {
        self.in_use() + self.cost(weight) <= self.limit()
    }

    /// Decides on one request. Returns `true` when the request is admitted,
    /// and its cost is then taken; returns `false` when it is rejected, and
    /// nothing is taken.
    fn is_rate_limited(&mut self, weight: u64) -> (admitted: bool)
        ensures
            admitted == old(self).admits(weight),
            final(self).in_use() == old(self).in_use() + (if admitted {
                old(self).cost(weight)
            } else {
                0
            }),
            final(self).in_use() <= final(self).limit(),
            final(self).limit() == old(self).limit(),
            final(self).stopped() == old(self).stopped(),
            forall|w: u64| final(self).cost(w) == old(self).cost(w),
    ;

    /// Asks the maintenance activity to end at its next turn. Decisions stay
    /// legal afterwards and are not affected.
    fn cleanup(&mut self)
        ensures
            final(self).stopped(),
            final(self).in_use() == old(self).in_use(),
            final(self).limit() == old(self).limit(),
            forall|w: u64| final(self).cost(w) == old(self).cost(w),
    ;
}

} // verus!
