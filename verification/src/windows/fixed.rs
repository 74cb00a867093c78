//! The interval-reset limiter: a counter of what the current interval has
//! admitted, set back to zero at every interval boundary.
//!
//! Two bursts on either side of a boundary may together exceed the capacity
//! within a short span of time. That is what a fixed window is.

use vstd::prelude::*;
use crate::limiter::{RateLimiter, Step};

verus! {

/// The state of an interval-reset limiter, as mathematics.
pub struct Counter {
    /// The most that one interval admits.
    pub capacity: nat,
    /// The length of an interval, in time units.
    pub window_size: nat,
    /// What the current interval has admitted so far.
    pub count: nat,
    /// Whether the maintenance activity has been asked to end.
    pub stopped: bool,
}

/// Anything that can happen to an interval-reset limiter.
pub enum CounterEvent {
    /// A decision on a request of the given weight.
    Request(nat),
    /// An interval boundary.
    Reset,
    /// A request to stop.
    Cleanup,
}

impl Counter {
    /// The count is within the capacity.
    pub open spec fn wf(self) -> bool {
        self.count <= self.capacity
    }

    /// A new limiter at the start of its first interval.
    pub open spec fn fresh(capacity: nat, window_size: nat) -> Counter {
        Counter { capacity, window_size, count: 0, stopped: false }
    }

    /// Whether a request of this weight still fits into the interval.
    pub open spec fn admits(self, weight: nat) -> bool {
        self.count + weight <= self.capacity
    }

    /// The state after a decision on a request of this weight.
    pub open spec fn decide(self, weight: nat) -> Counter {
        if self.admits(weight) {
            Counter { count: self.count + weight, ..self }
        } else {
            self
        }
    }

    /// The state at the start of the next interval.
    pub open spec fn reset(self) -> Counter {
        Counter { count: 0, ..self }
    }

    /// The state after a request to stop.
    pub open spec fn stop(self) -> Counter {
        Counter { stopped: true, ..self }
    }

    /// The state after one event.
    pub open spec fn step(self, event: CounterEvent) -> Counter {
        match event {
            CounterEvent::Request(weight) => self.decide(weight),
            CounterEvent::Reset => self.reset(),
            CounterEvent::Cleanup => self.stop(),
        }
    }

    /// The state after a sequence of events, taken in order.
    pub open spec fn run(self, events: Seq<CounterEvent>) -> Counter
        decreases events.len(),
    {
        if events.len() == 0 {
            self
        } else {
            self.run(events.drop_last()).step(events.last())
        }
    }
}

/// Whether a sequence of events stays within one interval.
pub open spec fn within_one_interval(events: Seq<CounterEvent>) -> bool {
    forall|i: int| 0 <= i < events.len() ==> !(#[trigger] events[i] is Reset)
}

/// Whatever happens to the limiter, in whatever order, its count stays
/// within the capacity, and capacity and window stay what they were.
pub proof fn law_count_within_capacity(counter: Counter, events: Seq<CounterEvent>)
    requires
        counter.wf(),
    ensures
        counter.run(events).wf(),
        counter.run(events).capacity == counter.capacity,
        counter.run(events).window_size == counter.window_size,
    decreases events.len(),
{
    if events.len() > 0 {
        law_count_within_capacity(counter, events.drop_last());
    }
}

/// A stopped limiter stays stopped, whatever happens to it.
pub proof fn law_stopped_stays_stopped(counter: Counter, events: Seq<CounterEvent>)
    requires
        counter.stopped,
    ensures
        counter.run(events).stopped,
    decreases events.len(),
{
    if events.len() > 0 {
        law_stopped_stays_stopped(counter, events.drop_last());
    }
}

/// A request heavier than the capacity is never admitted, and a rejected
/// request changes nothing.
pub proof fn law_rejection_changes_nothing(counter: Counter, weight: nat)
    ensures
        weight > counter.capacity ==> !counter.admits(weight),
        !counter.admits(weight) ==> counter.decide(weight) == counter,
{
}

/// Within one interval the count never falls.
pub proof fn law_count_grows_within_interval(counter: Counter, events: Seq<CounterEvent>)
    requires
        within_one_interval(events),
    ensures
        counter.run(events).count >= counter.count,
    decreases events.len(),
{
    if events.len() > 0 {
        let earlier = events.drop_last();
        assert forall|i: int| 0 <= i < earlier.len() implies !(#[trigger] earlier[i] is Reset) by {
            assert(earlier[i] == events[i]);
        }
        law_count_grows_within_interval(counter, earlier);
        assert(!(events[events.len() - 1] is Reset));
    }
}

/// Right after a reset the count is zero, and the next request is admitted
/// whenever its weight is at most the capacity.
pub proof fn law_reset_then_admit(counter: Counter, weight: nat)
    requires
        weight <= counter.capacity,
    ensures
        counter.reset().count == 0,
        counter.reset().admits(weight),
        counter.reset().decide(weight).count == weight,
{
}

/// A request to stop changes no decision: the same requests are admitted
/// before and after it, with the same effect on the count.
pub proof fn law_stop_keeps_decisions(counter: Counter, weight: nat)
    ensures
        counter.stop().count == counter.count,
        counter.stop().admits(weight) == counter.admits(weight),
        counter.stop().decide(weight) == counter.decide(weight).stop(),
        counter.stop().stop() == counter.stop(),
{
}

/// A counter of what the current interval has admitted. The maintenance
/// activity sleeps for one interval and then resets it.
pub struct FixedWindow {
    capacity: u64,
    window_size: u64,
    current_count: u64,
    stop: bool,
}

impl View for FixedWindow {
    type V = Counter;

    closed spec fn view(&self) -> Counter {
        Counter {
            capacity: self.capacity as nat,
            window_size: self.window_size as nat,
            count: self.current_count as nat,
            stopped: self.stop,
        }
    }
}

impl FixedWindow {
    #[verifier::type_invariant]
    spec fn inv(self) -> bool {
        self.current_count <= self.capacity
    }

    /// A limiter that admits up to `capacity` in every interval of
    /// `window_size` time units.
    pub fn new(capacity: u64, window_size: u64) -> (limiter: Self)
        ensures
            limiter@ == Counter::fresh(capacity as nat, window_size as nat),
            limiter@.wf(),
    {
        FixedWindow { capacity, window_size, current_count: 0, stop: false }
    }

    /// The head of the maintenance loop: `Exit` once the limiter was stopped,
    /// else a sleep of one interval, after which `reset` is due.
    pub fn schedule(&self) -> (step: Step)
        ensures
            step == (if self@.stopped {
                Step::Exit
            } else {
                Step::Sleep(self@.window_size as u64)
            }),
    {
        if self.stop {
            Step::Exit
        } else {
            Step::Sleep(self.window_size)
        }
    }

    /// The interval boundary: the count starts again at zero.
    pub fn reset(&mut self)
        ensures
            final(self)@ == old(self)@.reset(),
            final(self)@.wf(),
    {
        proof {
            use_type_invariant(&*self);
        }
        self.current_count = 0;
    }

    /// The most that one interval admits.
    pub fn capacity(&self) -> (capacity: u64)
        ensures
            capacity == self@.capacity,
    {
        self.capacity
    }

    /// The length of an interval, in time units.
    pub fn window_size(&self) -> (window_size: u64)
        ensures
            window_size == self@.window_size,
    {
        self.window_size
    }

    /// What the current interval has admitted so far.
    pub fn count(&self) -> (count: u64)
        ensures
            count == self@.count,
            count <= self@.capacity,
    {
        proof {
            use_type_invariant(self);
        }
        self.current_count
    }

    /// Whether the maintenance activity has been asked to end.
    pub fn is_stopped(&self) -> (stopped: bool)
        ensures
            stopped == self@.stopped,
    {
        self.stop
    }
}

impl RateLimiter for FixedWindow {
    open spec fn limit(&self) -> nat {
        self@.capacity
    }

    open spec fn in_use(&self) -> nat {
        self@.count
    }

    open spec fn cost(&self, weight: u64) -> nat {
        weight as nat
    }

    open spec fn stopped(&self) -> bool {
        self@.stopped
    }

    fn is_rate_limited(&mut self, weight: u64) -> (admitted: bool)
        ensures
            admitted == old(self)@.admits(weight as nat),
            final(self)@ == old(self)@.decide(weight as nat),
            final(self)@.wf(),
    {
        proof {
            use_type_invariant(&*self);
        }
        if weight <= self.capacity - self.current_count {
            self.current_count = self.current_count + weight;
            true
        } else {
            false
        }
    }

    fn cleanup(&mut self)
        ensures
            final(self)@ == old(self)@.stop(),
            final(self)@.wf(),
    {
        proof {
            use_type_invariant(&*self);
        }
        self.stop = true;
    }
}

} // verus!
