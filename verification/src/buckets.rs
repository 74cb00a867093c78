//! Limiters that keep one counter of consumed capacity and give it back at a
//! fixed rate, one maintenance tick at a time.

use vstd::prelude::*;
use vstd::math::min;

pub mod leaky;
pub mod token;

verus! {

/// The state of a counter limiter with periodic recovery, as mathematics.
pub struct Bucket {
    /// The most that may be consumed at once.
    pub capacity: nat,
    /// How much one maintenance tick gives back.
    pub rate: nat,
    /// How much is consumed at this moment.
    pub used: nat,
    /// Whether the maintenance activity has been asked to end.
    pub stopped: bool,
}

impl Bucket {
    /// The counter is within the capacity.
    pub open spec fn wf(self) -> bool {
        self.used <= self.capacity
    }

    /// A new bucket: everything consumed, so that no request of positive
    /// weight is admitted before the first tick.
    pub open spec fn fresh(capacity: nat, rate: nat) -> Bucket {
        Bucket { capacity, rate, used: capacity, stopped: false }
    }

    /// Whether a request of this weight still fits.
    pub open spec fn admits(self, weight: nat) -> bool {
        self.used + weight <= self.capacity
    }

    /// The state after a decision on a request of this weight.
    pub open spec fn decide(self, weight: nat) -> Bucket {
        if self.admits(weight) {
            Bucket { used: self.used + weight, ..self }
        } else {
            self
        }
    }

    /// The state after one maintenance tick: `rate` units come back, and the
    /// counter stops at zero.
    pub open spec fn tick(self) -> Bucket {
        Bucket { used: if self.used <= self.rate { 0 } else { (self.used - self.rate) as nat }, ..self }
    }

    /// The state after `k` maintenance ticks in a row.
    pub open spec fn ticks(self, k: nat) -> Bucket
        decreases k,
    {
        if k == 0 {
            self
        } else {
            self.tick().ticks((k - 1) as nat)
        }
    }

    /// The state after one turn of the maintenance loop: a stopped bucket is
    /// left alone, a running one gets its tick.
    pub open spec fn maintain(self) -> Bucket {
        if self.stopped {
            self
        } else {
            self.tick()
        }
    }

    /// The state after a request to stop.
    pub open spec fn stop(self) -> Bucket {
        Bucket { stopped: true, ..self }
    }

    /// The state after one event.
    pub open spec fn step(self, event: BucketEvent) -> Bucket {
        match event {
            BucketEvent::Request(weight) => self.decide(weight),
            BucketEvent::Maintenance => self.maintain(),
            BucketEvent::Cleanup => self.stop(),
        }
    }

    /// The state after a sequence of events, taken in order.
    pub open spec fn run(self, events: Seq<BucketEvent>) -> Bucket
        decreases events.len(),
    {
        if events.len() == 0 {
            self
        } else {
            self.run(events.drop_last()).step(events.last())
        }
    }
}

/// Anything that can happen to a bucket. Callers and the maintenance activity
/// take turns in some order; each turn is one event.
pub enum BucketEvent {
    /// A decision on a request of the given weight.
    Request(nat),
    /// One turn of the maintenance loop.
    Maintenance,
    /// A request to stop.
    Cleanup,
}

/// Whatever happens to a bucket, in whatever order, its counter stays within
/// the capacity, and capacity and rate stay what they were.
pub proof fn law_counter_within_capacity(bucket: Bucket, events: Seq<BucketEvent>)
    requires
        bucket.wf(),
    ensures
        bucket.run(events).wf(),
        bucket.run(events).capacity == bucket.capacity,
        bucket.run(events).rate == bucket.rate,
    decreases events.len(),
{
    if events.len() > 0 {
        law_counter_within_capacity(bucket, events.drop_last());
    }
}

/// A new bucket admits a request exactly when its weight is zero.
pub proof fn law_fresh_admits_only_nothing(capacity: nat, rate: nat, weight: nat)
    ensures
        Bucket::fresh(capacity, rate).wf(),
        Bucket::fresh(capacity, rate).admits(weight) <==> weight == 0,
{
}

/// A stopped bucket stays stopped, whatever happens to it, and its counter
/// never falls again.
pub proof fn law_stopped_stays_stopped(bucket: Bucket, events: Seq<BucketEvent>)
    requires
        bucket.stopped,
    ensures
        bucket.run(events).stopped,
        bucket.run(events).used >= bucket.used,
    decreases events.len(),
{
    if events.len() > 0 {
        law_stopped_stays_stopped(bucket, events.drop_last());
    }
}

/// The counter moves one way at a time: a decision never lowers it, a tick
/// never raises it. A request heavier than the capacity is never admitted.
pub proof fn law_counter_moves_one_way(bucket: Bucket, weight: nat)
    ensures
        bucket.decide(weight).used >= bucket.used,
        bucket.tick().used <= bucket.used,
        weight > bucket.capacity ==> !bucket.admits(weight),
        !bucket.admits(weight) ==> bucket.decide(weight) == bucket,
{
}

/// `k` ticks with no admission in between take `min(used, k * rate)` off the
/// counter: it falls by the rate each time and stops at zero.
pub proof fn law_ticks_drain(bucket: Bucket, k: nat)
    ensures
        bucket.ticks(k).used == bucket.used - min(bucket.used as int, (k * bucket.rate) as int),
        bucket.ticks(k).capacity == bucket.capacity,
        bucket.ticks(k).rate == bucket.rate,
        bucket.ticks(k).stopped == bucket.stopped,
    decreases k,
{
    if k > 0 {
        law_ticks_drain(bucket.tick(), (k - 1) as nat);
        assert(k * bucket.rate == (k - 1) * bucket.rate + bucket.rate) by (nonlinear_arith);
        assert((k - 1) * bucket.rate >= 0) by (nonlinear_arith)
            requires
                k >= 1,
                bucket.rate >= 0,
        ;
    } else {
        assert(k * bucket.rate == 0) by (nonlinear_arith)
            requires
                k == 0,
        ;
    }
}

/// A request to stop changes no decision: the same requests are admitted
/// before and after it, with the same effect on the counter.
pub proof fn law_stop_keeps_decisions(bucket: Bucket, weight: nat)
    ensures
        bucket.stop().used == bucket.used,
        bucket.stop().admits(weight) == bucket.admits(weight),
        bucket.stop().decide(weight) == bucket.decide(weight).stop(),
        bucket.stop().stop() == bucket.stop(),
{
}

} // verus!
