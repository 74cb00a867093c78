//! The rolling-log limiter: a log of admission times, of which only those
//! within the window before the current time count.
//!
//! The limiter is told the time with `advance` and keeps the latest reading;
//! its clock never runs backwards. Every admission takes one slot of the log,
//! whatever weight was asked for.

use std::collections::VecDeque;
use vstd::prelude::*;
use vstd::math::max;
use crate::limiter::{RateLimiter, Step};

verus! {

/// The state of a rolling-log limiter, as mathematics.
pub struct Log {
    /// The most admissions that one window holds.
    pub capacity: nat,
    /// The length of the window, in time units.
    pub window_size: nat,
    /// The latest time the limiter was told.
    pub clock: nat,
    /// The times of the admissions that are still kept, oldest first.
    pub times: Seq<nat>,
    /// Whether the maintenance activity has been asked to end.
    pub stopped: bool,
}

/// Anything that can happen to a rolling-log limiter.
pub enum LogEvent {
    /// The limiter is told the time.
    Clock(nat),
    /// A decision on a request of the given weight.
    Request(nat),
    /// The maintenance activity drops what has expired.
    Expire,
    /// A request to stop.
    Cleanup,
}

/// The admission times that count at time `clock`: those not older than
/// `clock - window_size`.
pub open spec fn in_window(window_size: nat, clock: nat) -> spec_fn(nat) -> bool {
    |t: nat| t + window_size >= clock
}

/// Whether the times never fall from one entry to the next.
pub open spec fn ascending(times: Seq<nat>) -> bool {
    forall|i: int, j: int| 0 <= i <= j < times.len() ==> times[i] <= times[j]
}

impl Log {
    /// The log is in order of time, holds nothing from the future, and is no
    /// longer than the capacity.
    pub open spec fn wf(self) -> bool {
        &&& self.times.len() <= self.capacity
        &&& ascending(self.times)
        &&& forall|i: int| 0 <= i < self.times.len() ==> self.times[i] <= self.clock
    }

    /// A new limiter at time zero with an empty log.
    pub open spec fn fresh(capacity: nat, window_size: nat) -> Log {
        Log { capacity, window_size, clock: 0, times: Seq::empty(), stopped: false }
    }

    /// The kept admissions that are within the window at the current time.
    pub open spec fn live(self) -> Seq<nat> {
        self.times.filter(in_window(self.window_size, self.clock))
    }

    /// Whether a request is admitted now: the window holds fewer admissions
    /// than the capacity. The weight of the request plays no part.
    pub open spec fn admits(self) -> bool {
        self.live().len() < self.capacity
    }

    /// The state after the limiter was told that it is `now`. A reading
    /// older than the clock is ignored.
    pub open spec fn advance(self, now: nat) -> Log {
        Log { clock: max(self.clock as int, now as int) as nat, ..self }
    }

    /// The state after everything older than the window was dropped.
    pub open spec fn expire(self) -> Log {
        Log { times: self.live(), ..self }
    }

    /// The state after a decision: what has expired is dropped, and an
    /// admitted request adds the current time to the log.
    pub open spec fn decide(self) -> Log {
        if self.admits() {
            Log { times: self.live().push(self.clock), ..self }
        } else {
            self.expire()
        }
    }

    /// The state after a request to stop.
    pub open spec fn stop(self) -> Log {
        Log { stopped: true, ..self }
    }

    /// The state after one event.
    pub open spec fn step(self, event: LogEvent) -> Log {
        match event {
            LogEvent::Clock(now) => self.advance(now),
            LogEvent::Request(_) => self.decide(),
            LogEvent::Expire => self.expire(),
            LogEvent::Cleanup => self.stop(),
        }
    }

    /// The state after a sequence of events, taken in order.
    pub open spec fn run(self, events: Seq<LogEvent>) -> Log
        decreases events.len(),
    {
        if events.len() == 0 {
            self
        } else {
            self.run(events.drop_last()).step(events.last())
        }
    }

    /// The times at which requests were admitted in the course of a sequence
    /// of events, in order, one entry for each admission.
    pub open spec fn admissions(self, events: Seq<LogEvent>) -> Seq<nat>
        decreases events.len(),
    {
        if events.len() == 0 {
            Seq::empty()
        } else {
            let before = self.run(events.drop_last());
            let earlier = self.admissions(events.drop_last());
            if events.last() is Request && before.admits() {
                earlier.push(before.clock)
            } else {
                earlier
            }
        }
    }
}

/// A filter keeps a sequence whole when every entry passes.
proof fn lemma_filter_keeps_all(s: Seq<nat>, pred: spec_fn(nat) -> bool)
    requires
        forall|i: int| 0 <= i < s.len() ==> pred(s[i]),
    ensures
        s.filter(pred) == s,
    decreases s.len(),
{
    reveal(Seq::filter);
    if s.len() > 0 {
        lemma_filter_keeps_all(s.drop_last(), pred);
        assert(s.drop_last().push(s.last()) =~= s);
    }
}

/// Filtering twice by the same test is filtering once.
proof fn lemma_filter_twice(s: Seq<nat>, pred: spec_fn(nat) -> bool)
    ensures
        s.filter(pred).filter(pred) == s.filter(pred),
{
    let kept = s.filter(pred);
    assert forall|i: int| 0 <= i < kept.len() implies pred(kept[i]) by {
        s.lemma_filter_pred(pred, i);
    }
    lemma_filter_keeps_all(kept, pred);
}

/// What is within the window at a later time was within it at any earlier
/// time: dropping first what an earlier time has left behind loses nothing.
proof fn lemma_window_narrows(s: Seq<nat>, window_size: nat, earlier: nat, later: nat)
    requires
        earlier <= later,
    ensures
        s.filter(in_window(window_size, earlier)).filter(in_window(window_size, later))
            == s.filter(in_window(window_size, later)),
    decreases s.len(),
{
    reveal(Seq::filter);
    if s.len() > 0 {
        lemma_window_narrows(s.drop_last(), window_size, earlier, later);
        if in_window(window_size, earlier)(s.last()) {
            Seq::lemma_filter_push(
                s.drop_last().filter(in_window(window_size, earlier)),
                s.last(),
                in_window(window_size, later),
            );
        }
    }
}

/// In a log in order of time, what is within the window is the tail of the
/// log from the first entry that is within the window.
pub proof fn lemma_live_is_tail(log: Log) -> (first: int)
    requires
        ascending(log.times),
    ensures
        0 <= first <= log.times.len(),
        log.live() == log.times.subrange(first, log.times.len() as int),
        forall|i: int| 0 <= i < first ==> log.times[i] + log.window_size < log.clock,
        forall|i: int| first <= i < log.times.len() ==> log.times[i] + log.window_size >= log.clock,
    decreases log.times.len(),
{
    reveal(Seq::filter);
    let n = log.times.len() as int;
    if n == 0 {
        assert(log.live() =~= log.times.subrange(0, 0));
        0
    } else {
        let shorter = Log { times: log.times.drop_last(), ..log };
        let k = lemma_live_is_tail(shorter);
        assert forall|i: int| 0 <= i < n - 1 implies shorter.times[i] == log.times[i] by {}
        if in_window(log.window_size, log.clock)(log.times.last()) {
            assert(log.live() =~= log.times.subrange(k, n));
            k
        } else {
            assert(k == n - 1) by {
                if k < n - 1 {
                    assert(shorter.times[k] == log.times[k]);
                    assert(log.times[k] <= log.times[n - 1]);
                }
            }
            assert(log.live() =~= log.times.subrange(n, n));
            n
        }
    }
}

/// Each event leaves a well-formed log well-formed.
pub proof fn lemma_step_keeps_wf(log: Log, event: LogEvent)
    requires
        log.wf(),
    ensures
        log.step(event).wf(),
        log.step(event).capacity == log.capacity,
        log.step(event).window_size == log.window_size,
        log.step(event).clock >= log.clock,
{
    let first = lemma_live_is_tail(log);
    match event {
        LogEvent::Request(_) => {
            if log.admits() {
                let grown = log.live().push(log.clock);
                assert forall|i: int, j: int| 0 <= i <= j < grown.len() implies grown[i]
                    <= grown[j] by {
                    if j < log.live().len() {
                        assert(grown[i] == log.times[first + i]);
                        assert(grown[j] == log.times[first + j]);
                    } else if i < log.live().len() {
                        assert(grown[i] == log.times[first + i]);
                    }
                }
            }
        },
        _ => {},
    }
}

/// Whatever happens to the limiter, in whatever order, its log stays in
/// order of time and no longer than the capacity, and capacity and window
/// stay what they were.
pub proof fn law_log_within_capacity(log: Log, events: Seq<LogEvent>)
    requires
        log.wf(),
    ensures
        log.run(events).wf(),
        log.run(events).live().len() <= log.run(events).times.len() <= log.capacity,
        log.run(events).capacity == log.capacity,
        log.run(events).window_size == log.window_size,
        log.run(events).clock >= log.clock,
    decreases events.len(),
{
    if events.len() > 0 {
        law_log_within_capacity(log, events.drop_last());
        lemma_step_keeps_wf(log.run(events.drop_last()), events.last());
    }
    log.run(events).times.lemma_filter_len(
        in_window(log.run(events).window_size, log.run(events).clock),
    );
}

/// What a decision does to the admissions within the window: an admitted
/// request adds one, the current time, whatever its weight; a rejected one
/// changes nothing. Dropping what has expired changes nothing either. After
/// both, the log keeps nothing but the admissions within the window.
pub proof fn law_decision_takes_one_slot(log: Log)
    ensures
        log.decide().live() == (if log.admits() {
            log.live().push(log.clock)
        } else {
            log.live()
        }),
        log.expire().live() == log.live(),
        log.decide().times == log.decide().live(),
        log.expire().times == log.expire().live(),
{
    let pred = in_window(log.window_size, log.clock);
    lemma_filter_twice(log.times, pred);
    if log.admits() {
        Seq::lemma_filter_push(log.live(), log.clock, pred);
    }
}

/// After a decision, and after the maintenance activity has dropped what
/// has expired, every time that the log keeps is within the window.
pub proof fn law_kept_times_within_window(log: Log)
    ensures
        forall|i: int|
            0 <= i < log.expire().times.len() ==> #[trigger] log.expire().times[i]
                + log.window_size >= log.clock,
        forall|i: int|
            0 <= i < log.decide().times.len() ==> #[trigger] log.decide().times[i]
                + log.window_size >= log.clock,
{
    let pred = in_window(log.window_size, log.clock);
    assert forall|i: int| 0 <= i < log.live().len() implies pred(log.live()[i]) by {
        log.times.lemma_filter_pred(pred, i);
    }
}

/// At any moment, the admissions within the window are exactly the requests
/// admitted during the last `window_size` time units, one entry for each,
/// whatever their weights were.
pub proof fn law_window_holds_recent_admissions(log: Log, events: Seq<LogEvent>)
    requires
        log.times.len() == 0,
    ensures
        log.run(events).live() == log.admissions(events).filter(
            in_window(log.window_size, log.run(events).clock),
        ),
        log.run(events).window_size == log.window_size,
        log.run(events).clock >= log.clock,
    decreases events.len(),
{
    reveal(Seq::filter);
    if events.len() > 0 {
        let before = log.run(events.drop_last());
        let earlier = log.admissions(events.drop_last());
        let after = log.run(events);
        law_window_holds_recent_admissions(log, events.drop_last());
        let wide = in_window(log.window_size, before.clock);
        let narrow = in_window(log.window_size, after.clock);
        law_decision_takes_one_slot(before);
        match events.last() {
            LogEvent::Clock(now) => {
                lemma_window_narrows(before.times, log.window_size, before.clock, after.clock);
                lemma_window_narrows(earlier, log.window_size, before.clock, after.clock);
            },
            LogEvent::Request(_) => {
                if before.admits() {
                    Seq::lemma_filter_push(earlier, before.clock, wide);
                }
            },
            LogEvent::Expire => {},
            LogEvent::Cleanup => {},
        }
    }
}

/// A stopped limiter stays stopped, whatever happens to it.
pub proof fn law_stopped_stays_stopped(log: Log, events: Seq<LogEvent>)
    requires
        log.stopped,
    ensures
        log.run(events).stopped,
    decreases events.len(),
{
    if events.len() > 0 {
        law_stopped_stays_stopped(log, events.drop_last());
    }
}

/// A rejected request changes nothing in a log that is in order: there was
/// nothing to drop, or the request would have found room.
pub proof fn law_rejection_changes_nothing(log: Log)
    requires
        log.wf(),
        !log.admits(),
    ensures
        log.decide() == log,
{
    let first = lemma_live_is_tail(log);
    assert(log.live() =~= log.times);
}

/// A request to stop changes no decision: the same requests are admitted
/// before and after it, with the same effect on the log.
pub proof fn law_stop_keeps_decisions(log: Log)
    ensures
        log.stop().times == log.times,
        log.stop().admits() == log.admits(),
        log.stop().decide() == log.decide().stop(),
        log.stop().stop() == log.stop(),
{
}

/// The times of a log as numbers.
pub open spec fn as_nats(times: Seq<u64>) -> Seq<nat> {
    times.map_values(|t: u64| t as nat)
}

/// Whether an admission at time `t` is older than the window at time
/// `clock`.
fn expired(t: u64, window_size: u64, clock: u64) -> (gone: bool)
    ensures
        gone == !in_window(window_size as nat, clock as nat)(t as nat),
{
    t < clock && clock - t > window_size
}

/// A log of admission times, oldest first. A request is admitted while the
/// window before the current time holds fewer admissions than the capacity.
pub struct SlidingWindow {
    capacity: u64,
    window_size: u64,
    clock: u64,
    timestamps: VecDeque<u64>,
    stop: bool,
}

impl View for SlidingWindow {
    type V = Log;

    closed spec fn view(&self) -> Log {
        Log {
            capacity: self.capacity as nat,
            window_size: self.window_size as nat,
            clock: self.clock as nat,
            times: as_nats(self.timestamps@),
            stopped: self.stop,
        }
    }
}

impl SlidingWindow {
    #[verifier::type_invariant]
    spec fn inv(self) -> bool {
        &&& self.timestamps@.len() <= self.capacity
        &&& forall|i: int, j: int|
            0 <= i <= j < self.timestamps@.len() ==> self.timestamps@[i] <= self.timestamps@[j]
        &&& forall|i: int| 0 <= i < self.timestamps@.len() ==> self.timestamps@[i] <= self.clock
    }

    /// A limiter with an empty log, at time zero, that admits up to
    /// `capacity` requests in any window of `window_size` time units.
    pub fn new(capacity: u64, window_size: u64) -> (limiter: Self)
        ensures
            limiter@ == Log::fresh(capacity as nat, window_size as nat),
            limiter@.wf(),
    {
        let limiter = SlidingWindow {
            capacity,
            window_size,
            clock: 0,
            timestamps: VecDeque::new(),
            stop: false,
        };
        assert(limiter@.times =~= Seq::<nat>::empty());
        limiter
    }

    /// Tells the limiter the time. The clock moves forward to `now`; a
    /// reading older than the clock is ignored.
    pub fn advance(&mut self, now: u64)
        ensures
            final(self)@ == old(self)@.advance(now as nat),
            final(self)@.wf(),
    {
        proof {
            use_type_invariant(&*self);
        }
        if now > self.clock {
            self.clock = now;
        }
    }

    /// The head of the maintenance loop: `Exit` once the limiter was stopped,
    /// else a sleep of half a window, after which `expire` is due.
    pub fn schedule(&self) -> (step: Step)
        ensures
            step == (if self@.stopped {
                Step::Exit
            } else {
                Step::Sleep((self@.window_size / 2) as u64)
            }),
    {
        if self.stop {
            Step::Exit
        } else {
            Step::Sleep(self.window_size / 2)
        }
    }

    /// Drops from the log what is older than the window at the current time.
    pub fn expire(&mut self)
        ensures
            final(self)@ == old(self)@.expire(),
            final(self)@.wf(),
    {
        proof {
            use_type_invariant(&*self);
        }
        let ghost start = self@;
        // The log is taken out of the limiter while its head is cut off.
        let mut log: VecDeque<u64> = VecDeque::new();
        core::mem::swap(&mut self.timestamps, &mut log);
        let ghost before = log@;
        let ghost mut dropped: int = 0;
        while log.len() > 0 && expired(log[0], self.window_size, self.clock)
            invariant
                0 <= dropped <= before.len(),
                log@ == before.subrange(dropped, before.len() as int),
                forall|i: int| 0 <= i < dropped ==> before[i] + self.window_size < self.clock,
            decreases log@.len(),
        {
            log.pop_front();
            proof {
                dropped = dropped + 1;
            }
        }
        proof {
            let first = lemma_live_is_tail(start);
            if dropped < before.len() {
                assert(log@[0] == before[dropped]);
                assert(start.times[dropped] == before[dropped] as nat);
            }
            if first < dropped {
                assert(start.times[first] == before[first] as nat);
            }
            assert(first == dropped);
            assert(as_nats(log@) =~= start.times.subrange(first, start.times.len() as int));
        }
        core::mem::swap(&mut self.timestamps, &mut log);
    }

    /// The most admissions that one window holds.
    pub fn capacity(&self) -> (capacity: u64)
        ensures
            capacity == self@.capacity,
    {
        self.capacity
    }

    /// The length of the window, in time units.
    pub fn window_size(&self) -> (window_size: u64)
        ensures
            window_size == self@.window_size,
    {
        self.window_size
    }

    /// The latest time the limiter was told.
    pub fn now(&self) -> (now: u64)
        ensures
            now == self@.clock,
    {
        self.clock
    }

    /// The admission times that the log keeps, oldest first.
    pub fn timestamps(&self) -> (times: Vec<u64>)
        ensures
            as_nats(times@) == self@.times,
            times@.len() <= self@.capacity,
    {
        proof {
            use_type_invariant(self);
        }
        let mut times: Vec<u64> = Vec::new();
        let mut i: usize = 0;
        while i < self.timestamps.len()
            invariant
                0 <= i <= self.timestamps@.len(),
                times@ == self.timestamps@.subrange(0, i as int),
            decreases self.timestamps@.len() - i,
        {
            times.push(self.timestamps[i]);
            proof {
                assert(times@ =~= self.timestamps@.subrange(0, i + 1));
            }
            i = i + 1;
        }
        proof {
            assert(times@ =~= self.timestamps@);
        }
        times
    }

    /// Whether the maintenance activity has been asked to end.
    pub fn is_stopped(&self) -> (stopped: bool)
        ensures
            stopped == self@.stopped,
    {
        self.stop
    }
}

impl RateLimiter for SlidingWindow {
    open spec fn limit(&self) -> nat {
        self@.capacity
    }

    open spec fn in_use(&self) -> nat {
        self@.live().len()
    }

    open spec fn cost(&self, weight: u64) -> nat {
        1
    }

    open spec fn stopped(&self) -> bool {
        self@.stopped
    }

    fn is_rate_limited(&mut self, weight: u64) -> (admitted: bool)
        ensures
            admitted == old(self)@.admits(),
            final(self)@ == old(self)@.decide(),
            final(self)@.wf(),
    {
        let ghost start = self@;
        proof {
            use_type_invariant(&*self);
            assert(start.wf());
        }
        self.expire();
        proof {
            use_type_invariant(&*self);
            law_decision_takes_one_slot(start);
            lemma_step_keeps_wf(start, LogEvent::Request(weight as nat));
        }
        if (self.timestamps.len() as u64) < self.capacity {
            let mut log: VecDeque<u64> = VecDeque::new();
            core::mem::swap(&mut self.timestamps, &mut log);
            let ghost kept = log@;
            log.push_back(self.clock);
            proof {
                assert(as_nats(kept.push(self.clock)) =~= as_nats(kept).push(self.clock as nat));
            }
            core::mem::swap(&mut self.timestamps, &mut log);
            true
        } else {
            false
        }
    }

    fn cleanup(&mut self)
        ensures
            final(self)@ == old(self)@.stop(),
            final(self)@.wf(),
    {
        proof {
            use_type_invariant(&*self);
        }
        self.stop = true;
    }
}

} // verus!
