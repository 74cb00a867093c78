//! The bookkeeping of a load simulation.
//!
//! A simulation follows a plan: for each second, how many requests of weight
//! one to issue, evenly spaced. The caller issues the requests, sleeps, and
//! reports each outcome here; this module says what to do next and keeps the
//! count of admitted and rejected requests for each second.

use vstd::prelude::*;
use vstd::slice::slice_to_vec;

verus! {

/// What the caller of a simulation does next.
#[derive(Clone, Copy, Debug, PartialEq, Eq, Structural)]
pub enum Action {
    /// Ask the limiter for one admission of weight one, `record` the answer,
    /// then pause for this many milliseconds.
    Request(u64),
    /// The plan is done: stop the limiter and take the tallies.
    Finish,
}

/// The state of a simulation, as mathematics.
pub struct Tally {
    /// The number of requests to issue in each second.
    pub plan: Seq<u64>,
    /// The admitted requests of each second that is complete.
    pub allowed: Seq<u64>,
    /// The rejected requests of each second that is complete.
    pub denied: Seq<u64>,
    /// The admitted requests of the second in progress.
    pub allowed_now: nat,
    /// The rejected requests of the second in progress.
    pub denied_now: nat,
}

impl Tally {
    /// The second in progress, counted from zero.
    pub open spec fn second(self) -> nat {
        self.allowed.len()
    }

    /// How many requests of the second in progress have been answered.
    pub open spec fn issued(self) -> nat {
        self.allowed_now + self.denied_now
    }

    /// Every complete second accounts for each of its requests, and the
    /// second in progress has not gone beyond the plan.
    pub open spec fn wf(self) -> bool {
        &&& self.allowed.len() == self.denied.len()
        &&& self.second() <= self.plan.len()
        &&& forall|i: int|
            0 <= i < self.second() ==> self.allowed[i] + self.denied[i] == self.plan[i]
        &&& self.second() < self.plan.len() ==> self.issued() <= self.plan[self.second() as int]
        &&& self.second() == self.plan.len() ==> self.issued() == 0
    }

    /// The state before the first request.
    pub open spec fn fresh(plan: Seq<u64>) -> Tally {
        Tally { plan, allowed: Seq::empty(), denied: Seq::empty(), allowed_now: 0, denied_now: 0 }
    }

    /// Whether the second in progress still has a request to issue.
    pub open spec fn pending(self) -> bool {
        self.second() < self.plan.len() && self.issued() < self.plan[self.second() as int]
    }

    /// Whether every second of the plan is complete.
    pub open spec fn finished(self) -> bool {
        self.second() >= self.plan.len()
    }

    /// The state after the outcome of one request was reported. An outcome
    /// that no request is pending for is not counted.
    pub open spec fn record(self, admitted: bool) -> Tally {
        if !self.pending() {
            self
        } else if admitted {
            Tally { allowed_now: self.allowed_now + 1, ..self }
        } else {
            Tally { denied_now: self.denied_now + 1, ..self }
        }
    }

    /// The state after the second in progress was closed: its counts join the
    /// tallies and the next second starts at zero.
    pub open spec fn close(self) -> Tally {
        Tally {
            allowed: self.allowed.push(self.allowed_now as u64),
            denied: self.denied.push(self.denied_now as u64),
            allowed_now: 0,
            denied_now: 0,
            ..self
        }
    }

    /// The state after every second that has all its answers was closed.
    pub open spec fn settle(self) -> Tally
        decreases self.plan.len() - self.second(),
    {
        if !self.finished() && !self.pending() {
            self.close().settle()
        } else {
            self
        }
    }

    /// What to do in a settled state: with a request pending, issue it and
    /// pause for the second's share of 1000 milliseconds; else finish.
    pub open spec fn action(self) -> Action {
        if self.pending() {
            Action::Request((1000u64 / self.plan[self.second() as int]) as u64)
        } else {
            Action::Finish
        }
    }
}

/// Settling leaves a state with a request pending, or one that is finished,
/// and keeps the tallies in order. Once finished, every second of the plan
/// has its two counts, and they add up to the requests of that second.
pub proof fn law_settled_accounts_for_plan(tally: Tally)
    requires
        tally.wf(),
    ensures
        tally.settle().wf(),
        tally.settle().plan == tally.plan,
        tally.settle().pending() != tally.settle().finished(),
        tally.settle().finished() ==> {
            &&& tally.settle().allowed.len() == tally.plan.len()
            &&& tally.settle().denied.len() == tally.plan.len()
            &&& forall|i: int|
                0 <= i < tally.plan.len() ==> tally.settle().allowed[i] + tally.settle().denied[i]
                    == tally.plan[i]
        },
    decreases tally.plan.len() - tally.second(),
{
    if !tally.finished() && !tally.pending() {
        law_settled_accounts_for_plan(tally.close());
    }
}

/// A simulation in progress: the plan, the tallies of the seconds that are
/// complete, and the counts of the second in progress.
pub struct Simulation {
    requests_per_second: Vec<u64>,
    allowed: Vec<u64>,
    denied: Vec<u64>,
    allowed_count: u64,
    denied_count: u64,
}

impl View for Simulation {
    type V = Tally;

    closed spec fn view(&self) -> Tally {
        Tally {
            plan: self.requests_per_second@,
            allowed: self.allowed@,
            denied: self.denied@,
            allowed_now: self.allowed_count as nat,
            denied_now: self.denied_count as nat,
        }
    }
}

impl Simulation {
    #[verifier::type_invariant]
    spec fn inv(self) -> bool {
        self@.wf()
    }

    /// A simulation that has yet to issue the first request of its plan.
    pub fn new(requests_per_second: &[u64]) -> (simulation: Self)
        ensures
            simulation@ == Tally::fresh(requests_per_second@),
            simulation@.wf(),
    {
        Simulation {
            requests_per_second: slice_to_vec(requests_per_second),
            allowed: Vec::new(),
            denied: Vec::new(),
            allowed_count: 0,
            denied_count: 0,
        }
    }

    /// Closes every second that has all its answers and says what to do
    /// next.
    pub fn next_action(&mut self) -> (action: Action)
        ensures
            final(self)@ == old(self)@.settle(),
            final(self)@.wf(),
            action == final(self)@.action(),
            action is Finish <==> final(self)@.finished(),
    {
        proof {
            use_type_invariant(&*self);
            law_settled_accounts_for_plan(self@);
        }
        let ghost start = self@;
        // The state is taken out while a second is being closed.
        let mut taken = Simulation::new(&[]);
        core::mem::swap(self, &mut taken);
        let Simulation { requests_per_second, mut allowed, mut denied, mut allowed_count, mut denied_count } = taken;
        while allowed.len() < requests_per_second.len() && allowed_count + denied_count
            == requests_per_second[allowed.len()]
            invariant
                requests_per_second@ == start.plan,
                (Tally {
                    plan: requests_per_second@,
                    allowed: allowed@,
                    denied: denied@,
                    allowed_now: allowed_count as nat,
                    denied_now: denied_count as nat,
                }).wf(),
                (Tally {
                    plan: requests_per_second@,
                    allowed: allowed@,
                    denied: denied@,
                    allowed_now: allowed_count as nat,
                    denied_now: denied_count as nat,
                }).settle() == start.settle(),
            decreases requests_per_second@.len() - allowed@.len(),
        {
            allowed.push(allowed_count);
            denied.push(denied_count);
            allowed_count = 0;
            denied_count = 0;
        }
        let action = if allowed.len() < requests_per_second.len() {
            Action::Request(1000 / requests_per_second[allowed.len()])
        } else {
            Action::Finish
        };
        *self = Simulation { requests_per_second, allowed, denied, allowed_count, denied_count };
        action
    }

    /// Counts the outcome of the request that was just issued. An outcome
    /// that no request is pending for is not counted.
    pub fn record(&mut self, admitted: bool)
        ensures
            final(self)@ == old(self)@.record(admitted),
            final(self)@.wf(),
    {
        proof {
            use_type_invariant(&*self);
        }
        let second: usize = self.allowed.len();
        if second < self.requests_per_second.len() && self.allowed_count + self.denied_count
            < self.requests_per_second[second] {
            if admitted {
                self.allowed_count = self.allowed_count + 1;
            } else {
                self.denied_count = self.denied_count + 1;
            }
        }
    }

    /// The admitted requests of each complete second.
    pub fn allowed(&self) -> (allowed: &Vec<u64>)
        ensures
            allowed@ == self@.allowed,
    {
        &self.allowed
    }

    /// The rejected requests of each complete second.
    pub fn denied(&self) -> (denied: &Vec<u64>)
        ensures
            denied@ == self@.denied,
    {
        &self.denied
    }
}

} // verus!
