//! The bounded-concurrency, fail-fast segment batch coordinator.
//!
//! The coordinator decides; the caller performs the fetches.  At most `limit`
//! units are in flight at once, a permit is issued only while no failure has
//! been observed, progress advances exactly on success, and after the first
//! failure the batch only drains.

use vstd::prelude::*;

verus! {

/// The coordinator's state: how many units the batch has, how many permits
/// were issued, how many units finished (either way), how many succeeded,
/// and whether a fatal failure has been observed.
#[derive(Debug, Clone, Copy, PartialEq, Eq, Structural)]
pub struct BatchState {
    pub total: usize,
    pub launched: usize,
    pub finished: usize,
    pub completed: usize,
    pub failed: bool,
    pub limit: usize,
}

/// What the coordinator tells the caller to do next.
#[derive(Debug, Clone, Copy, PartialEq, Eq, Structural)]
pub enum BatchAction {
    /// Issue a permit and start the unit with this index.
    Launch(usize),
    /// Wait for an in-flight unit to finish.
    Wait,
    /// Every unit succeeded.
    Done,
    /// A failure was observed and the batch has drained.
    Aborted,
}

impl BatchState {
    /// How many units hold a permit right now.
    pub open spec fn in_flight(self) -> int {
        self.launched - self.finished
    }

    /// The coordinator's invariant: the counters are consistent and the
    /// concurrency bound holds.
    pub open spec fn wf(self) -> bool {
        &&& self.limit >= 1
        &&& self.finished <= self.launched <= self.total
        &&& self.completed <= self.finished
        &&& self.launched - self.finished <= self.limit
    }

    /// A fresh batch: nothing launched, nothing finished, no failure.
    pub fn new(total: usize, limit: usize) -> (r: Self)
        requires
            limit >= 1,
        ensures
            r.wf(),
            r == (BatchState { total, launched: 0, finished: 0, completed: 0, failed: false, limit }),
    {
        BatchState { total, launched: 0, finished: 0, completed: 0, failed: false, limit }
    }

    /// The decision rule: drain after a failure, launch the next unit while
    /// permits and units remain, wait on in-flight work, finish when done.
    pub open spec fn next_action_of(self) -> BatchAction {
        if self.failed {
            if self.in_flight() == 0 {
                BatchAction::Aborted
            } else {
                BatchAction::Wait
            }
        } else if self.launched < self.total && self.in_flight() < self.limit {
            BatchAction::Launch(self.launched)
        } else if self.in_flight() > 0 {
            BatchAction::Wait
        } else {
            BatchAction::Done
        }
    }

    /// Decides what to do next.  Once a failure has been observed, the
    /// decision is never to launch: no new permit after the first error.
    pub fn next_action(&self) -> (a: BatchAction)
        requires
            self.wf(),
        ensures
            a == self.next_action_of(),
            self.failed ==> !(a is Launch),
            a matches BatchAction::Launch(i) ==> i == self.launched && self.launched < self.total,
    {
        if self.failed {
            if self.launched == self.finished {
                BatchAction::Aborted
            } else {
                BatchAction::Wait
            }
        } else if self.launched < self.total && self.launched - self.finished < self.limit {
            BatchAction::Launch(self.launched)
        } else if self.launched > self.finished {
            BatchAction::Wait
        } else {
            BatchAction::Done
        }
    }

    /// Records that the unit a `Launch` decision named was started.
    pub fn on_launched(&mut self)
        requires
            old(self).wf(),
            old(self).next_action_of() is Launch,
        ensures
            final(self).wf(),
            *final(self) == (BatchState { launched: (old(self).launched + 1) as usize, ..*old(self) }),
    {
        self.launched = self.launched + 1;
    }

    /// The state after one unit finishes successfully.
    pub open spec fn after_success(self) -> BatchState {
        BatchState {
            finished: (self.finished + 1) as usize,
            completed: (self.completed + 1) as usize,
            ..self
        }
    }

    /// The state after one unit fails fatally.
    pub open spec fn after_failure(self) -> BatchState {
        BatchState { finished: (self.finished + 1) as usize, failed: true, ..self }
    }

    /// Records a successful unit: its permit returns and progress advances
    /// by exactly one.
    pub fn on_success(&mut self)
        requires
            old(self).wf(),
            old(self).in_flight() > 0,
        ensures
            final(self).wf(),
            *final(self) == old(self).after_success(),
    {
        self.finished = self.finished + 1;
        self.completed = self.completed + 1;
    }

    /// Records a failed unit: its permit returns, progress does not advance,
    /// and the failure is latched.
    pub fn on_failure(&mut self)
        requires
            old(self).wf(),
            old(self).in_flight() > 0,
        ensures
            final(self).wf(),
            *final(self) == old(self).after_failure(),
    {
        self.finished = self.finished + 1;
        self.failed = true;
    }

    /// The progress counter: successfully completed units.
    pub fn progress(&self) -> (r: usize)
        ensures
            r == self.completed,
    {
        self.completed
    }
}

/// A completion event: true for a success, false for a failure.
pub open spec fn after_event(s: BatchState, ok: bool) -> BatchState {
    if ok {
        s.after_success()
    } else {
        s.after_failure()
    }
}

/// The state after a sequence of completion events.
pub open spec fn after_events(s: BatchState, evs: Seq<bool>) -> BatchState
    decreases evs.len(),
{
    if evs.len() == 0 {
        s
    } else {
        after_events(after_event(s, evs[0]), evs.subrange(1, evs.len() as int))
    }
}

/// Fail-fast: once a failure has been observed, whatever the units still in
/// flight do, the failure stays latched, no further permit is ever issued,
/// and at most the units already in flight — at most the concurrency bound —
/// can still complete.
pub proof fn lemma_fail_fast(s: BatchState, evs: Seq<bool>)
    requires
        s.wf(),
        s.failed,
        evs.len() <= s.in_flight(),
    ensures
        after_events(s, evs).wf(),
        after_events(s, evs).failed,
        after_events(s, evs).launched == s.launched,
        !(after_events(s, evs).next_action_of() is Launch),
        after_events(s, evs).completed - s.completed <= s.in_flight(),
        after_events(s, evs).completed - s.completed <= s.limit,
    decreases evs.len(),
{
    if evs.len() > 0 {
        let t = after_event(s, evs[0]);
        lemma_fail_fast(t, evs.subrange(1, evs.len() as int));
    }
}

} // verus!
