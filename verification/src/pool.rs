//! The bounded worker pool discipline of the fetch stage: one task per
//! record, at most `max_parallel` of them in flight at once. The driver asks
//! `try_start` before launching a task and reports back through `finish`;
//! the contracts keep the in-flight count under the bound at every step and
//! make "all tasks complete" the only point where the batch may be judged.

use vstd::prelude::*;

verus! {

/// How many downloads may be in flight at once when the caller does not
/// choose a bound.
pub const DEFAULT_MAX_PARALLEL: usize = 5;

/// Scheduling state of one fetch batch: how many tasks still wait for a
/// permit, run right now, and have completed either way.
pub struct FetchPool {
    /// Number of records in the batch.
    pub total: usize,
    /// Upper bound on simultaneously running tasks.
    pub max_parallel: usize,
    /// Tasks not yet started.
    pub pending: usize,
    /// Tasks currently holding a permit.
    pub in_flight: usize,
    /// Tasks that completed successfully.
    pub succeeded: usize,
    /// Tasks that completed with a failure.
    pub failed: usize,
}

impl FetchPool {
    /// The pool invariant: the concurrency bound is positive and respected,
    /// and every task of the batch is accounted for exactly once.
    pub open spec fn wf(self) -> bool {
        &&& self.max_parallel >= 1
        &&& self.in_flight <= self.max_parallel
        &&& self.pending + self.in_flight + self.succeeded + self.failed == self.total
    }

    /// A fresh pool for `total` records under bound `max_parallel`: nothing
    /// started, nothing completed.
    pub fn new(total: usize, max_parallel: usize) -> (p: FetchPool)
        requires
            max_parallel >= 1,
        ensures
            p.wf(),
            p.total == total,
            p.max_parallel == max_parallel,
            p.pending == total,
            p.in_flight == 0,
            p.succeeded == 0,
            p.failed == 0,
    {
        FetchPool { total, max_parallel, pending: total, in_flight: 0, succeeded: 0, failed: 0 }
    }

    /// Asks for a permit to launch the next task. A task starts exactly when
    /// one is still pending and a permit is free; otherwise the pool is
    /// unchanged and the driver must wait for a completion. The bound is
    /// never exceeded.
    pub fn try_start(&mut self) -> (started: bool)
        requires
            old(self).wf(),
        ensures
            final(self).wf(),
            started <==> (old(self).pending > 0 && old(self).in_flight < old(self).max_parallel),
            final(self).total == old(self).total,
            final(self).max_parallel == old(self).max_parallel,
            final(self).succeeded == old(self).succeeded,
            final(self).failed == old(self).failed,
            started ==> final(self).pending == old(self).pending - 1 && final(self).in_flight == old(
                self,
            ).in_flight + 1,
            !started ==> *final(self) == *old(self),
    {
        if self.pending > 0 && self.in_flight < self.max_parallel {
            self.pending = self.pending - 1;
            self.in_flight = self.in_flight + 1;
            true
        } else {
            false
        }
    }

    /// A running task completed and its permit is released; the outcome is
    /// tallied on the side it belongs to.
    pub fn finish(&mut self, ok: bool)
        requires
            old(self).wf(),
            old(self).in_flight > 0,
        ensures
            final(self).wf(),
            final(self).total == old(self).total,
            final(self).max_parallel == old(self).max_parallel,
            final(self).pending == old(self).pending,
            final(self).in_flight == old(self).in_flight - 1,
            ok ==> final(self).succeeded == old(self).succeeded + 1 && final(self).failed == old(
                self,
            ).failed,
            !ok ==> final(self).failed == old(self).failed + 1 && final(self).succeeded == old(
                self,
            ).succeeded,
    {
        self.in_flight = self.in_flight - 1;
        if ok {
            self.succeeded = self.succeeded + 1;
        } else {
            self.failed = self.failed + 1;
        }
    }

    /// Every task of the batch has completed: only then may the aggregated
    /// outcome be reported, so no straggler is still writing.
    pub fn all_done(&self) -> (done: bool)
        ensures
            done <==> (self.pending == 0 && self.in_flight == 0),
    {
        self.pending == 0 && self.in_flight == 0
    }
}

/// The concurrency bound holds at every reachable state: a well-formed pool
/// never has more tasks in flight than `max_parallel`, and every operation
/// above returns a well-formed pool.
pub proof fn lemma_concurrency_bounded(p: FetchPool)
    requires
        p.wf(),
    ensures
        p.in_flight <= p.max_parallel,
{
}

} // verus!
