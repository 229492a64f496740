//! Bounded dispatch: hands out units of work one by one, never letting more
//! than a fixed number run at once.

use vstd::prelude::*;

verus! {

/// Which of `total` units have been started, are running, and have finished,
/// under a cap of `limit` running at once. Units start in index order.
#[derive(Debug, Clone, Copy, PartialEq, Eq, Structural)]
pub struct Dispatcher {
    /// Number of units.
    pub total: usize,
    /// Most units that may run at once.
    pub limit: usize,
    /// Units started so far: those with index below this.
    pub started: usize,
    /// Units started and not yet finished.
    pub running: usize,
    /// Units finished.
    pub finished: usize,
}

impl Dispatcher {
    /// The counts agree with one another and respect the cap.
    pub open spec fn wf(&self) -> bool {
        &&& self.limit >= 1
        &&& self.started <= self.total
        &&& self.running + self.finished == self.started
        &&& self.running <= self.limit
    }

    /// Nothing started yet, `total` units, at most `limit` at once.
    pub fn new(total: usize, limit: usize) -> (r: Dispatcher)
        requires
            limit >= 1,
        ensures
            r.wf(),
            r == (Dispatcher { total, limit, started: 0, running: 0, finished: 0 }),
    {
        Dispatcher { total, limit, started: 0, running: 0, finished: 0 }
    }

    /// Starts the next unit if one is left and the cap allows, returning its index.
    pub fn start_next(&mut self) -> (r: Option<usize>)
        requires
            old(self).wf(),
        ensures
            final(self).wf(),
            final(self).total == old(self).total,
            final(self).limit == old(self).limit,
            final(self).finished == old(self).finished,
            old(self).running < old(self).limit && old(self).started < old(self).total ==> r == Some(
                old(self).started,
            ) && final(self).started == old(self).started + 1 && final(self).running == old(
                self,
            ).running + 1,
            !(old(self).running < old(self).limit && old(self).started < old(self).total) ==> r
                is None && *final(self) == *old(self),
    {
        if self.running < self.limit && self.started < self.total {
            let i = self.started;
            self.started = self.started + 1;
            self.running = self.running + 1;
            Some(i)
        } else {
            None
        }
    }

    /// Records that one running unit has finished.
    pub fn finish_one(&mut self)
        requires
            old(self).wf(),
            old(self).running > 0,
        ensures
            final(self).wf(),
            final(self).total == old(self).total,
            final(self).limit == old(self).limit,
            final(self).started == old(self).started,
            final(self).running == old(self).running - 1,
            final(self).finished == old(self).finished + 1,
    {
        self.running = self.running - 1;
        self.finished = self.finished + 1;
    }

    /// Whether every unit has finished.
    pub fn all_done(&self) -> (r: bool)
        ensures
            r == (self.finished == self.total),
    {
        self.finished == self.total
    }
}

/// In every consistent state no more than `limit` units run at once, and once
/// every unit has finished, all were started and none is still running: work
/// that waits for completion never overlaps a running unit.
pub proof fn lemma_dispatch_bounds(d: Dispatcher)
    requires
        d.wf(),
    ensures
        d.running <= d.limit,
        d.finished <= d.total,
        d.finished == d.total ==> d.running == 0 && d.started == d.total,
{
}

} // verus!
