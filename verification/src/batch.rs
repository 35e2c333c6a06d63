//! The bookkeeping of a batch: how many files may be in flight at once,
//! which file starts next, and how many were written or skipped.

use crate::error::ExtractionError;
use vstd::prelude::*;

verus! {

/// What the caller of a batch does next.
#[derive(Clone, Copy, Debug, PartialEq, Eq, Structural)]
pub enum BatchAction {
    /// Start the file with this index.
    Start(usize),
    /// Wait for a file in flight to finish.
    Wait,
    /// Every file has finished.
    Done,
    /// Files are left, none is in flight and none may start: the limit is
    /// zero.
    Stalled,
}

/// What became of the files of a batch.
#[derive(Clone, Copy, Debug, PartialEq, Eq, Structural)]
pub struct BatchReport {
    /// Files whose JPEG was written.
    pub written: usize,
    /// Files that were skipped with an error.
    pub failed: usize,
}

/// The bookkeeping of a batch of `total` files of which at most `limit` are
/// in flight at a time. Files start in the order of their index.
#[derive(Clone, Copy, Debug, PartialEq, Eq, Structural)]
pub struct Batch {
    pub total: usize,
    pub limit: usize,
    pub started: usize,
    pub finished: usize,
    pub failed: usize,
}

impl Batch {
    /// Number of files that have started and not finished.
    pub open spec fn in_flight(self) -> int {
        self.started - self.finished
    }

    /// The invariant of a batch: never more than `limit` files in flight,
    /// no more finished than started, started than there are, or failed than
    /// finished.
    pub open spec fn wf(self) -> bool {
        &&& self.failed <= self.finished <= self.started <= self.total
        &&& self.in_flight() <= self.limit
    }

    /// The batch before any file has started.
    pub open spec fn fresh(total: usize, limit: usize) -> Batch {
        Batch { total, limit, started: 0, finished: 0, failed: 0 }
    }

    /// Whether another file may start now.
    pub open spec fn can_start(self) -> bool {
        self.started < self.total && self.in_flight() < self.limit
    }

    /// What the caller does next in this state.
    pub open spec fn action(self) -> BatchAction {
        if self.can_start() {
            BatchAction::Start(self.started)
        } else if self.in_flight() > 0 {
            BatchAction::Wait
        } else if self.started == self.total {
            BatchAction::Done
        } else {
            BatchAction::Stalled
        }
    }

    /// The batch after one more file has started, unchanged where none may.
    pub open spec fn after_start(self) -> Batch {
        if self.can_start() {
            Batch { started: (self.started + 1) as usize, ..self }
        } else {
            self
        }
    }

    /// The batch after a file in flight has finished, well (`ok`) or not;
    /// unchanged where none is in flight.
    pub open spec fn after_finish(self, ok: bool) -> Batch {
        if self.in_flight() > 0 {
            Batch {
                finished: (self.finished + 1) as usize,
                failed: if ok {
                    self.failed
                } else {
                    (self.failed + 1) as usize
                },
                ..self
            }
        } else {
            self
        }
    }

    /// The report of the batch in this state.
    pub open spec fn tally(self) -> BatchReport {
        BatchReport { written: (self.finished - self.failed) as usize, failed: self.failed }
    }

    /// A batch of `total` files, at most `limit` of them in flight at a time.
    pub fn new(total: usize, limit: usize) -> (r: Batch)
        ensures
            r == Batch::fresh(total, limit),
            r.wf(),
    {
        Batch { total, limit, started: 0, finished: 0, failed: 0 }
    }

    /// Checks the invariant of a batch, for a caller that got the value from
    /// elsewhere.
    pub fn is_well_formed(&self) -> (r: bool)
        ensures
            r == self.wf(),
    {
        self.failed <= self.finished && self.finished <= self.started && self.started
            <= self.total && self.started - self.finished <= self.limit
    }

    /// Says what to do next.
    pub fn next_action(&self) -> (r: BatchAction)
        requires
            self.wf(),
        ensures
            r == self.action(),
    {
        if self.started < self.total && self.started - self.finished < self.limit {
            BatchAction::Start(self.started)
        } else if self.started > self.finished {
            BatchAction::Wait
        } else if self.started == self.total {
            BatchAction::Done
        } else {
            BatchAction::Stalled
        }
    }

    /// Takes one unit of the limit for the next file and returns the file's
    /// index; `None`, and nothing changed, where the limit is used up or no
    /// file is left.
    pub fn start(&mut self) -> (r: Option<usize>)
        requires
            old(self).wf(),
        ensures
            final(self).wf(),
            *final(self) == old(self).after_start(),
            r == if old(self).can_start() {
                Some(old(self).started)
            } else {
                None
            },
    {
        if self.started < self.total && self.started - self.finished < self.limit {
            let index: usize = self.started;
            self.started = self.started + 1;
            Some(index)
        } else {
            None
        }
    }

    /// Gives back the unit of a file that has finished and counts its
    /// result. Returns whether a file was in flight; nothing changes where
    /// none was.
    pub fn finish(&mut self, result: Result<(), ExtractionError>) -> (r: bool)
        requires
            old(self).wf(),
        ensures
            final(self).wf(),
            *final(self) == old(self).after_finish(result is Ok),
            r == (old(self).in_flight() > 0),
    {
        if self.started > self.finished {
            self.finished = self.finished + 1;
            if result.is_err() {
                self.failed = self.failed + 1;
            }
            true
        } else {
            false
        }
    }

    /// Whether every file has finished.
    pub fn is_done(&self) -> (r: bool)
        requires
            self.wf(),
        ensures
            r == (self.finished == self.total),
    {
        self.finished == self.total
    }

    /// How many files were written and how many were skipped so far.
    pub fn report(&self) -> (r: BatchReport)
        requires
            self.wf(),
        ensures
            r == self.tally(),
    {
        BatchReport { written: self.finished - self.failed, failed: self.failed }
    }
}

impl BatchReport {
    /// Whether some file of the batch was skipped with an error.
    pub fn is_partial_failure(&self) -> (r: bool)
        ensures
            r == (self.failed > 0),
    {
        self.failed > 0
    }
}

/// One step of a batch: a file starts, or a file finishes well or not.
pub enum BatchStep {
    Start,
    Finish(bool),
}

/// The batch after a sequence of steps, each applied as `start` and `finish`
/// apply it.
pub open spec fn batch_after(batch: Batch, steps: Seq<BatchStep>) -> Batch
    decreases steps.len(),
{
    if steps.len() == 0 {
        batch
    } else {
        let before = batch_after(batch, steps.drop_last());
        match steps.last() {
            BatchStep::Start => before.after_start(),
            BatchStep::Finish(ok) => before.after_finish(ok),
        }
    }
}

/// Number of files that finished with an error in the course of `steps`.
pub open spec fn failures_in(batch: Batch, steps: Seq<BatchStep>) -> int
    decreases steps.len(),
{
    if steps.len() == 0 {
        0
    } else {
        let before = batch_after(batch, steps.drop_last());
        let this: int = match steps.last() {
            BatchStep::Finish(false) => if before.in_flight() > 0 {
                1
            } else {
                0
            },
            _ => 0,
        };
        failures_in(batch, steps.drop_last()) + this
    }
}

/// Whatever the order in which files start and finish, at no point are more
/// files in flight than the limit allows.
pub proof fn law_in_flight_never_exceeds_limit(total: usize, limit: usize, steps: Seq<BatchStep>)
    ensures
        batch_after(Batch::fresh(total, limit), steps).wf(),
        batch_after(Batch::fresh(total, limit), steps).in_flight() <= limit,
        batch_after(Batch::fresh(total, limit), steps).limit == limit,
        batch_after(Batch::fresh(total, limit), steps).total == total,
    decreases steps.len(),
{
    if steps.len() > 0 {
        law_in_flight_never_exceeds_limit(total, limit, steps.drop_last());
    }
}

/// A failure never ends a batch: each file that finishes is counted once, as
/// written or as failed, the failures are exactly the files that finished
/// with an error, and once all have finished the two counts add up to the
/// number of files.
pub proof fn law_failures_are_counted_not_escalated(
    total: usize,
    limit: usize,
    steps: Seq<BatchStep>,
)
    ensures
        ({
            let end = batch_after(Batch::fresh(total, limit), steps);
            &&& end.failed == failures_in(Batch::fresh(total, limit), steps)
            &&& end.tally().written + end.tally().failed == end.finished
            &&& end.finished == total ==> end.tally().written + end.tally().failed == total
                && end.action() == BatchAction::Done
        }),
    decreases steps.len(),
{
    law_in_flight_never_exceeds_limit(total, limit, steps);
    if steps.len() > 0 {
        law_failures_are_counted_not_escalated(total, limit, steps.drop_last());
        law_in_flight_never_exceeds_limit(total, limit, steps.drop_last());
    }
}

/// With a limit of at least one a batch never stalls: until every file has
/// finished there is a file to start or a file to wait for.
pub proof fn law_batch_makes_progress(batch: Batch)
    requires
        batch.wf(),
        batch.limit > 0,
    ensures
        batch.action() != BatchAction::Stalled,
        batch.action() == BatchAction::Done <==> batch.finished == batch.total,
{
}

} // verus!
