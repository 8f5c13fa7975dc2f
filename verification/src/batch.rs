//! Fetching several artifacts at once, a few at a time.
//!
//! A batch hands out its artifacts by number, never more at a time than its
//! limit allows, and ends when all have succeeded or one has failed. The
//! program around it runs the fetches and reports how each one ended.

use vstd::prelude::*;
use crate::fetch::FetchError;
use crate::installer::PROGRESS_DONE;

verus! {

/// The state of a batch of fetches.
#[derive(Debug)]
pub struct Batch {
    /// How many artifacts the batch holds.
    pub total: usize,
    /// How many fetches may run at a time.
    pub limit: usize,
    /// How many fetches were started.
    pub started: usize,
    /// How many fetches have succeeded.
    pub completed: usize,
    /// How many fetches have ended, in success or failure.
    pub ended: usize,
    /// The first failure, if any fetch has failed.
    pub failure: Option<FetchError>,
}

/// What the program around a batch does next.
#[derive(Debug)]
pub enum BatchAction {
    /// Start the fetch of the artifact with this number.
    Start(usize),
    /// Wait for a running fetch to end, and record how it ended.
    Wait,
    /// Stop: every artifact was fetched.
    Done,
    /// Stop: cancel the fetches that still run, discard what they staged,
    /// and fail with this error, the first that a fetch failed with.
    Abort(FetchError),
}

impl Batch {
    /// How many fetches are running.
    pub open spec fn running(&self) -> int {
        self.started - self.ended
    }

    /// Whether the counts fit together: started fetches are within the
    /// batch, ended ones were started, no more run than the limit allows,
    /// and a fetch that ended without success left its failure behind.
    pub open spec fn wf(&self) -> bool {
        &&& self.limit >= 1
        &&& self.completed <= self.ended <= self.started <= self.total
        &&& self.running() <= self.limit
        &&& self.failure is None ==> self.completed == self.ended
    }

    /// A batch of `total` artifacts, of which up to `limit` are fetched at a
    /// time; one at a time where `limit` is 0.
    pub fn new(total: usize, limit: usize) -> (res: Batch)
        ensures
            res.wf(),
            res.total == total,
            res.limit == if limit == 0 {
                1
            } else {
                limit
            },
            res.started == 0,
            res.completed == 0,
            res.ended == 0,
            res.failure is None,
    {
        Batch {
            total,
            limit: if limit == 0 {
                1
            } else {
                limit
            },
            started: 0,
            completed: 0,
            ended: 0,
            failure: None,
        }
    }

    /// Whether the next artifact can be started: one is left, and fewer
    /// fetches run than the limit allows.
    pub open spec fn can_start(&self) -> bool {
        self.started < self.total && self.running() < self.limit
    }

    /// Decides what to do next.
    ///
    /// After a failure the batch is aborted with that failure. Without
    /// one, the batch is done once every artifact has been fetched; else
    /// the next artifact is started where the limit allows, and where it
    /// does not, a running fetch is waited for.
    pub fn next(&mut self) -> (res: BatchAction)
        requires
            old(self).wf(),
        ensures
            final(self).wf(),
            match old(self).failure {
                Some(error) => res == BatchAction::Abort(error) && *final(self) == *old(self),
                None => if old(self).completed == old(self).total {
                    res == BatchAction::Done && *final(self) == *old(self)
                } else if old(self).can_start() {
                    res == BatchAction::Start(old(self).started) && *final(self) == (Batch {
                        started: (old(self).started + 1) as usize,
                        ..*old(self)
                    })
                } else {
                    res == BatchAction::Wait && *final(self) == *old(self) && old(self).running()
                        > 0
                },
            },
    {
        match &self.failure {
            Some(error) => BatchAction::Abort(error.clone()),
            None => {
                if self.completed == self.total {
                    BatchAction::Done
                } else if self.started < self.total && self.started - self.ended < self.limit {
                    let number = self.started;
                    self.started = self.started + 1;
                    BatchAction::Start(number)
                } else {
                    BatchAction::Wait
                }
            },
        }
    }

    /// Cancels the batch: unless a fetch has failed before, the batch now
    /// fails as cancelled, so that `next` aborts it and starts nothing more.
    pub fn cancel(&mut self)
        requires
            old(self).wf(),
        ensures
            final(self).wf(),
            *final(self) == (Batch {
                failure: if old(self).failure is None {
                    Some(FetchError::Cancelled)
                } else {
                    old(self).failure
                },
                ..*old(self)
            }),
    {
        if self.failure.is_none() {
            self.failure = Some(FetchError::Cancelled);
        }
    }

    /// Records how a running fetch ended. A success counts towards the
    /// batch; the first failure is kept, later ones are dropped. Where no
    /// fetch is running, nothing is recorded.
    pub fn record(&mut self, outcome: Result<(), FetchError>)
        requires
            old(self).wf(),
        ensures
            final(self).wf(),
            old(self).running() == 0 ==> *final(self) == *old(self),
            old(self).running() > 0 ==> *final(self) == match outcome {
                Ok(_) => Batch {
                    completed: (old(self).completed + 1) as usize,
                    ended: (old(self).ended + 1) as usize,
                    ..*old(self)
                },
                Err(error) => Batch {
                    ended: (old(self).ended + 1) as usize,
                    failure: if old(self).failure is None {
                        Some(error)
                    } else {
                        old(self).failure
                    },
                    ..*old(self)
                },
            },
    {
        if self.started - self.ended > 0 {
            match outcome {
                Ok(_) => {
                    self.completed = self.completed + 1;
                    self.ended = self.ended + 1;
                },
                Err(error) => {
                    self.ended = self.ended + 1;
                    if self.failure.is_none() {
                        self.failure = Some(error);
                    }
                },
            }
        }
    }
}

/// The progress of a batch in thousandths: the share of its artifacts that
/// were fetched, rounded down. A batch without artifacts is complete.
pub open spec fn progress_of(completed: int, total: int) -> int {
    if total == 0 {
        PROGRESS_DONE as int
    } else {
        completed * PROGRESS_DONE / total
    }
}

impl Batch {
    /// The progress of the batch, in thousandths.
    pub fn progress(&self) -> (res: u16)
        requires
            self.wf(),
        ensures
            res == progress_of(self.completed as int, self.total as int),
            res <= PROGRESS_DONE,
    {
        if self.total == 0 {
            PROGRESS_DONE
        } else {
            proof {
                law_progress_in_range(self.completed as int, self.total as int);
            }
            let done: u128 = self.completed as u128;
            let scaled: u128 = done * 1000;
            let share: u128 = scaled / (self.total as u128);
            share as u16
        }
    }
}

/// Progress begins at nothing, ends at the whole, and stays in between:
/// it is complete exactly when every artifact was fetched.
pub proof fn law_progress_in_range(completed: int, total: int)
    requires
        0 <= completed <= total,
    ensures
        0 <= progress_of(completed, total) <= PROGRESS_DONE,
        total > 0 ==> progress_of(0, total) == 0,
        progress_of(total, total) == PROGRESS_DONE,
        progress_of(completed, total) == PROGRESS_DONE <==> completed == total,
{
    if total > 0 {
        assert(0 <= completed * 1000 / total <= 1000) by (nonlinear_arith)
            requires
                0 <= completed <= total,
                total > 0,
        ;
        assert(0int * 1000 / total == 0) by (nonlinear_arith)
            requires
                total > 0,
        ;
        assert(total * 1000 / total == 1000) by (nonlinear_arith)
            requires
                total > 0,
        ;
        assert(completed < total ==> completed * 1000 / total < 1000) by (nonlinear_arith)
            requires
                0 <= completed <= total,
                total > 0,
        ;
    }
}

/// Progress never goes back: each artifact that is fetched leaves it where
/// it was or moves it on.
pub proof fn law_progress_is_monotonic(earlier: int, later: int, total: int)
    requires
        0 <= earlier <= later <= total,
    ensures
        progress_of(earlier, total) <= progress_of(later, total),
{
    if total > 0 {
        assert(earlier * 1000 / total <= later * 1000 / total) by (nonlinear_arith)
            requires
                0 <= earlier <= later,
                total > 0,
        ;
    }
}

} // verus!
