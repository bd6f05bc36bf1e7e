//! Archival runs: which rows are due, and the bookkeeping of a run that
//! moves them batch by batch, each batch committed or not at all.

use vstd::prelude::*;

verus! {

/// What archival reads of a stored record.
#[derive(Debug, Clone, Copy, PartialEq, Eq, Structural)]
pub struct StoredRow {
    pub id: u64,
    pub last_modified_ledger: u64,
}

/// A row is due when it was last modified before the horizon.
pub open spec fn is_due(row: StoredRow, horizon: u64) -> bool {
    row.last_modified_ledger < horizon
}

/// The rows that are due, in the order in which they are stored.
pub open spec fn due_rows(rows: Seq<StoredRow>, horizon: u64) -> Seq<StoredRow> {
    rows.filter(|row: StoredRow| is_due(row, horizon))
}

/// Selects the rows that are due.
pub fn select_due(rows: &Vec<StoredRow>, horizon: u64) -> (due: Vec<StoredRow>)
    ensures
        due@ == due_rows(rows@, horizon),
{
    let mut due: Vec<StoredRow> = Vec::new();
    let mut i: usize = 0;
    while i < rows.len()
        invariant
            0 <= i <= rows.len(),
            due@ == due_rows(rows@.subrange(0, i as int), horizon),
        decreases rows.len() - i,
    {
        proof {
            reveal(Seq::filter);
            assert(rows@.subrange(0, i + 1).drop_last() == rows@.subrange(0, i as int));
        }
        let row = rows[i];
        if row.last_modified_ledger < horizon {
            due.push(row);
        }
        i = i + 1;
    }
    proof {
        assert(rows@.subrange(0, i as int) == rows@);
    }
    due
}

/// What becomes of a row that is due.
#[derive(Debug, Clone, Copy, PartialEq, Eq, Structural)]
pub enum ArchivalMode {
    /// The row is moved to cold storage.
    Move,
    /// The row is deleted.
    Delete,
}

/// How one batch ended: committed with the number of rows that it moved,
/// or failed with none moved.
#[derive(Debug, Clone, Copy, PartialEq, Eq, Structural)]
pub enum BatchOutcome {
    Committed { rows: u32 },
    Failed,
}

/// What a run that reached its end has done.
#[derive(Debug, Clone, Copy, PartialEq, Eq, Structural)]
pub struct ArchivalReport {
    pub batches_completed: u64,
    pub rows_archived: u64,
}

/// A run that a failed batch stopped, with what was committed before it.
#[derive(Debug, Clone, Copy, PartialEq, Eq, Structural)]
pub struct ArchivalError {
    pub batches_completed: u64,
    pub rows_archived: u64,
}

/// A run in progress. The counters stop at the largest 64-bit number.
#[derive(Debug, Clone, Copy, PartialEq, Eq, Structural)]
pub struct ArchivalRun {
    pub mode: ArchivalMode,
    pub horizon: u64,
    pub batch_size: u32,
    pub batches_completed: u64,
    pub rows_archived: u64,
}

/// One batch to run: rows last modified before `horizon`, at most `limit`
/// of them, moved or deleted as `mode` says.
#[derive(Debug, Clone, Copy, PartialEq, Eq, Structural)]
pub struct BatchRequest {
    pub mode: ArchivalMode,
    pub horizon: u64,
    pub limit: u32,
}

/// Where a run stands after a batch.
#[derive(Debug, Clone, Copy, PartialEq, Eq, Structural)]
pub enum ArchivalStep {
    /// More rows may be due: run the next batch.
    Continue(ArchivalRun),
    /// Nothing is left to move.
    Finished(ArchivalReport),
    /// The batch failed; the run stops and does not resume by itself.
    Failed(ArchivalError),
}

/// A run that has done nothing yet.
pub open spec fn fresh_run(mode: ArchivalMode, horizon: u64, batch_size: u32) -> ArchivalRun {
    ArchivalRun { mode, horizon, batch_size, batches_completed: 0, rows_archived: 0 }
}

/// `a + b`, or the largest 64-bit number where the sum is beyond it.
pub open spec fn capped_sum(a: u64, b: u64) -> u64 {
    if a + b > u64::MAX {
        u64::MAX
    } else {
        (a + b) as u64
    }
}

/// The counters after a batch that committed `rows` rows. A batch that
/// moved nothing is not counted.
pub open spec fn after_commit(run: ArchivalRun, rows: u32) -> ArchivalRun {
    ArchivalRun {
        mode: run.mode,
        horizon: run.horizon,
        batch_size: run.batch_size,
        batches_completed: if rows > 0 {
            capped_sum(run.batches_completed, 1)
        } else {
            run.batches_completed
        },
        rows_archived: capped_sum(run.rows_archived, rows as u64),
    }
}

/// Where the run stands after a batch. A failed batch stops it with the
/// counters as they were. A committed batch that came back empty or short
/// of the limit was the last one. A full batch calls for another.
pub open spec fn after_batch(run: ArchivalRun, outcome: BatchOutcome) -> ArchivalStep {
    match outcome {
        BatchOutcome::Failed => ArchivalStep::Failed(
            ArchivalError {
                batches_completed: run.batches_completed,
                rows_archived: run.rows_archived,
            },
        ),
        BatchOutcome::Committed { rows } => {
            let next = after_commit(run, rows);
            if rows == 0 || rows < run.batch_size {
                ArchivalStep::Finished(
                    ArchivalReport {
                        batches_completed: next.batches_completed,
                        rows_archived: next.rows_archived,
                    },
                )
            } else {
                ArchivalStep::Continue(next)
            }
        },
    }
}

fn add_capped(a: u64, b: u64) -> (r: u64)
    ensures
        r == capped_sum(a, b),
{
    if a > u64::MAX - b {
        u64::MAX
    } else {
        a + b
    }
}

impl ArchivalRun {
    /// A run that has done nothing yet. The horizon is taken anew for each
    /// run.
    pub fn start(mode: ArchivalMode, horizon: u64, batch_size: u32) -> (run: ArchivalRun)
        ensures
            run == fresh_run(mode, horizon, batch_size),
    {
        ArchivalRun { mode, horizon, batch_size, batches_completed: 0, rows_archived: 0 }
    }

    /// The batch to run next.
    pub fn request(&self) -> (r: BatchRequest)
        ensures
            r == (BatchRequest { mode: self.mode, horizon: self.horizon, limit: self.batch_size }),
    {
        BatchRequest { mode: self.mode, horizon: self.horizon, limit: self.batch_size }
    }

    /// Takes the outcome of the batch that was run.
    pub fn record(self, outcome: BatchOutcome) -> (step: ArchivalStep)
        ensures
            step == after_batch(self, outcome),
    {
        match outcome {
            BatchOutcome::Failed => ArchivalStep::Failed(
                ArchivalError {
                    batches_completed: self.batches_completed,
                    rows_archived: self.rows_archived,
                },
            ),
            BatchOutcome::Committed { rows } => {
                let batches_completed: u64 = if rows > 0 {
                    add_capped(self.batches_completed, 1)
                } else {
                    self.batches_completed
                };
                let rows_archived: u64 = add_capped(self.rows_archived, rows as u64);
                if rows == 0 || rows < self.batch_size {
                    ArchivalStep::Finished(ArchivalReport { batches_completed, rows_archived })
                } else {
                    ArchivalStep::Continue(
                        ArchivalRun {
                            mode: self.mode,
                            horizon: self.horizon,
                            batch_size: self.batch_size,
                            batches_completed,
                            rows_archived,
                        },
                    )
                }
            },
        }
    }
}

/// Where a run stands after a sequence of batches, `None` once outcomes
/// are given to a run that has ended.
pub open spec fn after_batches(run: ArchivalRun, outcomes: Seq<BatchOutcome>) -> Option<
    ArchivalStep,
>
    decreases outcomes.len(),
{
    if outcomes.len() == 0 {
        Some(ArchivalStep::Continue(run))
    } else {
        match after_batches(run, outcomes.drop_last()) {
            Some(ArchivalStep::Continue(now)) => Some(after_batch(now, outcomes.last())),
            _ => None,
        }
    }
}

/// Replays the outcomes of the batches of one run, in order, from a run
/// that has done nothing yet.
pub fn replay(
    mode: ArchivalMode,
    horizon: u64,
    batch_size: u32,
    outcomes: &Vec<BatchOutcome>,
) -> (r: Option<ArchivalStep>)
    ensures
        r == after_batches(fresh_run(mode, horizon, batch_size), outcomes@),
{
    let run = ArchivalRun::start(mode, horizon, batch_size);
    let mut step: Option<ArchivalStep> = Some(ArchivalStep::Continue(run));
    let mut i: usize = 0;
    while i < outcomes.len()
        invariant
            0 <= i <= outcomes.len(),
            step == after_batches(run, outcomes@.subrange(0, i as int)),
        decreases outcomes.len() - i,
    {
        proof {
            assert(outcomes@.subrange(0, i + 1).drop_last() == outcomes@.subrange(0, i as int));
        }
        step =
        match step {
            Some(ArchivalStep::Continue(now)) => Some(now.record(outcomes[i])),
            _ => None,
        };
        i = i + 1;
    }
    proof {
        assert(outcomes@.subrange(0, i as int) == outcomes@);
    }
    step
}

/// Every one of `outcomes` is a committed batch that came back full.
pub open spec fn all_full(outcomes: Seq<BatchOutcome>, batch_size: u32) -> bool {
    forall|i: int|
        0 <= i < outcomes.len() ==> #[trigger] outcomes[i] == (BatchOutcome::Committed {
            rows: batch_size,
        })
}

/// After `outcomes.len()` full batches a run that started afresh goes on,
/// having counted each batch and each row of it.
pub proof fn lemma_full_batches_are_counted(
    mode: ArchivalMode,
    horizon: u64,
    batch_size: u32,
    outcomes: Seq<BatchOutcome>,
)
    requires
        batch_size > 0,
        all_full(outcomes, batch_size),
        outcomes.len() * batch_size <= u64::MAX,
    ensures
        after_batches(fresh_run(mode, horizon, batch_size), outcomes) == Some(
            ArchivalStep::Continue(
                ArchivalRun {
                    mode,
                    horizon,
                    batch_size,
                    batches_completed: outcomes.len() as u64,
                    rows_archived: (outcomes.len() * batch_size) as u64,
                },
            ),
        ),
    decreases outcomes.len(),
{
    if outcomes.len() > 0 {
        let earlier = outcomes.drop_last();
        assert(all_full(earlier, batch_size));
        assert(earlier.len() * batch_size + batch_size == outcomes.len() * batch_size)
            by (nonlinear_arith)
            requires
                earlier.len() + 1 == outcomes.len(),
        ;
        assert(outcomes.len() <= outcomes.len() * batch_size) by (nonlinear_arith)
            requires
                batch_size >= 1,
        ;
        lemma_full_batches_are_counted(mode, horizon, batch_size, earlier);
        assert(outcomes.last() == (BatchOutcome::Committed { rows: batch_size }));
    }
}

/// A batch that fails after `done.len()` full batches stops the run, and
/// the error reports exactly those batches and their rows: what was
/// committed stays, and nothing of the failed batch is counted.
pub proof fn lemma_failure_keeps_committed_batches(
    mode: ArchivalMode,
    horizon: u64,
    batch_size: u32,
    done: Seq<BatchOutcome>,
)
    requires
        batch_size > 0,
        all_full(done, batch_size),
        done.len() * batch_size <= u64::MAX,
    ensures
        after_batches(fresh_run(mode, horizon, batch_size), done.push(BatchOutcome::Failed)) == Some(
            ArchivalStep::Failed(
                ArchivalError {
                    batches_completed: done.len() as u64,
                    rows_archived: (done.len() * batch_size) as u64,
                },
            ),
        ),
{
    lemma_full_batches_are_counted(mode, horizon, batch_size, done);
    let all = done.push(BatchOutcome::Failed);
    assert(all.drop_last() == done);
    assert(all.last() == BatchOutcome::Failed);
}

} // verus!
