//! Run records: what a run has accumulated and whether it is still going.

use vstd::prelude::*;

verus! {

/// Whether a run is still collecting responses or was closed by its deadline.
#[derive(Debug, Clone, Copy, PartialEq, Eq, Structural)]
pub enum RunStatus {
    InProgress,
    Finished,
}

impl Default for RunStatus {
    fn default() -> (status: Self)
        ensures
            status == RunStatus::InProgress,
    {
        RunStatus::InProgress
    }
}

/// One run's record: its lifecycle status, how many successful responses it
/// has absorbed, and the sum of the values those responses carried.
#[derive(Debug, Clone, Copy, PartialEq, Eq, Structural)]
pub struct Run {
    pub status: RunStatus,
    pub successful_responses_count: u16,
    pub sum: usize,
}

/// The record a fresh run starts from: in progress, nothing counted yet.
pub open spec fn initial_run() -> Run {
    Run { status: RunStatus::InProgress, successful_responses_count: 0, sum: 0 }
}

/// The record after absorbing one successful response carrying `value`.
pub open spec fn spec_add_value(run: Run, value: usize) -> Run {
    Run {
        status: run.status,
        successful_responses_count: (run.successful_responses_count + 1) as u16,
        sum: (run.sum + value) as usize,
    }
}

/// The record after its run is marked over; the tallies stay.
pub open spec fn spec_ended(run: Run) -> Run {
    Run {
        status: RunStatus::Finished,
        successful_responses_count: run.successful_responses_count,
        sum: run.sum,
    }
}

impl Default for Run {
    fn default() -> (run: Self)
        ensures
            run == initial_run(),
    {
        Run { status: RunStatus::InProgress, successful_responses_count: 0, sum: 0 }
    }
}

impl Run {
    /// Absorb one successful response: the counter rises by one and the sum
    /// by `value`.
    pub fn add_value(&mut self, value: usize)
        requires
            old(self).successful_responses_count < u16::MAX,
            old(self).sum + value <= usize::MAX,
        ensures
            *final(self) == spec_add_value(*old(self), value),
    {
        self.successful_responses_count = self.successful_responses_count + 1;
        self.sum = self.sum + value;
    }

    /// Mark the run finished; the tallies are untouched.
    pub fn ended(&mut self)
        ensures
            *final(self) == spec_ended(*old(self)),
    {
        self.status = RunStatus::Finished;
    }
}

/// The sum of a sequence of response values.
pub open spec fn sum_of(values: Seq<usize>) -> int
    decreases values.len(),
{
    if values.len() == 0 {
        0
    } else {
        values[0] + sum_of(values.drop_first())
    }
}

/// The record after absorbing the successes `values`, in order.
pub open spec fn run_after_successes(run: Run, values: Seq<usize>) -> Run
    decreases values.len(),
{
    if values.len() == 0 {
        run
    } else {
        run_after_successes(spec_add_value(run, values[0]), values.drop_first())
    }
}

proof fn lemma_sum_of_nonneg(values: Seq<usize>)
    ensures
        sum_of(values) >= 0,
    decreases values.len(),
{
    if values.len() > 0 {
        lemma_sum_of_nonneg(values.drop_first());
    }
}

/// Accumulation law: absorbing the successes `values` raises the counter by
/// exactly their number and the sum by exactly their total, and leaves the
/// status alone. Each success is absorbed atomically, so this holds whatever
/// interleaving delivered them.
pub proof fn lemma_accumulation(run: Run, values: Seq<usize>)
    requires
        run.successful_responses_count + values.len() <= u16::MAX,
        run.sum + sum_of(values) <= usize::MAX,
    ensures
        run_after_successes(run, values).status == run.status,
        run_after_successes(run, values).successful_responses_count
            == run.successful_responses_count + values.len(),
        run_after_successes(run, values).sum == run.sum + sum_of(values),
    decreases values.len(),
{
    if values.len() > 0 {
        lemma_sum_of_nonneg(values.drop_first());
        lemma_accumulation(spec_add_value(run, values[0]), values.drop_first());
    }
}

} // verus!
