//! The state that the tasks of a run share: the latency histogram of
//! backend A and the error count of both backends.
//!
//! A task writes into the tally once, when both of its executions are done,
//! and reads nothing back. The tally is read when every task has finished.

use crate::histogram::{bucket_of, LatencyHistogram};
use crate::outcome::TaskReport;
use crate::reconcile::{disagree, failures, reconcile, MismatchRecord};
use vstd::multiset::Multiset;
use vstd::prelude::*;

verus! {

/// The largest number of tasks that one tally takes in. With it the error
/// count, which grows by at most two per task, always fits.
pub const MAX_TASKS: u64 = 0x7fff_ffff_ffff_ffff;

/// What a tally holds, as mathematical values.
pub struct TallyView {
    /// The bucket width of the histogram, in milliseconds.
    pub width_ms: u64,
    /// The bucket keys of the latencies of backend A, one for each task.
    pub samples: Multiset<u64>,
    /// The number of failed executions on both backends together.
    pub errors: nat,
    /// The number of tasks taken in.
    pub completed: nat,
}

/// The tally after one more task: the latency of backend A goes into the
/// histogram whether its execution succeeded or failed, and the error count
/// goes up by one for each failed execution.
pub open spec fn absorbed(before: TallyView, report: TaskReport) -> TallyView {
    TallyView {
        width_ms: before.width_ms,
        samples: before.samples.insert(bucket_of(report.elapsed_a_ms, before.width_ms)),
        errors: before.errors + failures(report.outcome_a, report.outcome_b),
        completed: before.completed + 1,
    }
}

/// Latency histogram and error count of one run.
#[derive(Debug)]
pub struct RunTally {
    histogram: LatencyHistogram,
    errors: u64,
    completed: u64,
}

impl View for RunTally {
    type V = TallyView;

    closed spec fn view(&self) -> TallyView {
        TallyView {
            width_ms: self.histogram.width(),
            samples: self.histogram@,
            errors: self.errors as nat,
            completed: self.completed as nat,
        }
    }
}

impl RunTally {
    #[verifier::type_invariant]
    spec fn well_formed(self) -> bool {
        &&& self.histogram@.len() == self.completed
        &&& self.errors <= 2 * self.completed
        &&& self.completed <= MAX_TASKS
        &&& self.histogram.width() > 0
    }

    /// The tally of a run in which no task has finished yet.
    pub fn new(width_ms: u64) -> (tally: RunTally)
        requires
            width_ms > 0,
        ensures
            tally@ == (TallyView {
                width_ms,
                samples: Multiset::<u64>::empty(),
                errors: 0,
                completed: 0,
            }),
    {
        RunTally { histogram: LatencyHistogram::new(width_ms), errors: 0, completed: 0 }
    }

    /// The number of tasks taken in. It is the number of samples in the
    /// histogram, and the error count is at most twice as large.
    pub fn completed(&self) -> (completed: u64)
        ensures
            completed == self@.completed,
            completed == self@.samples.len(),
            self@.errors <= 2 * completed,
            completed <= MAX_TASKS,
    {
        proof {
            use_type_invariant(self);
        }
        self.completed
    }

    /// The number of failed executions on both backends together.
    pub fn error_count(&self) -> (errors: u64)
        ensures
            errors == self@.errors,
    {
        self.errors
    }

    /// The latency histogram of backend A.
    pub fn histogram(&self) -> (histogram: &LatencyHistogram)
        ensures
            histogram@ == self@.samples,
            histogram.width() == self@.width_ms,
    {
        &self.histogram
    }

    /// Gives up the tally for its histogram and its error count.
    pub fn into_parts(self) -> (parts: (LatencyHistogram, u64))
        ensures
            parts.0@ == self@.samples,
            parts.0.width() == self@.width_ms,
            parts.1 == self@.errors,
    {
        (self.histogram, self.errors)
    }

    /// Takes in the report of one finished task: records the latency of
    /// backend A, counts the failed executions, and returns the mismatch if
    /// both backends answered with different row counts.
    pub fn absorb(&mut self, report: &TaskReport, query: &str) -> (mismatch: Option<
        MismatchRecord,
    >)
        requires
            old(self)@.completed < MAX_TASKS,
        ensures
            final(self)@ == absorbed(old(self)@, *report),
            mismatch is Some <==> disagree(report.outcome_a, report.outcome_b),
            mismatch matches Some(record) ==> {
                &&& record.rows_a == report.outcome_a->row_count
                &&& record.rows_b == report.outcome_b->row_count
                &&& record.query@ == query@
            },
    {
        proof {
            use_type_invariant(&*self);
        }
        // The parts are taken out and put back as a whole, so that the tally
        // is well formed at every step.
        let mut taken = RunTally::new(self.histogram.bucket_width_ms());
        core::mem::swap(self, &mut taken);
        let RunTally { mut histogram, errors, completed } = taken;
        histogram.record(report.elapsed_a_ms);
        let verdict = reconcile(&report.outcome_a, &report.outcome_b, query);
        *self = RunTally {
            histogram,
            errors: errors + verdict.failures,
            completed: completed + 1,
        };
        verdict.mismatch
    }
}

} // verus!
