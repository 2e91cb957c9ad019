//! The summary of a finished run.

use crate::dispatch::{Dispatcher, Phase};
use crate::histogram::LatencyHistogram;
use crate::tally::RunTally;
use vstd::prelude::*;

verus! {

/// Microseconds in one second.
pub const MICROS_PER_SECOND: u128 = 1_000_000;

/// Lines per second of a run: the number of lines divided by the whole
/// seconds that the run took, rounded down. A run that took less than one
/// second counts as one second long, so that nothing is divided by zero.
pub open spec fn throughput(lines: u64, elapsed_micros: u128) -> u64 {
    let seconds = elapsed_micros / MICROS_PER_SECOND;
    if seconds == 0 {
        lines
    } else {
        (lines as int / seconds as int) as u64
    }
}

/// Computes the lines per second of a run.
pub fn requests_per_second(lines: u64, elapsed_micros: u128) -> (rate: u64)
    ensures
        rate == throughput(lines, elapsed_micros),
        rate <= lines,
{
    let seconds: u128 = elapsed_micros / MICROS_PER_SECOND;
    if seconds == 0 {
        lines
    } else {
        let rate: u128 = (lines as u128) / seconds;
        assert(rate <= lines) by (nonlinear_arith)
            requires
                rate == (lines as int) / (seconds as int),
                seconds >= 1,
        ;
        rate as u64
    }
}

/// What a run reports when every task has finished.
#[derive(Debug)]
pub struct RunSummary {
    /// The time that the whole run took, in microseconds.
    pub elapsed_micros: u128,
    /// The number of lines for which a task was spawned.
    pub total_lines: u64,
    /// Lines per second.
    pub requests_per_second: u64,
    /// The number of failed executions on both backends together.
    pub error_count: u64,
    /// The latency histogram of backend A.
    pub histogram: LatencyHistogram,
}

/// Summarizes a run. There is a summary if and only if the run has
/// finished: a run that was aborted, or that is still under way, has none.
pub fn summarize(state: &Dispatcher, tally: RunTally, elapsed_micros: u128) -> (summary: Option<
    RunSummary,
>)
    ensures
        summary is Some <==> state.phase is Finished,
        summary matches Some(run) ==> {
            &&& run.elapsed_micros == elapsed_micros
            &&& run.total_lines == state.dispatched
            &&& run.requests_per_second == throughput(state.dispatched, elapsed_micros)
            &&& run.error_count == tally@.errors
            &&& run.histogram@ == tally@.samples
            &&& run.histogram.width() == tally@.width_ms
            &&& run.histogram@.len() == tally@.completed
        },
{
    match state.phase {
        Phase::Finished => {
            let _ = tally.completed();
            let (histogram, error_count) = tally.into_parts();
            Some(
                RunSummary {
                    elapsed_micros,
                    total_lines: state.dispatched,
                    requests_per_second: requests_per_second(state.dispatched, elapsed_micros),
                    error_count,
                    histogram,
                },
            )
        },
        _ => None,
    }
}

} // verus!
