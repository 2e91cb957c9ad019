//! What holds of the tally of a whole run, whatever the tasks report and in
//! whatever order they finish.
//!
//! A run is seen here as the sequence of the reports of its tasks, in the
//! order in which the tasks wrote into the tally.

use crate::outcome::TaskReport;
use crate::reconcile::{disagree, failures};
use crate::tally::{absorbed, TallyView};
use vstd::prelude::*;

verus! {

/// The tally after the tasks of `reports` have written into it in order.
pub open spec fn tally_after(start: TallyView, reports: Seq<TaskReport>) -> TallyView
    decreases reports.len(),
{
    if reports.len() == 0 {
        start
    } else {
        absorbed(tally_after(start, reports.drop_last()), reports.last())
    }
}

/// The number of failed executions in all of `reports`.
pub open spec fn failures_among(reports: Seq<TaskReport>) -> nat
    decreases reports.len(),
{
    if reports.len() == 0 {
        0
    } else {
        failures_among(reports.drop_last()) + failures(
            reports.last().outcome_a,
            reports.last().outcome_b,
        )
    }
}

/// The number of reports in which the two backends disagree.
pub open spec fn mismatches_among(reports: Seq<TaskReport>) -> nat
    decreases reports.len(),
{
    if reports.len() == 0 {
        0
    } else {
        mismatches_among(reports.drop_last()) + if disagree(
            reports.last().outcome_a,
            reports.last().outcome_b,
        ) {
            1nat
        } else {
            0nat
        }
    }
}

/// The histogram holds one sample for each task that wrote into the tally,
/// whether its executions succeeded or failed: no sample is lost and none is
/// counted twice.
pub proof fn lemma_one_sample_per_task(start: TallyView, reports: Seq<TaskReport>)
    ensures
        tally_after(start, reports).samples.len() == start.samples.len() + reports.len(),
        tally_after(start, reports).completed == start.completed + reports.len(),
        tally_after(start, reports).width_ms == start.width_ms,
    decreases reports.len(),
{
    if reports.len() > 0 {
        lemma_one_sample_per_task(start, reports.drop_last());
    }
}

/// The error count goes up by the number of failed executions: for each
/// task by zero, one or two.
pub proof fn lemma_errors_count_failures(start: TallyView, reports: Seq<TaskReport>)
    ensures
        tally_after(start, reports).errors == start.errors + failures_among(reports),
        failures_among(reports) <= 2 * reports.len(),
    decreases reports.len(),
{
    if reports.len() > 0 {
        lemma_errors_count_failures(start, reports.drop_last());
    }
}

/// Counts only grow: no bucket of the histogram ever holds fewer samples
/// than before, and the error count never goes down.
pub proof fn lemma_counts_only_grow(start: TallyView, reports: Seq<TaskReport>)
    ensures
        forall|key: u64|
            start.samples.count(key) <= #[trigger] tally_after(start, reports).samples.count(key),
        start.errors <= tally_after(start, reports).errors,
    decreases reports.len(),
{
    if reports.len() > 0 {
        lemma_counts_only_grow(start, reports.drop_last());
    }
}

/// Where both backends give the same outcome for every query, no report is
/// a mismatch.
pub proof fn lemma_identical_backends_never_mismatch(reports: Seq<TaskReport>)
    requires
        forall|i: int| 0 <= i < reports.len() ==> reports[i].outcome_a == reports[i].outcome_b,
    ensures
        mismatches_among(reports) == 0,
    decreases reports.len(),
{
    if reports.len() > 0 {
        lemma_identical_backends_never_mismatch(reports.drop_last());
    }
}

/// Two tasks that write one after the other leave the same tally in either
/// order.
pub proof fn lemma_absorb_commutes(tally: TallyView, first: TaskReport, second: TaskReport)
    ensures
        absorbed(absorbed(tally, first), second) == absorbed(absorbed(tally, second), first),
{
    let one = absorbed(absorbed(tally, first), second);
    let other = absorbed(absorbed(tally, second), first);
    assert(one.samples =~= other.samples);
}

/// The task that wrote at position `at` might as well have written last.
proof fn lemma_absorb_anywhere(start: TallyView, reports: Seq<TaskReport>, at: int)
    requires
        0 <= at < reports.len(),
    ensures
        tally_after(start, reports) == absorbed(
            tally_after(start, reports.remove(at)),
            reports[at],
        ),
    decreases reports.len(),
{
    let last = reports.len() - 1;
    if at == last {
        assert(reports.remove(at) =~= reports.drop_last());
    } else {
        let earlier = reports.drop_last();
        lemma_absorb_anywhere(start, earlier, at);
        let others = tally_after(start, earlier.remove(at));
        lemma_absorb_commutes(others, reports[at], reports[last]);
        assert(reports.remove(at).drop_last() =~= earlier.remove(at));
        assert(reports.remove(at).last() == reports[last]);
    }
}

/// The tally of a run does not depend on the order in which its tasks
/// finish: two sequences of the same reports leave the same histogram and
/// the same error count.
pub proof fn lemma_completion_order_is_irrelevant(
    start: TallyView,
    first: Seq<TaskReport>,
    second: Seq<TaskReport>,
)
    requires
        first.to_multiset() == second.to_multiset(),
    ensures
        tally_after(start, first) == tally_after(start, second),
    decreases first.len(),
{
    broadcast use vstd::seq_lib::group_to_multiset_ensures;

    first.to_multiset_ensures();
    second.to_multiset_ensures();
    if first.len() == 0 {
        assert(second.len() == second.to_multiset().len());
    } else {
        let report = first.last();
        assert(first.to_multiset().count(report) > 0);
        assert(second.contains(report));
        let at = choose|at: int| 0 <= at < second.len() && second[at] == report;
        assert(first.remove(first.len() - 1) =~= first.drop_last());
        vstd::seq_lib::to_multiset_remove(first, first.len() - 1);
        vstd::seq_lib::to_multiset_remove(second, at);
        lemma_completion_order_is_irrelevant(start, first.drop_last(), second.remove(at));
        lemma_absorb_anywhere(start, second, at);
    }
}

} // verus!
