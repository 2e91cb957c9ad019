use query_replay::outcome::{Outcome, TaskReport};
use query_replay::reconcile::{reconcile, MismatchRecord};
use query_replay::tally::{RunTally, MAX_TASKS};

fn rows(row_count: u64) -> Outcome {
    Outcome::Success { row_count }
}

fn failed(cause: &str) -> Outcome {
    Outcome::Failure { cause: cause.to_string() }
}

fn report(outcome_a: Outcome, outcome_b: Outcome, elapsed_a_ms: u64) -> TaskReport {
    TaskReport { outcome_a, outcome_b, elapsed_a_ms, elapsed_b_ms: 1 }
}

#[test]
fn capture_keeps_rows_and_failures() {
    assert_eq!(Outcome::capture(Ok(5)), rows(5));
    assert_eq!(Outcome::capture(Err("syntax error".to_string())), failed("syntax error"));
    assert!(!rows(0).is_failure());
    assert!(failed("x").is_failure());
    assert_eq!(rows(12).row_count(), Some(12));
    assert_eq!(failed("x").row_count(), None);
}

#[test]
fn equal_row_counts_are_no_mismatch() {
    let verdict = reconcile(&rows(5), &rows(5), "select 1");
    assert_eq!(verdict.failures, 0);
    assert_eq!(verdict.mismatch, None);
}

#[test]
fn different_row_counts_are_a_mismatch_and_no_error() {
    let verdict = reconcile(&rows(5), &rows(7), "select * from t");
    assert_eq!(verdict.failures, 0);
    assert_eq!(
        verdict.mismatch,
        Some(MismatchRecord { rows_a: 5, rows_b: 7, query: "select * from t".to_string() })
    );
}

#[test]
fn a_failure_is_counted_and_not_compared() {
    let verdict = reconcile(&rows(5), &failed("timeout"), "q");
    assert_eq!(verdict.failures, 1);
    assert_eq!(verdict.mismatch, None);
    let verdict = reconcile(&failed("timeout"), &rows(0), "q");
    assert_eq!(verdict.failures, 1);
    assert_eq!(verdict.mismatch, None);
    let verdict = reconcile(&failed("a"), &failed("b"), "q");
    assert_eq!(verdict.failures, 2);
    assert_eq!(verdict.mismatch, None);
}

#[test]
fn error_count_goes_up_by_the_failures_of_each_task() {
    let mut tally = RunTally::new(10);
    assert_eq!(tally.error_count(), 0);
    tally.absorb(&report(rows(1), rows(1), 5), "q0");
    assert_eq!(tally.error_count(), 0);
    tally.absorb(&report(failed("x"), rows(1), 5), "q1");
    assert_eq!(tally.error_count(), 1);
    tally.absorb(&report(failed("x"), failed("y"), 5), "q2");
    assert_eq!(tally.error_count(), 3);
    tally.absorb(&report(rows(4), failed("y"), 5), "q3");
    assert_eq!(tally.error_count(), 4);
    assert_eq!(tally.completed(), 4);
    assert_eq!(tally.histogram().total(), 4);
}

#[test]
fn new_tally_is_empty() {
    let tally = RunTally::new(10);
    assert_eq!(tally.completed(), 0);
    assert_eq!(tally.error_count(), 0);
    assert_eq!(tally.histogram().total(), 0);
    assert_eq!(tally.histogram().bucket_width_ms(), 10);
    assert_eq!(MAX_TASKS, u64::MAX / 2);
}

#[test]
fn identical_backends_yield_no_mismatch() {
    let mut tally = RunTally::new(10);
    let answers = [rows(0), rows(3), failed("no such table"), rows(1_000_000), rows(3)];
    let mut mismatches = 0;
    for (i, answer) in answers.iter().enumerate() {
        let found = tally.absorb(&report(answer.clone(), answer.clone(), i as u64), "q");
        if found.is_some() {
            mismatches += 1;
        }
    }
    assert_eq!(mismatches, 0);
    assert_eq!(tally.error_count(), 2);
    assert_eq!(tally.completed(), 5);
}

#[test]
fn one_mismatch_among_three_lines() {
    let lines = ["select a", "select b", "select c"];
    let rows_a = [5, 5, 5];
    let rows_b = [5, 7, 5];
    let mut tally = RunTally::new(10);
    let mut found = Vec::new();
    for i in 0..3 {
        let task = report(rows(rows_a[i]), rows(rows_b[i]), 12);
        if let Some(record) = tally.absorb(&task, lines[i]) {
            found.push((i + 1, record));
        }
    }
    assert_eq!(found.len(), 1);
    assert_eq!(found[0].0, 2);
    assert_eq!(
        found[0].1,
        MismatchRecord { rows_a: 5, rows_b: 7, query: "select b".to_string() }
    );
    assert_eq!(tally.error_count(), 0);
    assert_eq!(tally.histogram().render(), "1:3");
}

#[test]
fn a_failure_on_backend_b_only_is_one_error() {
    let mut tally = RunTally::new(10);
    let task = report(rows(9), failed("connection reset"), 42);
    let found = tally.absorb(&task, "select 1");
    assert_eq!(found, None);
    assert_eq!(tally.error_count(), 1);
    assert_eq!(tally.histogram().total(), 1);
    assert_eq!(tally.histogram().count_at(4), 1);
    assert_eq!(tally.histogram().render(), "4:1");
}

#[test]
fn a_failed_execution_on_backend_a_is_still_timed() {
    let mut tally = RunTally::new(10);
    let task = TaskReport {
        outcome_a: failed("deadlock"),
        outcome_b: rows(2),
        elapsed_a_ms: 31,
        elapsed_b_ms: 977,
    };
    assert_eq!(tally.absorb(&task, "q"), None);
    assert_eq!(tally.histogram().buckets(), vec![(3, 1)]);
    assert_eq!(tally.error_count(), 1);
}

#[test]
fn only_the_latency_of_backend_a_is_recorded() {
    let mut tally = RunTally::new(10);
    let task = TaskReport {
        outcome_a: rows(1),
        outcome_b: rows(1),
        elapsed_a_ms: 20,
        elapsed_b_ms: 500,
    };
    tally.absorb(&task, "q");
    assert_eq!(tally.histogram().count_at(2), 1);
    assert_eq!(tally.histogram().count_at(50), 0);
    assert_eq!(tally.histogram().total(), 1);
}

#[test]
fn the_order_in_which_tasks_finish_does_not_matter() {
    let tasks = vec![
        report(rows(1), rows(1), 3),
        report(failed("x"), rows(1), 250),
        report(rows(2), rows(5), 31),
        report(failed("x"), failed("y"), 3),
        report(rows(2), rows(2), 39),
    ];
    let mut in_order = RunTally::new(10);
    for task in tasks.iter() {
        in_order.absorb(task, "q");
    }
    let mut reversed = RunTally::new(10);
    for task in tasks.iter().rev() {
        reversed.absorb(task, "q");
    }
    assert_eq!(in_order.error_count(), reversed.error_count());
    assert_eq!(in_order.completed(), reversed.completed());
    assert_eq!(in_order.histogram().buckets(), reversed.histogram().buckets());
    assert_eq!(in_order.error_count(), 3);
    assert_eq!(in_order.histogram().render(), "0:2;3:2;25:1");
}

#[test]
fn into_parts_gives_histogram_and_error_count() {
    let mut tally = RunTally::new(10);
    tally.absorb(&report(failed("x"), rows(1), 15), "q");
    tally.absorb(&report(rows(1), rows(1), 18), "q");
    let (histogram, errors) = tally.into_parts();
    assert_eq!(errors, 1);
    assert_eq!(histogram.buckets(), vec![(1, 2)]);
}
