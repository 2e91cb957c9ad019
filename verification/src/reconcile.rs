//! Comparison of the two outcomes of one query.
//!
//! A failed execution counts as an error. Row counts are compared only when
//! both executions succeeded; a difference is a mismatch, which is a finding
//! and not an error.

use crate::outcome::Outcome;
use vstd::prelude::*;

verus! {

/// A query on which the two backends returned different numbers of rows.
#[derive(Clone, Debug, PartialEq, Eq)]
pub struct MismatchRecord {
    pub rows_a: u64,
    pub rows_b: u64,
    pub query: String,
}

/// What reconciling one task's outcomes yields: by how much the error count
/// goes up, and the mismatch, if there is one.
#[derive(Clone, Debug, PartialEq, Eq)]
pub struct Verdict {
    pub failures: u64,
    pub mismatch: Option<MismatchRecord>,
}

/// The number of failed executions among the two outcomes of a task.
pub open spec fn failures(a: Outcome, b: Outcome) -> nat {
    (if a is Failure {
        1nat
    } else {
        0nat
    }) + (if b is Failure {
        1nat
    } else {
        0nat
    })
}

/// Whether both executions succeeded with different row counts.
pub open spec fn disagree(a: Outcome, b: Outcome) -> bool {
    &&& a is Success
    &&& b is Success
    &&& a->row_count != b->row_count
}

/// Reconciles the outcomes of one query on the two backends.
pub fn reconcile(a: &Outcome, b: &Outcome, query: &str) -> (verdict: Verdict)
    ensures
        verdict.failures == failures(*a, *b),
        verdict.mismatch is Some <==> disagree(*a, *b),
        verdict.mismatch matches Some(record) ==> {
            &&& record.rows_a == a->row_count
            &&& record.rows_b == b->row_count
            &&& record.query@ == query@
        },
{
    let mut failed: u64 = 0;
    if a.is_failure() {
        failed = failed + 1;
    }
    if b.is_failure() {
        failed = failed + 1;
    }
    let mismatch = match (a, b) {
        (Outcome::Success { row_count: rows_a }, Outcome::Success { row_count: rows_b }) => {
            if *rows_a != *rows_b {
                Some(MismatchRecord { rows_a: *rows_a, rows_b: *rows_b, query: query.to_owned() })
            } else {
                None
            }
        },
        _ => None,
    };
    Verdict { failures: failed, mismatch }
}

} // verus!
