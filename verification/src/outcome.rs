//! What one task learns about one query: the outcome of its execution on
//! each backend, and how long each execution took.

use vstd::prelude::*;

verus! {

/// One of the two database systems under comparison. Backend `A` is the
/// primary one: its latencies are the ones that the histogram records.
#[derive(Clone, Copy, Debug, PartialEq, Eq, Structural)]
pub enum Backend {
    A,
    B,
}

/// The result of executing one query against one backend.
#[derive(Clone, Debug, PartialEq, Eq)]
pub enum Outcome {
    /// The backend answered with this many rows.
    Success { row_count: u64 },
    /// The execution failed; the failure is kept, not passed on.
    Failure { cause: String },
}

impl Outcome {
    /// Captures the result of an execution as an outcome, so that a failure
    /// never leaves the task that met it.
    pub fn capture(result: Result<u64, String>) -> (outcome: Outcome)
        ensures
            outcome == match result {
                Ok(row_count) => Outcome::Success { row_count },
                Err(cause) => Outcome::Failure { cause },
            },
    {
        match result {
            Ok(row_count) => Outcome::Success { row_count },
            Err(cause) => Outcome::Failure { cause },
        }
    }

    /// Whether the execution failed.
    pub fn is_failure(&self) -> (failed: bool)
        ensures
            failed == (*self is Failure),
    {
        match self {
            Outcome::Success { .. } => false,
            Outcome::Failure { .. } => true,
        }
    }

    /// The number of rows of a successful execution.
    pub fn row_count(&self) -> (rows: Option<u64>)
        ensures
            rows == match *self {
                Outcome::Success { row_count } => Some(row_count),
                Outcome::Failure { .. } => None::<u64>,
            },
    {
        match self {
            Outcome::Success { row_count } => Some(*row_count),
            Outcome::Failure { .. } => None,
        }
    }
}

/// What the execution of one query yields: the outcome on each backend and
/// the time each execution took, from just before dispatch to the response,
/// whether it succeeded or failed.
#[derive(Clone, Debug, PartialEq, Eq)]
pub struct TaskReport {
    pub outcome_a: Outcome,
    pub outcome_b: Outcome,
    pub elapsed_a_ms: u64,
    pub elapsed_b_ms: u64,
}

} // verus!
