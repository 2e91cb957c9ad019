//! Differential replay of a query corpus against two database backends:
//! the bookkeeping that turns per-query results into a latency histogram,
//! an error count, mismatch records and a final run summary.

pub mod decimal;
pub mod dispatch;
pub mod histogram;
pub mod outcome;
pub mod reconcile;
pub mod render;
pub mod replay;
pub mod summary;
pub mod tally;
pub mod trace;
