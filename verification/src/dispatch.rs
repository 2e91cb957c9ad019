//! The dispatch loop of a run, as a state machine.
//!
//! The loop itself does I/O at every turn: it reads a line, waits for a
//! connection of each pool, hands a task to the scheduler, waits for all
//! tasks. What it does next is decided here. The caller performs the action
//! it is given and reports what came of it as the next event.
//!
//! For each line a connection of backend A is acquired first, then one of
//! backend B, and only then is the task spawned: a pool that has no
//! connection to give holds the loop back. A line source or a pool that
//! fails ends the run at once.

use crate::outcome::Backend;
use vstd::prelude::*;

verus! {

/// Where the dispatch loop stands.
#[derive(Clone, Debug, PartialEq, Eq)]
pub enum Phase {
    /// Waiting for the next line of the input.
    Reading,
    /// Holding a line, waiting for a connection of backend A.
    AcquiringA { query: String },
    /// Holding a line and a connection of backend A, waiting for one of
    /// backend B.
    AcquiringB { query: String },
    /// Waiting for the scheduler to take the task of the line just counted.
    Spawning,
    /// The input is exhausted; waiting for every spawned task to finish.
    Joining,
    /// Every task has finished: the run can be summarized.
    Finished,
    /// The run was aborted: nothing more is dispatched and no summary is
    /// made.
    Aborted,
}

/// Why a run was aborted.
#[derive(Clone, Debug, PartialEq, Eq)]
pub enum AbortReason {
    /// Reading the input failed.
    InputFailed { cause: String },
    /// A pool gave no connection for the line with this number, counted
    /// from one.
    AcquisitionFailed { backend: Backend, line_no: u64, cause: String },
}

/// What came of the action that the dispatcher asked for last.
#[derive(Clone, Debug, PartialEq, Eq)]
pub enum Event {
    /// The line source yielded a line.
    LineRead { query: String },
    /// The line source is exhausted.
    EndOfInput,
    /// The line source failed.
    ReadFailed { cause: String },
    /// The pool of this backend gave a connection.
    Acquired { backend: Backend },
    /// The pool of this backend gave none: it timed out or failed.
    AcquireFailed { backend: Backend, cause: String },
    /// The scheduler took the task.
    Spawned,
    /// Every spawned task has finished.
    TasksJoined,
}

/// What the caller is to do next.
#[derive(Clone, Debug, PartialEq, Eq)]
pub enum Action {
    /// Read the next line of the input.
    ReadLine,
    /// Acquire a connection from the pool of this backend.
    Acquire { backend: Backend },
    /// Spawn the task of this line, with the two connections acquired for
    /// it.
    Spawn { line_no: u64, query: String },
    /// Wait until every spawned task has finished.
    JoinTasks,
    /// Read the shared tally and summarize the run.
    Summarize,
    /// Give up the run with this reason.
    Abort { reason: AbortReason },
}

/// The state of the dispatch loop: its phase and the number of lines for
/// which a task was spawned.
#[derive(Clone, Debug, PartialEq, Eq)]
pub struct Dispatcher {
    pub phase: Phase,
    pub dispatched: u64,
}

/// The state in which every run starts: nothing dispatched, about to read
/// the first line.
pub open spec fn initial() -> Dispatcher {
    Dispatcher { phase: Phase::Reading, dispatched: 0 }
}

/// The number, counted from one, of the line that is dispatched next.
pub open spec fn next_line_no(state: Dispatcher) -> u64 {
    (state.dispatched + 1) as u64
}

/// The state after an event, and the action that it calls for. An event
/// that the phase does not wait for changes nothing and calls for nothing.
pub open spec fn transition(state: Dispatcher, event: Event) -> (Dispatcher, Option<Action>) {
    match (state.phase, event) {
        (Phase::Reading, Event::LineRead { query }) => (
            Dispatcher { phase: Phase::AcquiringA { query }, dispatched: state.dispatched },
            Some(Action::Acquire { backend: Backend::A }),
        ),
        (Phase::Reading, Event::EndOfInput) => (
            Dispatcher { phase: Phase::Joining, dispatched: state.dispatched },
            Some(Action::JoinTasks),
        ),
        (Phase::Reading, Event::ReadFailed { cause }) => (
            Dispatcher { phase: Phase::Aborted, dispatched: state.dispatched },
            Some(Action::Abort { reason: AbortReason::InputFailed { cause } }),
        ),
        (Phase::AcquiringA { query }, Event::Acquired { backend: Backend::A }) => (
            Dispatcher { phase: Phase::AcquiringB { query }, dispatched: state.dispatched },
            Some(Action::Acquire { backend: Backend::B }),
        ),
        (Phase::AcquiringA { query }, Event::AcquireFailed { backend: Backend::A, cause }) => (
            Dispatcher { phase: Phase::Aborted, dispatched: state.dispatched },
            Some(
                Action::Abort {
                    reason: AbortReason::AcquisitionFailed {
                        backend: Backend::A,
                        line_no: next_line_no(state),
                        cause,
                    },
                },
            ),
        ),
        (Phase::AcquiringB { query }, Event::Acquired { backend: Backend::B }) => (
            Dispatcher { phase: Phase::Spawning, dispatched: next_line_no(state) },
            Some(Action::Spawn { line_no: next_line_no(state), query }),
        ),
        (Phase::AcquiringB { query }, Event::AcquireFailed { backend: Backend::B, cause }) => (
            Dispatcher { phase: Phase::Aborted, dispatched: state.dispatched },
            Some(
                Action::Abort {
                    reason: AbortReason::AcquisitionFailed {
                        backend: Backend::B,
                        line_no: next_line_no(state),
                        cause,
                    },
                },
            ),
        ),
        (Phase::Spawning, Event::Spawned) => (
            Dispatcher { phase: Phase::Reading, dispatched: state.dispatched },
            Some(Action::ReadLine),
        ),
        (Phase::Joining, Event::TasksJoined) => (
            Dispatcher { phase: Phase::Finished, dispatched: state.dispatched },
            Some(Action::Summarize),
        ),
        _ => (state, None),
    }
}

impl Dispatcher {
    /// The dispatcher of a new run. The first thing to do is to read a line.
    pub fn new() -> (state: Dispatcher)
        ensures
            state == initial(),
    {
        Dispatcher { phase: Phase::Reading, dispatched: 0 }
    }

    /// Whether the run has come to its end, by finishing or by aborting.
    pub fn is_done(&self) -> (done: bool)
        ensures
            done == (self.phase is Finished || self.phase is Aborted),
    {
        match self.phase {
            Phase::Finished => true,
            Phase::Aborted => true,
            _ => false,
        }
    }

    /// Takes an event and decides what to do next.
    pub fn step(self, event: Event) -> (next: (Dispatcher, Option<Action>))
        requires
            self.dispatched < u64::MAX,
        ensures
            next == transition(self, event),
    {
        let Dispatcher { phase, dispatched } = self;
        match (phase, event) {
            (Phase::Reading, Event::LineRead { query }) => (
                Dispatcher { phase: Phase::AcquiringA { query }, dispatched },
                Some(Action::Acquire { backend: Backend::A }),
            ),
            (Phase::Reading, Event::EndOfInput) => (
                Dispatcher { phase: Phase::Joining, dispatched },
                Some(Action::JoinTasks),
            ),
            (Phase::Reading, Event::ReadFailed { cause }) => (
                Dispatcher { phase: Phase::Aborted, dispatched },
                Some(Action::Abort { reason: AbortReason::InputFailed { cause } }),
            ),
            (Phase::AcquiringA { query }, Event::Acquired { backend: Backend::A }) => (
                Dispatcher { phase: Phase::AcquiringB { query }, dispatched },
                Some(Action::Acquire { backend: Backend::B }),
            ),
            (Phase::AcquiringA { query }, Event::AcquireFailed { backend: Backend::A, cause }) => (
                Dispatcher { phase: Phase::Aborted, dispatched },
                Some(
                    Action::Abort {
                        reason: AbortReason::AcquisitionFailed {
                            backend: Backend::A,
                            line_no: dispatched + 1,
                            cause,
                        },
                    },
                ),
            ),
            (Phase::AcquiringB { query }, Event::Acquired { backend: Backend::B }) => (
                Dispatcher { phase: Phase::Spawning, dispatched: dispatched + 1 },
                Some(Action::Spawn { line_no: dispatched + 1, query }),
            ),
            (Phase::AcquiringB { query }, Event::AcquireFailed { backend: Backend::B, cause }) => (
                Dispatcher { phase: Phase::Aborted, dispatched },
                Some(
                    Action::Abort {
                        reason: AbortReason::AcquisitionFailed {
                            backend: Backend::B,
                            line_no: dispatched + 1,
                            cause,
                        },
                    },
                ),
            ),
            (Phase::Spawning, Event::Spawned) => (
                Dispatcher { phase: Phase::Reading, dispatched },
                Some(Action::ReadLine),
            ),
            (Phase::Joining, Event::TasksJoined) => (
                Dispatcher { phase: Phase::Finished, dispatched },
                Some(Action::Summarize),
            ),
            (phase, _) => (Dispatcher { phase, dispatched }, None),
        }
    }
}

} // verus!
