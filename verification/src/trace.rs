//! What holds of the dispatch loop over a whole run, whatever events reach
//! it.
//!
//! A run is seen here as the sequence of the events that were handed to the
//! dispatcher, starting from its initial state.

use crate::dispatch::{initial, transition, Action, Dispatcher, Event, Phase};
use vstd::prelude::*;

verus! {

/// What a run has come to after some events.
pub struct Trace {
    /// The state of the dispatcher.
    pub state: Dispatcher,
    /// The lines that the dispatcher took from the line source, in order.
    pub lines: Seq<String>,
    /// The lines for which it asked to spawn a task, in order.
    pub spawned: Seq<String>,
    /// Whether it asked for the summary of the run.
    pub summarized: bool,
}

/// The trace of a run that has seen `events` in order.
pub open spec fn trace_of(events: Seq<Event>) -> Trace
    decreases events.len(),
{
    if events.len() == 0 {
        Trace {
            state: initial(),
            lines: Seq::empty(),
            spawned: Seq::empty(),
            summarized: false,
        }
    } else {
        let before = trace_of(events.drop_last());
        let event = events.last();
        let (state, action) = transition(before.state, event);
        Trace {
            state,
            lines: if before.state.phase is Reading && event is LineRead {
                before.lines.push(event->query)
            } else {
                before.lines
            },
            spawned: match action {
                Some(Action::Spawn { query, .. }) => before.spawned.push(query),
                _ => before.spawned,
            },
            summarized: before.summarized || action == Some(Action::Summarize),
        }
    }
}

/// Whether a phase holds a line that waits for its connections.
pub open spec fn holds_line(phase: Phase) -> bool {
    phase is AcquiringA || phase is AcquiringB
}

/// Whether a phase is one in which no line is read any more.
pub open spec fn past_input(phase: Phase) -> bool {
    phase is Joining || phase is Finished || phase is Aborted
}

/// Every line that the dispatcher takes is spawned once, and the lines are
/// spawned in the order in which they were taken: at any moment the lines
/// spawned are the lines taken, but for the one line that still waits for
/// its connections or that the run was aborted on. The number of lines
/// dispatched is the number of lines spawned.
pub proof fn lemma_lines_are_spawned_in_order(events: Seq<Event>)
    requires
        events.len() < u64::MAX,
    ensures
        ({
            let trace = trace_of(events);
            &&& trace.state.dispatched == trace.spawned.len()
            &&& trace.spawned.len() <= trace.lines.len() <= trace.spawned.len() + 1
            &&& trace.spawned == trace.lines.take(trace.spawned.len() as int)
            &&& trace.state.phase matches Phase::AcquiringA { query } ==> trace.lines
                == trace.spawned.push(query)
            &&& trace.state.phase matches Phase::AcquiringB { query } ==> trace.lines
                == trace.spawned.push(query)
            &&& !holds_line(trace.state.phase) && !(trace.state.phase is Aborted) ==> trace.lines
                == trace.spawned
        }),
    decreases events.len(),
{
    lemma_dispatched_is_bounded(events);
    if events.len() > 0 {
        lemma_lines_are_spawned_in_order(events.drop_last());
        lemma_dispatched_is_bounded(events.drop_last());
        let before = trace_of(events.drop_last());
        let after = trace_of(events);
        assert(before.spawned =~= before.lines.take(before.spawned.len() as int));
        assert(after.spawned =~= after.lines.take(after.spawned.len() as int));
    } else {
        let trace = trace_of(events);
        assert(trace.spawned =~= trace.lines.take(0));
    }
}

/// No more lines are dispatched than events were seen.
proof fn lemma_dispatched_is_bounded(events: Seq<Event>)
    requires
        events.len() < u64::MAX,
    ensures
        trace_of(events).state.dispatched <= events.len(),
    decreases events.len(),
{
    if events.len() > 0 {
        lemma_dispatched_is_bounded(events.drop_last());
    }
}

/// Once the input is exhausted or the run is aborted, no task is spawned
/// any more, whatever events follow. An aborted run stays aborted and is
/// never summarized.
pub proof fn lemma_nothing_is_spawned_past_input(events: Seq<Event>, more: Seq<Event>)
    requires
        past_input(trace_of(events).state.phase),
    ensures
        past_input(trace_of(events + more).state.phase),
        trace_of(events + more).spawned == trace_of(events).spawned,
        trace_of(events + more).lines == trace_of(events).lines,
        trace_of(events + more).state.dispatched == trace_of(events).state.dispatched,
        trace_of(events).state.phase is Aborted ==> {
            &&& trace_of(events + more).state.phase is Aborted
            &&& trace_of(events + more).summarized == trace_of(events).summarized
        },
    decreases more.len(),
{
    if more.len() == 0 {
        assert(events + more =~= events);
    } else {
        lemma_nothing_is_spawned_past_input(events, more.drop_last());
        assert((events + more).drop_last() =~= events + more.drop_last());
    }
}

/// A run is summarized only when it has finished, and a run that has been
/// aborted was not summarized.
pub proof fn lemma_summary_means_finished(events: Seq<Event>)
    ensures
        trace_of(events).summarized ==> trace_of(events).state.phase is Finished,
    decreases events.len(),
{
    if events.len() > 0 {
        lemma_summary_means_finished(events.drop_last());
    }
}

} // verus!
