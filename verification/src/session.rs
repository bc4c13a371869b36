//! Whole sessions: what holds of the loop over any sequence of events.

use vstd::prelude::*;
use crate::capture::{awaited, next, ActionView, EventView, StateView, StepView};
use crate::decoder::decoded;

verus! {

/// The state that the loop has reached from `state` after `events`.
pub open spec fn state_after(state: StateView, events: Seq<EventView>) -> StateView
    decreases events.len(),
{
    if events.len() == 0 {
        state
    } else {
        next(state_after(state, events.drop_last()), events.last()).state
    }
}

/// The step that the loop takes on the event at `index`, having started in
/// `state` and taken the events before it.
pub open spec fn step_at(state: StateView, events: Seq<EventView>, index: int) -> StepView
    recommends
        0 <= index < events.len(),
{
    next(state_after(state, events.take(index)), events[index])
}

/// Whether the step at `index` asks for a dispatch.
pub open spec fn dispatches_at(state: StateView, events: Seq<EventView>, index: int) -> bool {
    step_at(state, events, index).action matches Some(ActionView::Dispatch { .. })
}

/// Every event is the one that the loop awaits when it comes: the caller
/// does what it is asked and hands back what came of it.
pub open spec fn faithful(state: StateView, events: Seq<EventView>) -> bool {
    forall|i: int|
        0 <= i < events.len() ==> awaited(
            #[trigger] state_after(state, events.take(i)),
            events[i],
        )
}

/// The lines for which the loop asks a dispatch over `events`, in order.
pub open spec fn dispatched_lines(state: StateView, events: Seq<EventView>) -> Seq<Seq<char>>
    decreases events.len(),
{
    if events.len() == 0 {
        seq![]
    } else {
        let before = dispatched_lines(state, events.drop_last());
        match next(state_after(state, events.drop_last()), events.last()).action {
            Some(ActionView::Dispatch { line }) => before.push(line),
            _ => before,
        }
    }
}

/// The lines of the reports among `events` that decode, in order.
pub open spec fn decodable_lines(events: Seq<EventView>) -> Seq<Seq<char>>
    decreases events.len(),
{
    if events.len() == 0 {
        seq![]
    } else {
        let before = decodable_lines(events.drop_last());
        match events.last() {
            EventView::Report { bytes } => match decoded(bytes, bytes.len() as int) {
                Ok(line) => before.push(line),
                Err(_) => before,
            },
            _ => before,
        }
    }
}

/// One line in flight: a dispatch is asked for only while reading, and it
/// puts its line in flight; while a line is in flight no other dispatch is
/// asked for, and the line stays in flight until its outcome comes.
pub proof fn lemma_one_line_in_flight(state: StateView, event: EventView)
    ensures
        next(state, event).action matches Some(ActionView::Dispatch { line }) ==> state
            is Reading && next(state, event).state == (StateView::Dispatching { line }),
        state is Dispatching ==> !(next(state, event).action matches Some(
            ActionView::Dispatch { .. },
        )),
        state is Dispatching && !(event is Dispatched) ==> next(state, event).state == state,
{
}

/// The loop does not halt: once the device is open, every awaited event
/// is answered by the next thing to do.
pub proof fn lemma_awaited_event_goes_on(state: StateView, event: EventView)
    requires
        awaited(state, event),
        !(event is OpenFailed),
    ensures
        next(state, event).action is Some,
        !(next(state, event).state is Idle),
{
}

proof fn lemma_state_after_take(state: StateView, events: Seq<EventView>, index: int)
    requires
        0 <= index < events.len(),
    ensures
        state_after(state, events.take(index + 1)) == step_at(state, events, index).state,
{
    let taken = events.take(index + 1);
    assert(taken.drop_last() =~= events.take(index));
    assert(taken.last() == events[index]);
}

proof fn lemma_line_stays_in_flight(
    state: StateView,
    events: Seq<EventView>,
    first: int,
    index: int,
)
    requires
        0 <= first < index <= events.len(),
        dispatches_at(state, events, first),
        forall|k: int| first < k < index ==> !(events[k] is Dispatched),
    ensures
        state_after(state, events.take(index)) is Dispatching,
    decreases index,
{
    lemma_state_after_take(state, events, index - 1);
    let before = state_after(state, events.take(index - 1));
    lemma_one_line_in_flight(before, events[index - 1]);
    if first + 1 < index {
        lemma_line_stays_in_flight(state, events, first, index - 1);
    }
}

/// Dispatches take turns: between two steps of a session that each ask for
/// a dispatch, the outcome of the first has come.
pub proof fn lemma_dispatches_in_turn(
    state: StateView,
    events: Seq<EventView>,
    first: int,
    second: int,
)
    requires
        0 <= first < second < events.len(),
        dispatches_at(state, events, first),
        dispatches_at(state, events, second),
    ensures
        exists|k: int| first < k < second && (#[trigger] events[k]) is Dispatched,
{
    if forall|k: int| first < k < second ==> !((#[trigger] events[k]) is Dispatched) {
        lemma_line_stays_in_flight(state, events, first, second);
        lemma_one_line_in_flight(state_after(state, events.take(second)), events[second]);
    }
}

/// A dispatch for every line, and for nothing else: in a session whose
/// events are all awaited, the lines for which a dispatch is asked are the
/// lines of the reports that decode, each once and in the order of the
/// reports. Failed reads, reports that do not decode and the outcomes of
/// earlier dispatches take nothing from them and add nothing.
pub proof fn lemma_dispatch_per_line(state: StateView, events: Seq<EventView>)
    requires
        faithful(state, events),
    ensures
        dispatched_lines(state, events) == decodable_lines(events),
    decreases events.len(),
{
    if events.len() > 0 {
        let earlier = events.drop_last();
        let last = events.len() - 1;
        assert(events.take(last) =~= earlier);
        assert forall|i: int| 0 <= i < earlier.len() implies awaited(
            #[trigger] state_after(state, earlier.take(i)),
            earlier[i],
        ) by {
            assert(earlier.take(i) =~= events.take(i));
        }
        lemma_dispatch_per_line(state, earlier);
        assert(awaited(state_after(state, events.take(last)), events[last]));
    }
}

/// A fault is left behind: after a read that failed, a report that did not
/// decode, or a dispatch that has come back, whatever its outcome, the loop
/// reads again, and the next report that decodes is dispatched.
pub proof fn lemma_fault_isolation(state: StateView, fault: EventView, bytes: Seq<u8>)
    requires
        awaited(state, fault),
        fault is ReadFailed || fault is Dispatched || (fault matches EventView::Report {
            bytes: malformed,
        } && decoded(malformed, malformed.len() as int) is Err),
        decoded(bytes, bytes.len() as int) is Ok,
    ensures
        next(state, fault).state == StateView::Reading,
        next(state, fault).action == Some(ActionView::Read),
        next(next(state, fault).state, EventView::Report { bytes }).action == Some(
            ActionView::Dispatch { line: decoded(bytes, bytes.len() as int)->Ok_0 },
        ),
{
}

} // verus!
