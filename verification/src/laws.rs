//! What holds of the frame loop whatever the events are.
//!
//! Each statement here is proved from the definitions in [`crate::controller`],
//! which are the ones the contracts of its functions are written in.

use crate::controller::{handled_events, handled_len, toggle_count, Controller, LoopState, Reaction};
use crate::demo::{lemma_after_toggles, Demo};
use crate::event::Event;
use vstd::prelude::*;

verus! {

/// Starting from direct mode, the mode after the events are handled is direct
/// if an even number of them asked for a toggle, and indexed if an odd number
/// did. In a sequence made of toggle requests alone, that number is its
/// length.
pub proof fn lemma_mode_parity(controller: Controller, events: Seq<Event>)
    requires
        controller.mode == Demo::Direct,
    ensures
        controller.after_events(events).mode == if toggle_count(events) % 2 == 0 {
            Demo::Direct
        } else {
            Demo::Indexed
        },
        (forall|i: int| 0 <= i < events.len() ==> events[i].is_toggle()) ==> toggle_count(events)
            == events.len(),
{
    lemma_mode_after_events(controller, events);
    lemma_after_toggles(controller.mode, toggle_count(events));
    if forall|i: int| 0 <= i < events.len() ==> events[i].is_toggle() {
        lemma_toggle_count_bounds(events);
    }
}

/// From any starting mode, handling events toggles the mode once for each
/// event that asks for a toggle, and no event does anything else to it.
pub proof fn lemma_mode_after_events(controller: Controller, events: Seq<Event>)
    ensures
        controller.after_events(events).mode == controller.mode.after_toggles(
            toggle_count(events),
        ),
    decreases events.len(),
{
    if events.len() > 0 {
        lemma_mode_after_events(controller, events.drop_last());
    }
}

/// At most every event asks for a toggle, and exactly every one does if the
/// sequence is made of toggle requests alone; none does if it holds none.
pub proof fn lemma_toggle_count_bounds(events: Seq<Event>)
    ensures
        toggle_count(events) <= events.len(),
        (forall|i: int| 0 <= i < events.len() ==> events[i].is_toggle()) ==> toggle_count(events)
            == events.len(),
        (forall|i: int| 0 <= i < events.len() ==> !events[i].is_toggle()) ==> toggle_count(events)
            == 0,
    decreases events.len(),
{
    if events.len() > 0 {
        let earlier = events.drop_last();
        lemma_toggle_count_bounds(earlier);
    }
}

/// An event that is neither a close request, nor the escape key released, nor
/// the space bar released changes nothing, however often it is handled: the
/// mode stays, the loop state stays, and no end of the loop is signalled.
pub proof fn lemma_other_event_ignored(controller: Controller, event: Event)
    requires
        !event.is_quit(),
        !event.is_toggle(),
    ensures
        controller.handled(event) == controller,
        controller.handled(event).handled(event) == controller,
        controller.reaction(event) == Reaction::Ignored,
{
}

/// A sequence of events of which none asks to quit or to toggle leaves the
/// controller as it was and announces nothing.
pub proof fn lemma_other_events_ignored(controller: Controller, events: Seq<Event>)
    requires
        forall|i: int| 0 <= i < events.len() ==> !events[i].is_quit() && !events[i].is_toggle(),
    ensures
        controller.after_events(events) == controller,
        controller.notices(events) == Seq::<Demo>::empty(),
    decreases events.len(),
{
    if events.len() > 0 {
        let earlier = events.drop_last();
        lemma_other_events_ignored(controller, earlier);
    }
}

/// Handling events ends the loop exactly if one of them asks to quit, and
/// never starts it again.
pub proof fn lemma_state_after_events(controller: Controller, events: Seq<Event>)
    ensures
        controller.after_events(events).state == LoopState::Terminated <==> controller.state
            == LoopState::Terminated || exists|i: int|
            0 <= i < events.len() && events[i].is_quit(),
    decreases events.len(),
{
    if events.len() > 0 {
        let earlier = events.drop_last();
        assert(forall|i: int| 0 <= i < earlier.len() ==> earlier[i] == events[i]);
        lemma_state_after_events(controller, earlier);
    }
}

/// One notice goes out for each toggle, and the notices alternate: the
/// `k`-th of them (from 0) announces the mode `k + 1` toggles after the
/// starting one.
pub proof fn lemma_notices_alternate(controller: Controller, events: Seq<Event>)
    ensures
        controller.notices(events).len() == toggle_count(events),
        forall|k: int|
            0 <= k < toggle_count(events) ==> #[trigger] controller.notices(events)[k]
                == controller.mode.after_toggles((k + 1) as nat),
    decreases events.len(),
{
    if events.len() > 0 {
        let earlier = events.drop_last();
        lemma_notices_alternate(controller, earlier);
        lemma_mode_after_events(controller, earlier);
    }
}

/// The events the loop handles are a prefix of the batch that holds no quit
/// request before its last event, and that stops short of the whole batch
/// only on a quit request.
pub proof fn lemma_handled_len_bounds(events: Seq<Event>)
    ensures
        handled_len(events) <= events.len(),
        events.len() > 0 ==> handled_len(events) > 0,
        forall|j: int| 0 <= j < handled_len(events) - 1 ==> !events[j].is_quit(),
        handled_len(events) < events.len() ==> events[handled_len(events) - 1].is_quit(),
    decreases events.len(),
{
    if events.len() > 0 && !events[0].is_quit() {
        let rest = events.drop_first();
        lemma_handled_len_bounds(rest);
        assert forall|j: int| 0 <= j < handled_len(events) - 1 implies !events[j].is_quit() by {
            if j > 0 {
                assert(events[j] == rest[j - 1]);
            }
        }
    }
}

/// An iteration of a running loop ends it exactly if one of the polled events
/// asks to quit. If none does, every event of the batch is handled.
pub proof fn lemma_step_stops_on_quit(controller: Controller, events: Seq<Event>)
    requires
        controller.state == LoopState::Running,
    ensures
        controller.after_step(events).state == LoopState::Terminated <==> exists|i: int|
            0 <= i < events.len() && events[i].is_quit(),
        (forall|i: int| 0 <= i < events.len() ==> !events[i].is_quit()) ==> {
            &&& controller.after_step(events) == controller.after_events(events)
            &&& controller.step_notices(events) == controller.notices(events)
        },
{
    let seen = handled_events(events);
    lemma_handled_len_bounds(events);
    lemma_state_after_events(controller, seen);
    if forall|i: int| 0 <= i < events.len() ==> !events[i].is_quit() {
        assert(seen =~= events);
    }
}

/// Nothing leads out of the terminated state: a terminated controller stays
/// terminated whatever events it handles, and an iteration of its loop changes
/// nothing and announces nothing.
pub proof fn lemma_terminated_is_terminal(controller: Controller, events: Seq<Event>)
    requires
        controller.state == LoopState::Terminated,
    ensures
        controller.after_events(events).state == LoopState::Terminated,
        controller.after_step(events) == controller,
        controller.step_notices(events) == Seq::<Demo>::empty(),
{
    lemma_state_after_events(controller, events);
}

/// The loop on a recording is running at the start of each iteration it
/// makes, so every iteration but the last has rendered. It stops short of the
/// whole recording only when terminated, and nothing recorded after its last
/// iteration is handled.
pub proof fn lemma_run_renders_until_quit(controller: Controller, polls: Seq<Seq<Event>>)
    ensures
        controller.iterations(polls) <= polls.len(),
        forall|j: int|
            0 <= j < controller.iterations(polls) ==> controller.after_run(
                #[trigger] polls.take(j),
            ).state == LoopState::Running,
        controller.iterations(polls) < polls.len() ==> controller.after_run(polls).state
            == LoopState::Terminated,
        controller.after_run(polls) == controller.after_run(
            polls.take(controller.iterations(polls) as int),
        ),
    decreases polls.len(),
{
    if polls.len() > 0 {
        let earlier = polls.drop_last();
        let n = controller.iterations(polls) as int;
        lemma_run_renders_until_quit(controller, earlier);
        assert forall|j: int| 0 <= j < polls.len() implies #[trigger] earlier.take(j)
            =~= polls.take(j) by {}
        if controller.after_run(earlier).state == LoopState::Running {
            assert(polls.take(n) =~= polls);
            assert forall|j: int| 0 <= j < n implies controller.after_run(
                #[trigger] polls.take(j),
            ).state == LoopState::Running by {
                if j < controller.iterations(earlier) {
                    assert(earlier.take(j) == polls.take(j));
                } else {
                    assert(controller.iterations(earlier) == earlier.len());
                    assert(polls.take(j) == earlier);
                }
            }
        } else {
            assert forall|j: int| 0 <= j < n implies controller.after_run(
                #[trigger] polls.take(j),
            ).state == LoopState::Running by {
                assert(earlier.take(j) == polls.take(j));
            }
        }
    }
}

/// Running the loop on one recording and then on another is running it on
/// the two put together.
pub proof fn lemma_run_in_two_parts(
    controller: Controller,
    first: Seq<Seq<Event>>,
    second: Seq<Seq<Event>>,
)
    ensures
        controller.after_run(first + second) == controller.after_run(first).after_run(second),
    decreases second.len(),
{
    if second.len() > 0 {
        assert((first + second).drop_last() =~= first + second.drop_last());
        lemma_run_in_two_parts(controller, first, second.drop_last());
    }
}

} // verus!
