//! What holds of the dispatcher on every input.

use vstd::prelude::*;
use crate::control::{elapsed_between, LoopControl, Size};
use crate::event::{Event, Step};
use crate::script::Cycle;
use crate::window::{presented_steps, WindowState};

verus! {

/// The state after a sequence of events, each handled in turn, whatever the
/// loop-control signal says in between.
pub open spec fn after_all<K, P, S, C, M>(
    state: WindowState,
    events: Seq<Event<K, P, S, C, M>>,
) -> WindowState
    decreases events.len(),
{
    if events.len() == 0 {
        state
    } else {
        after_all(state, events.drop_last()).after(events.last())
    }
}

/// The size that the last resize among `events` reported, or `initial` where
/// there was none.
pub open spec fn last_reported_size<K, P, S, C, M>(
    initial: Size,
    events: Seq<Event<K, P, S, C, M>>,
) -> Size
    decreases events.len(),
{
    if events.len() == 0 {
        initial
    } else {
        match events.last() {
            Event::Resized(size) => size,
            _ => last_reported_size(initial, events.drop_last()),
        }
    }
}

/// Exactly one of `steps` satisfies `wanted`.
pub open spec fn exactly_one<T>(steps: Seq<T>, wanted: spec_fn(T) -> bool) -> bool {
    exists|i: int|
        0 <= i < steps.len() && #[trigger] wanted(steps[i]) && forall|j: int|
            0 <= j < steps.len() && #[trigger] wanted(steps[j]) ==> j == i
}

/// None of `steps` satisfies `wanted`.
pub open spec fn none_of<T>(steps: Seq<T>, wanted: spec_fn(T) -> bool) -> bool {
    forall|i: int| 0 <= i < steps.len() ==> !#[trigger] wanted(steps[i])
}

/// A dispatcher that was just set up has a surface and a frame buffer of the
/// window's size, and waits.
pub proof fn fresh_window_matches(size: Size)
    ensures
        WindowState::fresh(size).wf(),
        WindowState::fresh(size).window == size,
        WindowState::fresh(size).buffer == size,
        WindowState::fresh(size).control == LoopControl::Wait,
{
}

/// After a resize, window, surface and frame buffer have the reported size,
/// whatever they were before.
pub proof fn resize_round_trip<K, P, S, C, M>(state: WindowState, size: Size)
    ensures
        state.after(Event::<K, P, S, C, M>::Resized(size)).window == size,
        state.after(Event::<K, P, S, C, M>::Resized(size)).surface == size,
        state.after(Event::<K, P, S, C, M>::Resized(size)).buffer == size,
{
}

/// After any sequence of events the frame buffer and the surface have the
/// size that the window last reported.
pub proof fn buffer_follows_window<K, P, S, C, M>(
    state: WindowState,
    events: Seq<Event<K, P, S, C, M>>,
)
    requires
        state.wf(),
    ensures
        after_all(state, events).wf(),
        after_all(state, events).buffer == last_reported_size(state.window, events),
    decreases events.len(),
{
    if events.len() > 0 {
        buffer_follows_window(state, events.drop_last());
    }
}

/// The loop on a script keeps surface and frame buffer at the window's size.
pub proof fn loop_keeps_sizes_equal<K, P, S, C, M, R>(
    state: WindowState,
    script: Seq<Cycle<K, P, S, C, M, R>>,
)
    requires
        state.wf(),
    ensures
        state.outcome(script).wf(),
    decreases script.len(),
{
    if script.len() > 0 && state.control != LoopControl::Exit {
        loop_keeps_sizes_equal(
            state.cycle_after(script[0]),
            script.subrange(1, script.len() as int),
        );
    }
}

/// Time between readings adds up: over readings that do not go back, the
/// time from the first to the last is the sum of the two parts. A reading
/// that goes back counts as no time.
pub proof fn elapsed_adds_up(a: u64, b: u64, c: u64)
    ensures
        a <= b <= c ==> elapsed_between(a, b) + elapsed_between(b, c) == elapsed_between(a, c),
        a <= b ==> elapsed_between(a, b) == b - a,
        b < a ==> elapsed_between(a, b) == 0,
{
}

/// The time that a sequence of steps hands to the update callback, in all.
pub open spec fn time_updated<K, P, S, C, M, R>(steps: Seq<Step<K, P, S, C, M, R>>) -> int
    decreases steps.len(),
{
    if steps.len() == 0 {
        0
    } else {
        time_updated(steps.drop_last()) + match steps.last() {
            Step::Update(dt) => dt as int,
            _ => 0,
        }
    }
}

/// The clock's readings come in order while the loop runs on a script: in
/// each idle cycle the clock was last reset before the cycle's reading, and
/// is reset again at or after it.
pub open spec fn readings_in_order<K, P, S, C, M, R>(
    state: WindowState,
    script: Seq<Cycle<K, P, S, C, M, R>>,
) -> bool
    decreases script.len(),
{
    if script.len() == 0 || state.control == LoopControl::Exit {
        true
    } else {
        &&& match script[0].event {
            Event::MainEventsCleared(now) => state.clock <= now <= script[0].reset_at,
            _ => true,
        }
        &&& readings_in_order(
            state.cycle_after(script[0]),
            script.subrange(1, script.len() as int),
        )
    }
}

proof fn time_updated_adds<K, P, S, C, M, R>(
    front: Seq<Step<K, P, S, C, M, R>>,
    back: Seq<Step<K, P, S, C, M, R>>,
)
    ensures
        time_updated(front + back) == time_updated(front) + time_updated(back),
    decreases back.len(),
{
    if back.len() == 0 {
        assert(front + back =~= front);
    } else {
        time_updated_adds(front, back.drop_last());
        assert((front + back).drop_last() =~= front + back.drop_last());
    }
}

proof fn time_updated_in_turn<K, P, S, C, M, R>(state: WindowState, cycle: Cycle<K, P, S, C, M, R>)
    ensures
        time_updated(state.cycle_steps(cycle)) == match cycle.event {
            Event::MainEventsCleared(now) => elapsed_between(state.clock, now) as int,
            _ => 0,
        },
{
    reveal_with_fuel(time_updated, 6);
    let steps = state.steps::<K, P, S, C, M, R>(cycle.event);
    if cycle.event is RedrawRequested {
        time_updated_adds(steps, presented_steps::<K, P, S, C, M, R>(cycle.present));
    }
}

/// The update callback is never handed more time than has passed: over a loop
/// whose readings come in order, the times handed to it add up to no more
/// than the time from the first reset of the clock to the last. Nothing is
/// lost but the time between a cycle's reading and the reset that follows it.
pub proof fn updates_stay_within_span<K, P, S, C, M, R>(
    state: WindowState,
    script: Seq<Cycle<K, P, S, C, M, R>>,
)
    requires
        readings_in_order(state, script),
    ensures
        state.clock <= state.outcome(script).clock,
        time_updated(state.trace(script)) <= state.outcome(script).clock - state.clock,
    decreases script.len(),
{
    if script.len() > 0 && state.control != LoopControl::Exit {
        let next = state.cycle_after(script[0]);
        let rest = script.subrange(1, script.len() as int);
        updates_stay_within_span(next, rest);
        time_updated_in_turn(state, script[0]);
        time_updated_adds(state.cycle_steps(script[0]), next.trace(rest));
    }
}

/// An idle cycle calls the update callback once, with the time since the
/// clock was reset, asks for one redraw after it, and then resets the clock.
pub proof fn idle_cycle_updates_and_redraws_once<K, P, S, C, M, R>(state: WindowState, now: u64)
    ensures
        exactly_one(
            state.steps::<K, P, S, C, M, R>(Event::MainEventsCleared(now)),
            |s: Step<K, P, S, C, M, R>| s is RequestRedraw,
        ),
        exactly_one(
            state.steps::<K, P, S, C, M, R>(Event::MainEventsCleared(now)),
            |s: Step<K, P, S, C, M, R>| s is Update,
        ),
        none_of(
            state.steps::<K, P, S, C, M, R>(Event::MainEventsCleared(now)),
            |s: Step<K, P, S, C, M, R>| s is Render || s is Present,
        ),
        state.steps::<K, P, S, C, M, R>(Event::MainEventsCleared(now))[0] == Step::<
            K,
            P,
            S,
            C,
            M,
            R,
        >::Update(elapsed_between(state.clock, now)),
{
    let steps = state.steps::<K, P, S, C, M, R>(Event::MainEventsCleared(now));
    let redraw = |s: Step<K, P, S, C, M, R>| s is RequestRedraw;
    let update = |s: Step<K, P, S, C, M, R>| s is Update;
    assert(redraw(steps[1]));
    assert(update(steps[0]));
}

/// A redraw request calls the render callback once and then presents once,
/// whatever the outcome; the render-error callback follows once where the
/// presentation failed, and not at all where it succeeded. No redraw is
/// asked for in turn.
pub proof fn redraw_renders_and_presents_once<K, P, S, C, M, R>(
    state: WindowState,
    cycle: Cycle<K, P, S, C, M, R>,
)
    requires
        cycle.event is RedrawRequested,
    ensures
        exactly_one(state.cycle_steps(cycle), |s: Step<K, P, S, C, M, R>| s is Render),
        exactly_one(state.cycle_steps(cycle), |s: Step<K, P, S, C, M, R>| s is Present),
        state.cycle_steps(cycle)[0] is Render,
        state.cycle_steps(cycle)[1] is Present,
        none_of(state.cycle_steps(cycle), |s: Step<K, P, S, C, M, R>| s is RequestRedraw),
        cycle.present is Ok ==> none_of(
            state.cycle_steps(cycle),
            |s: Step<K, P, S, C, M, R>| s is RenderError,
        ),
        cycle.present is Err ==> state.cycle_steps(cycle) == seq![
            Step::<K, P, S, C, M, R>::Render,
            Step::Present,
            Step::RenderError(cycle.present->Err_0),
        ],
{
    let steps = state.cycle_steps(cycle);
    let render = |s: Step<K, P, S, C, M, R>| s is Render;
    let present = |s: Step<K, P, S, C, M, R>| s is Present;
    assert(render(steps[0]));
    assert(present(steps[1]));
    if cycle.present is Err {
        assert(steps =~= seq![
            Step::<K, P, S, C, M, R>::Render,
            Step::Present,
            Step::RenderError(cycle.present->Err_0),
        ]);
    }
}

/// Once the loop-control signal says exit, the loop performs nothing more,
/// whatever is left of the script.
pub proof fn nothing_after_exit<K, P, S, C, M, R>(
    state: WindowState,
    script: Seq<Cycle<K, P, S, C, M, R>>,
)
    requires
        state.control == LoopControl::Exit,
    ensures
        state.trace(script) == Seq::<Step<K, P, S, C, M, R>>::empty(),
        state.outcome(script) == state,
{
}

/// A close request, a destroyed window and the end of the loop each set the
/// loop-control signal to exit and call the quit callback once; the loop then
/// performs nothing more, whatever is left of the script.
pub proof fn closing_quits_once_and_ends<K, P, S, C, M, R>(
    state: WindowState,
    script: Seq<Cycle<K, P, S, C, M, R>>,
)
    requires
        state.control != LoopControl::Exit,
        script.len() > 0,
        script[0].event is CloseRequested || script[0].event is Destroyed
            || script[0].event is LoopDestroyed,
    ensures
        state.after(script[0].event).control == LoopControl::Exit,
        state.trace(script) == seq![Step::<K, P, S, C, M, R>::Quit],
        state.outcome(script).control == LoopControl::Exit,
{
    let rest = script.subrange(1, script.len() as int);
    let next = state.cycle_after(script[0]);
    nothing_after_exit(next, rest);
    assert(state.trace(script) =~= seq![Step::<K, P, S, C, M, R>::Quit]);
}

/// Where presenting fails and the processor answers the render-error callback
/// by choosing exit, the loop ends with that callback: no update and no
/// render follows, whatever is left of the script.
pub proof fn exit_chosen_on_render_error_ends<K, P, S, C, M, R>(
    state: WindowState,
    script: Seq<Cycle<K, P, S, C, M, R>>,
)
    requires
        state.control != LoopControl::Exit,
        script.len() > 0,
        script[0].event is RedrawRequested,
        script[0].present is Err,
        script[0].choice == Some(LoopControl::Exit),
    ensures
        state.trace(script) == seq![
            Step::<K, P, S, C, M, R>::Render,
            Step::Present,
            Step::RenderError(script[0].present->Err_0),
        ],
        state.outcome(script).control == LoopControl::Exit,
{
    let rest = script.subrange(1, script.len() as int);
    let next = state.cycle_after(script[0]);
    nothing_after_exit(next, rest);
    assert(state.trace(script) =~= seq![
        Step::<K, P, S, C, M, R>::Render,
        Step::Present,
        Step::RenderError(script[0].present->Err_0),
    ]);
}

/// A signal that is written into the toolkit's control flow is read back
/// from it unchanged.
pub proof fn signal_survives_the_toolkit(control: LoopControl)
    ensures
        LoopControl::of_flow(control.as_flow()) == control,
{
}

/// A payload reaches its callback as it came: each input event asks for one
/// step, the callback of its category with the event's own payload.
pub proof fn payloads_pass_unchanged<K, P, S, C, M, R>(
    state: WindowState,
    key: K,
    position: P,
    scroll: S,
    click: C,
    other: M,
)
    ensures
        state.steps::<K, P, S, C, M, R>(Event::KeyboardInput(key)) == seq![
            Step::<K, P, S, C, M, R>::Input(key),
        ],
        state.steps::<K, P, S, C, M, R>(Event::CursorMoved(position)) == seq![
            Step::<K, P, S, C, M, R>::CursorMove(position),
        ],
        state.steps::<K, P, S, C, M, R>(Event::MouseWheel(scroll)) == seq![
            Step::<K, P, S, C, M, R>::Scroll(scroll),
        ],
        state.steps::<K, P, S, C, M, R>(Event::MouseInput(click)) == seq![
            Step::<K, P, S, C, M, R>::Click(click),
        ],
        state.steps::<K, P, S, C, M, R>(Event::Misc(other)) == seq![
            Step::<K, P, S, C, M, R>::MiscEvent(other),
        ],
{
}

} // verus!
