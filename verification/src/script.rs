//! The loop itself, run against a script: a queue of events, each with what
//! the world outside answers while the event is handled.

use std::collections::VecDeque;
use vstd::prelude::*;
use crate::control::LoopControl;
use crate::event::{Event, Step};
use crate::window::{presented_steps, QuixelWindow, WindowState};

verus! {

/// One turn of the loop: an event, and what comes back from outside while its
/// steps are performed.
#[derive(Debug, PartialEq, Eq)]
pub struct Cycle<K, P, S, C, M, R> {
    /// The event that the platform delivers.
    pub event: Event<K, P, S, C, M>,
    /// What the processor leaves in the loop-control signal where a callback
    /// lends it: `None` where it leaves the signal alone.
    pub choice: Option<LoopControl>,
    /// The outcome of presenting the frame, where the event asks for it.
    pub present: Result<(), R>,
    /// The clock's reading, in nanoseconds, where the event resets the clock.
    pub reset_at: u64,
}

impl WindowState {
    /// The steps of one turn: those of the event, and after a presentation
    /// what its outcome asks for.
    pub open spec fn cycle_steps<K, P, S, C, M, R>(self, cycle: Cycle<K, P, S, C, M, R>) -> Seq<
        Step<K, P, S, C, M, R>,
    > {
        if cycle.event is RedrawRequested {
            self.steps::<K, P, S, C, M, R>(cycle.event) + presented_steps::<K, P, S, C, M, R>(
                cycle.present,
            )
        } else {
            self.steps::<K, P, S, C, M, R>(cycle.event)
        }
    }

    /// The state after one turn. The processor's choice counts where a
    /// callback lent the signal: in every idle cycle, and after a presentation
    /// that failed. An idle cycle resets the clock.
    pub open spec fn cycle_after<K, P, S, C, M, R>(
        self,
        cycle: Cycle<K, P, S, C, M, R>,
    ) -> WindowState {
        let next = self.after(cycle.event);
        if cycle.event is MainEventsCleared {
            WindowState { clock: cycle.reset_at, ..next.chosen(cycle.choice) }
        } else if cycle.event is RedrawRequested && cycle.present is Err {
            next.chosen(cycle.choice)
        } else {
            next
        }
    }

    /// All steps of the loop on a script: turn after turn, until the script
    /// ends or the loop-control signal says exit.
    pub open spec fn trace<K, P, S, C, M, R>(self, script: Seq<Cycle<K, P, S, C, M, R>>) -> Seq<
        Step<K, P, S, C, M, R>,
    >
        decreases script.len(),
    {
        if script.len() == 0 || self.control == LoopControl::Exit {
            seq![]
        } else {
            self.cycle_steps(script[0]) + self.cycle_after(script[0]).trace(
                script.subrange(1, script.len() as int),
            )
        }
    }

    /// The state in which the loop on a script ends.
    pub open spec fn outcome<K, P, S, C, M, R>(
        self,
        script: Seq<Cycle<K, P, S, C, M, R>>,
    ) -> WindowState
        decreases script.len(),
    {
        if script.len() == 0 || self.control == LoopControl::Exit {
            self
        } else {
            self.cycle_after(script[0]).outcome(script.subrange(1, script.len() as int))
        }
    }

    /// The state in which the loop begins: the clock was reset at `now`.
    pub open spec fn started(self, now: u64) -> WindowState {
        WindowState { clock: now, ..self }
    }
}

impl QuixelWindow {
    /// Handles one event and takes in what came back from outside.
    pub fn turn<K, P, S, C, M, R>(&mut self, cycle: Cycle<K, P, S, C, M, R>) -> (steps: Vec<
        Step<K, P, S, C, M, R>,
    >)
        ensures
            steps@ == old(self)@.cycle_steps(cycle),
            final(self)@ == old(self)@.cycle_after(cycle),
            final(self)@.wf(),
    {
        let Cycle { event, choice, present, reset_at } = cycle;
        let idle = matches!(event, Event::MainEventsCleared(_));
        let redraw = matches!(event, Event::RedrawRequested);
        let mut steps = self.handle(event);
        if idle {
            self.set_control(choice);
            self.reset_clock(reset_at);
        } else if redraw {
            if present.is_err() {
                self.set_control(choice);
            }
            let mut more = self.presented(present);
            steps.append(&mut more);
        }
        steps
    }

    /// Runs the loop on a script. The start callback comes first, once, and
    /// the clock is reset at `now`; then one turn for each entry of the
    /// script, until it ends or the loop-control signal says exit. Returns
    /// every step in the order in which it was due, and the window as the
    /// loop left it.
    pub fn start<K, P, S, C, M, R>(
        self,
        now: u64,
        script: VecDeque<Cycle<K, P, S, C, M, R>>,
    ) -> (r: (Vec<Step<K, P, S, C, M, R>>, QuixelWindow))
        ensures
            r.0@ == seq![Step::<K, P, S, C, M, R>::Start, Step::ResetClock] + self@.started(
                now,
            ).trace(script@),
            r.1@ == self@.started(now).outcome(script@),
            r.1@.wf(),
    {
        let mut window = self;
        let mut script = script;
        let mut steps = window.begin();
        window.reset_clock(now);
        let ghost first = window@;
        let ghost whole = script@;
        let ghost head = steps@;
        while !window.exiting() && script.len() > 0
            invariant
                head + first.trace(whole) =~= steps@ + window@.trace(script@),
                first.outcome(whole) == window@.outcome(script@),
                window@.wf(),
            decreases script@.len(),
        {
            let ghost before = steps@;
            let ghost state = window@;
            let ghost queue = script@;
            match script.pop_front() {
                Some(cycle) => {
                    let mut more = window.turn(cycle);
                    steps.append(&mut more);
                    proof {
                        assert(steps@ + window@.trace(script@) =~= before + state.trace(queue));
                    }
                },
                None => {},
            }
        }
        proof {
            assert(window@.trace(script@) =~= Seq::<Step<K, P, S, C, M, R>>::empty());
            assert(steps@ + window@.trace(script@) =~= steps@);
        }
        (steps, window)
    }
}

} // verus!
