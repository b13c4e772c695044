//! The dispatcher: what it keeps, and what it decides for each event.

use vstd::prelude::*;
use crate::control::{elapsed_between, Clock, LoopControl, Size};
use crate::event::{Event, Step};

verus! {

/// Why no dispatcher could be set up. `W` is the platform's error, `S` the
/// error of the pixel-surface library.
#[derive(Debug)]
pub enum WindowCreationError<W, S> {
    /// The platform did not create the window.
    WindowError(W),
    /// The pixel surface could not be created for the window.
    PixelsError(S),
}

/// What the dispatcher keeps between two events, as a mathematical value.
pub struct WindowState {
    /// The physical size of the window as it was last observed.
    pub window: Size,
    /// The size of the presentation surface.
    pub surface: Size,
    /// The size of the frame buffer.
    pub buffer: Size,
    /// The loop-control signal.
    pub control: LoopControl,
    /// The reading at which the elapsed-time clock was last reset.
    pub clock: u64,
}

impl WindowState {
    /// Surface and frame buffer have the size of the window.
    pub open spec fn wf(self) -> bool {
        self.surface == self.window && self.buffer == self.window
    }

    /// The state of a dispatcher that was just set up for a window of `size`.
    pub open spec fn fresh(size: Size) -> WindowState {
        WindowState {
            window: size,
            surface: size,
            buffer: size,
            control: LoopControl::Wait,
            clock: 0,
        }
    }

    /// The state once the processor had access to the loop-control signal:
    /// `None` where it left the signal as it was.
    pub open spec fn chosen(self, choice: Option<LoopControl>) -> WindowState {
        match choice {
            Some(control) => WindowState { control, ..self },
            None => self,
        }
    }

    /// The steps that an event asks for, in the order in which they are
    /// performed.
    pub open spec fn steps<K, P, S, C, M, R>(self, event: Event<K, P, S, C, M>) -> Seq<
        Step<K, P, S, C, M, R>,
    > {
        match event {
            Event::Resized(size) => seq![
                Step::ResizeSurface(size),
                Step::ResizeBuffer(size),
                Step::RequestRedraw,
                Step::WindowResize(size),
            ],
            Event::CloseRequested => seq![Step::Quit],
            Event::Destroyed => seq![Step::Quit],
            Event::Focused(gained) => seq![Step::WindowFocus(gained)],
            Event::KeyboardInput(input) => seq![Step::Input(input)],
            Event::CursorMoved(position) => seq![Step::CursorMove(position)],
            Event::CursorEntered => seq![Step::CursorInWindowChange(true)],
            Event::CursorLeft => seq![Step::CursorInWindowChange(false)],
            Event::MouseWheel(scroll) => seq![Step::Scroll(scroll)],
            Event::MouseInput(click) => seq![Step::Click(click)],
            Event::OtherWindowEvent => seq![],
            Event::MainEventsCleared(now) => seq![
                Step::Update(elapsed_between(self.clock, now)),
                Step::RequestRedraw,
                Step::ResetClock,
            ],
            Event::RedrawRequested => seq![Step::Render, Step::Present],
            Event::LoopDestroyed => seq![Step::Quit],
            Event::Misc(event) => seq![Step::MiscEvent(event)],
        }
    }

    /// The state once the steps of an event are performed, before the
    /// processor has used any access to the loop-control signal: the signal is
    /// back at waiting, or at exit where the event ends the loop, and a resize
    /// has reached window, surface and frame buffer.
    pub open spec fn after<K, P, S, C, M>(self, event: Event<K, P, S, C, M>) -> WindowState {
        match event {
            Event::Resized(size) => WindowState {
                window: size,
                surface: size,
                buffer: size,
                control: LoopControl::Wait,
                clock: self.clock,
            },
            Event::CloseRequested | Event::Destroyed | Event::LoopDestroyed => WindowState {
                control: LoopControl::Exit,
                ..self
            },
            _ => WindowState { control: LoopControl::Wait, ..self },
        }
    }
}

/// The dispatcher's own record of the window it serves.
#[derive(Debug)]
pub struct QuixelWindow {
    window: Size,
    surface: Size,
    buffer: Size,
    control: LoopControl,
    clock: Clock,
}

impl View for QuixelWindow {
    type V = WindowState;

    closed spec fn view(&self) -> WindowState {
        WindowState {
            window: self.window,
            surface: self.surface,
            buffer: self.buffer,
            control: self.control,
            clock: self.clock.since,
        }
    }
}

impl QuixelWindow {
    /// Surface and frame buffer have the size of the window, at all times.
    #[verifier::type_invariant]
    spec fn sized_to_window(self) -> bool {
        self.surface == self.window && self.buffer == self.window
    }

    /// The first half of setting up: from the outcome of creating the window,
    /// its handle `H` with its physical size, or the platform's error. The
    /// surface is to be created with the size that comes back.
    pub fn surface_request<H, W, S>(window: Result<(H, Size), W>) -> (r: Result<
        (H, Size),
        WindowCreationError<W, S>,
    >)
        ensures
            match window {
                Ok(made) => r == Ok::<(H, Size), WindowCreationError<W, S>>(made),
                Err(e) => r == Err::<(H, Size), WindowCreationError<W, S>>(
                    WindowCreationError::WindowError(e),
                ),
            },
    {
        match window {
            Ok(made) => Ok(made),
            Err(e) => Err(WindowCreationError::WindowError(e)),
        }
    }

    /// The second half: sets the dispatcher up for a window of physical size
    /// `size`, from the outcome of creating a surface of that size, its handle
    /// `H` or the error. Nothing is kept where the surface failed.
    pub fn new<H, W, S>(size: Size, surface: Result<H, S>) -> (r: Result<
        (QuixelWindow, H),
        WindowCreationError<W, S>,
    >)
        ensures
            match surface {
                Ok(handle) => r is Ok && r->Ok_0.0@ == WindowState::fresh(size) && r->Ok_0.1
                    == handle,
                Err(e) => r is Err && r->Err_0 == WindowCreationError::<W, S>::PixelsError(e),
            },
    {
        match surface {
            Ok(handle) => Ok(
                (
                    QuixelWindow {
                        window: size,
                        surface: size,
                        buffer: size,
                        control: LoopControl::Wait,
                        clock: Clock::starting_at(0),
                    },
                    handle,
                ),
            ),
            Err(e) => Err(WindowCreationError::PixelsError(e)),
        }
    }

    /// The steps before the first event: the start callback, once, and the
    /// first reset of the clock.
    pub fn begin<K, P, S, C, M, R>(&self) -> (steps: Vec<Step<K, P, S, C, M, R>>)
        ensures
            steps@ == seq![Step::<K, P, S, C, M, R>::Start, Step::ResetClock],
    {
        let mut steps = Vec::new();
        steps.push(Step::Start);
        steps.push(Step::ResetClock);
        steps
    }

    /// Decides what one event asks for. The loop-control signal goes back to
    /// waiting before anything else, so a choice of the processor lasts for
    /// one wait; a close request, a destroyed window and the end of the loop
    /// set it to exit. A resize reaches surface and frame buffer, in that
    /// order, before the processor hears of it.
    pub fn handle<K, P, S, C, M, R>(&mut self, event: Event<K, P, S, C, M>) -> (steps: Vec<
        Step<K, P, S, C, M, R>,
    >)
        ensures
            steps@ == old(self)@.steps::<K, P, S, C, M, R>(event),
            final(self)@ == old(self)@.after(event),
            final(self)@.wf(),
    {
        proof {
            use_type_invariant(&*self);
        }
        self.control = LoopControl::Wait;
        let mut steps = Vec::new();
        match event {
            Event::Resized(size) => {
                steps.push(Step::ResizeSurface(size));
                steps.push(Step::ResizeBuffer(size));
                steps.push(Step::RequestRedraw);
                steps.push(Step::WindowResize(size));
                *self = QuixelWindow {
                    window: size,
                    surface: size,
                    buffer: size,
                    control: LoopControl::Wait,
                    clock: self.clock,
                };
            },
            Event::CloseRequested => {
                steps.push(Step::Quit);
                self.control = LoopControl::Exit;
            },
            Event::Destroyed => {
                steps.push(Step::Quit);
                self.control = LoopControl::Exit;
            },
            Event::Focused(gained) => steps.push(Step::WindowFocus(gained)),
            Event::KeyboardInput(input) => steps.push(Step::Input(input)),
            Event::CursorMoved(position) => steps.push(Step::CursorMove(position)),
            Event::CursorEntered => steps.push(Step::CursorInWindowChange(true)),
            Event::CursorLeft => steps.push(Step::CursorInWindowChange(false)),
            Event::MouseWheel(scroll) => steps.push(Step::Scroll(scroll)),
            Event::MouseInput(click) => steps.push(Step::Click(click)),
            Event::OtherWindowEvent => {},
            Event::MainEventsCleared(now) => {
                steps.push(Step::Update(self.clock.elapsed(now)));
                steps.push(Step::RequestRedraw);
                steps.push(Step::ResetClock);
            },
            Event::RedrawRequested => {
                steps.push(Step::Render);
                steps.push(Step::Present);
            },
            Event::LoopDestroyed => {
                self.control = LoopControl::Exit;
                steps.push(Step::Quit);
            },
            Event::Misc(event) => steps.push(Step::MiscEvent(event)),
        }
        proof {
            assert(steps@ =~= old(self)@.steps::<K, P, S, C, M, R>(event));
        }
        steps
    }

    /// What follows a presentation: nothing where it succeeded; where it
    /// failed, the render-error callback with the failure.
    pub fn presented<K, P, S, C, M, R>(&self, outcome: Result<(), R>) -> (steps: Vec<
        Step<K, P, S, C, M, R>,
    >)
        ensures
            steps@ == presented_steps::<K, P, S, C, M, R>(outcome),
    {
        let mut steps = Vec::new();
        match outcome {
            Ok(_) => {},
            Err(e) => steps.push(Step::RenderError(e)),
        }
        proof {
            assert(steps@ =~= presented_steps::<K, P, S, C, M, R>(outcome));
        }
        steps
    }

    /// Takes over what the processor left in the loop-control signal after a
    /// callback that lent it.
    pub fn set_control(&mut self, choice: Option<LoopControl>)
        ensures
            final(self)@ == old(self)@.chosen(choice),
            final(self)@.wf(),
    {
        proof {
            use_type_invariant(&*self);
        }
        match choice {
            Some(control) => {
                self.control = control;
            },
            None => {},
        }
    }

    /// Resets the elapsed-time clock to the reading `now`, in nanoseconds.
    pub fn reset_clock(&mut self, now: u64)
        ensures
            final(self)@ == (WindowState { clock: now, ..old(self)@ }),
            final(self)@.wf(),
    {
        proof {
            use_type_invariant(&*self);
        }
        self.clock = Clock::starting_at(now);
    }

    /// The loop-control signal.
    pub fn control(&self) -> (c: LoopControl)
        ensures
            c == self@.control,
    {
        self.control
    }

    /// Whether the loop is to end.
    pub fn exiting(&self) -> (b: bool)
        ensures
            b == (self@.control == LoopControl::Exit),
    {
        self.control == LoopControl::Exit
    }

    /// The physical size of the window as it was last observed.
    pub fn window_size(&self) -> (s: Size)
        ensures
            s == self@.window,
            self@.wf(),
    {
        proof {
            use_type_invariant(self);
        }
        self.window
    }

    /// The size of the presentation surface.
    pub fn surface_size(&self) -> (s: Size)
        ensures
            s == self@.surface,
            self@.wf(),
    {
        proof {
            use_type_invariant(self);
        }
        self.surface
    }

    /// The size of the frame buffer.
    pub fn buffer_size(&self) -> (s: Size)
        ensures
            s == self@.buffer,
            self@.wf(),
    {
        proof {
            use_type_invariant(self);
        }
        self.buffer
    }
}

/// What follows a presentation with the given outcome.
pub open spec fn presented_steps<K, P, S, C, M, R>(outcome: Result<(), R>) -> Seq<
    Step<K, P, S, C, M, R>,
> {
    match outcome {
        Ok(_) => seq![],
        Err(e) => seq![Step::RenderError(e)],
    }
}

} // verus!
