//! The events that the host hands in and the steps that it is told to perform.
//!
//! The payloads of input events are type parameters: the dispatcher never
//! looks into them, it only hands them on. `K` is a key event, `P` a cursor
//! position, `S` a scroll delta with its gesture phase, `C` a mouse button
//! with its press state, `M` an event that no category names, and `R` the
//! failure of a presentation.

use vstd::prelude::*;
use crate::control::Size;

verus! {

/// A platform event, by category.
#[derive(Debug, PartialEq, Eq)]
pub enum Event<K, P, S, C, M> {
    /// The window has a new physical size.
    Resized(Size),
    /// The user asked to close the window.
    CloseRequested,
    /// The window was destroyed.
    Destroyed,
    /// The window gained (`true`) or lost (`false`) the focus.
    Focused(bool),
    /// A key was pressed or released.
    KeyboardInput(K),
    /// The cursor moved inside the window.
    CursorMoved(P),
    /// The cursor entered the window.
    CursorEntered,
    /// The cursor left the window.
    CursorLeft,
    /// The mouse wheel or a touchpad scrolled.
    MouseWheel(S),
    /// A mouse button was pressed or released.
    MouseInput(C),
    /// Any other event of the window: it is dropped.
    OtherWindowEvent,
    /// All pending events of this cycle were handled. Carries the reading of
    /// the monotonic clock, in nanoseconds, at which the event is handled.
    MainEventsCleared(u64),
    /// The window asks to be drawn.
    RedrawRequested,
    /// The loop is shutting down: the last event.
    LoopDestroyed,
    /// An event of no category named above.
    Misc(M),
}

/// One thing that the host does on behalf of the dispatcher: an operation on
/// the window or the surface, or a call of one callback of the processor.
#[derive(Debug, PartialEq, Eq)]
pub enum Step<K, P, S, C, M, R> {
    /// Resize the presentation surface. A failure is fatal.
    ResizeSurface(Size),
    /// Resize the frame buffer. A failure is fatal.
    ResizeBuffer(Size),
    /// Ask the window for a redraw.
    RequestRedraw,
    /// Present the frame buffer, and report the outcome.
    Present,
    /// Read the monotonic clock and reset the elapsed-time clock to it.
    ResetClock,
    /// Callback: the loop is about to begin. Lends window and surface.
    Start,
    /// Callback: an idle cycle, with the nanoseconds since the last one.
    /// Lends the window and the loop-control signal.
    Update(u64),
    /// Callback: draw a frame. Lends window and surface.
    Render,
    /// Callback: presenting failed. Lends the loop-control signal.
    RenderError(R),
    /// Callback: a key event.
    Input(K),
    /// Callback: a mouse button changed.
    Click(C),
    /// Callback: a scroll gesture.
    Scroll(S),
    /// Callback: the cursor is at a new position.
    CursorMove(P),
    /// Callback: the cursor is now inside (`true`) or outside the window.
    CursorInWindowChange(bool),
    /// Callback: the window has a new size.
    WindowResize(Size),
    /// Callback: the window gained or lost the focus.
    WindowFocus(bool),
    /// Callback: the loop ends.
    Quit,
    /// Callback: an event of no named category.
    MiscEvent(M),
}

} // verus!
