//! The library's plain values and those of the windowing toolkit: the
//! loop-control signal and the toolkit's control flow, a size and the
//! toolkit's physical size.

use vstd::prelude::*;
use winit::dpi::PhysicalSize;
use winit::event_loop::ControlFlow;
use crate::control::{LoopControl, Size};

verus! {

/// std's `Instant`, a reading of the monotonic clock: carried, never read.
#[verifier::external_type_specification]
#[verifier::external_body]
pub struct ExInstant(std::time::Instant);

/// The toolkit's `ControlFlow`, with its four variants.
#[verifier::external_type_specification]
pub struct ExControlFlow(ControlFlow);

/// The toolkit's `PhysicalSize`, with its two fields.
#[verifier::external_type_specification]
#[verifier::reject_recursive_types(P)]
pub struct ExPhysicalSize<P>(PhysicalSize<P>);

/// `PhysicalSize::new` puts its two arguments into the two fields.
pub assume_specification<P>[ PhysicalSize::<P>::new ](width: P, height: P) -> (size: PhysicalSize<P>)
    ensures
        size.width == width,
        size.height == height,
;

/// `ControlFlow::set_wait` overwrites the value with `Wait`.
pub assume_specification[ ControlFlow::set_wait ](flow: &mut ControlFlow)
    ensures
        *final(flow) == ControlFlow::Wait,
;

/// `ControlFlow::set_poll` overwrites the value with `Poll`.
pub assume_specification[ ControlFlow::set_poll ](flow: &mut ControlFlow)
    ensures
        *final(flow) == ControlFlow::Poll,
;

/// `ControlFlow::set_exit` overwrites the value with `ExitWithCode(0)`.
pub assume_specification[ ControlFlow::set_exit ](flow: &mut ControlFlow)
    ensures
        *final(flow) == ControlFlow::ExitWithCode(0),
;

impl LoopControl {
    /// What the toolkit is told for this signal. Exit is a plain exit, with
    /// code 0.
    pub open spec fn as_flow(self) -> ControlFlow {
        match self {
            LoopControl::Wait => ControlFlow::Wait,
            LoopControl::Poll => ControlFlow::Poll,
            LoopControl::Exit => ControlFlow::ExitWithCode(0),
        }
    }

    /// The signal that a control flow of the toolkit stands for: waiting
    /// until a given time is waiting, and an exit is an exit whatever its code.
    pub open spec fn of_flow(flow: ControlFlow) -> LoopControl {
        match flow {
            ControlFlow::Poll => LoopControl::Poll,
            ControlFlow::Wait => LoopControl::Wait,
            ControlFlow::WaitUntil(_) => LoopControl::Wait,
            ControlFlow::ExitWithCode(_) => LoopControl::Exit,
        }
    }

    /// Reads the signal out of the toolkit's control flow.
    pub fn observe(flow: &ControlFlow) -> (control: LoopControl)
        ensures
            control == LoopControl::of_flow(*flow),
    {
        match flow {
            ControlFlow::Poll => LoopControl::Poll,
            ControlFlow::Wait => LoopControl::Wait,
            ControlFlow::WaitUntil(_) => LoopControl::Wait,
            ControlFlow::ExitWithCode(_) => LoopControl::Exit,
        }
    }

    /// Writes the signal into the toolkit's control flow, whatever it held.
    pub fn apply(self, flow: &mut ControlFlow)
        ensures
            *final(flow) == self.as_flow(),
            LoopControl::of_flow(*final(flow)) == self,
    {
        match self {
            LoopControl::Wait => flow.set_wait(),
            LoopControl::Poll => flow.set_poll(),
            LoopControl::Exit => flow.set_exit(),
        }
    }
}

impl Size {
    /// The size that a physical size of the toolkit holds.
    pub fn from_physical(size: PhysicalSize<u32>) -> (s: Size)
        ensures
            s.width == size.width,
            s.height == size.height,
    {
        Size { width: size.width, height: size.height }
    }

    /// The same size as a physical size of the toolkit.
    pub fn to_physical(self) -> (size: PhysicalSize<u32>)
        ensures
            size.width == self.width,
            size.height == self.height,
    {
        PhysicalSize::new(self.width, self.height)
    }
}

} // verus!
