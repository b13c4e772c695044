//! Plain values that the dispatcher decides on: the loop-control signal, a
//! physical size, and the elapsed-time clock.

use vstd::prelude::*;

verus! {

/// The directive that governs how the host waits for the next event.
#[derive(Clone, Copy, Debug, PartialEq, Eq, Structural)]
pub enum LoopControl {
    /// Block until the next event arrives.
    Wait,
    /// Return at once, whether or not an event is pending.
    Poll,
    /// Leave the loop.
    Exit,
}

impl Default for LoopControl {
    /// The signal waits for the next event unless told otherwise.
    fn default() -> (control: LoopControl)
        ensures
            control == LoopControl::Wait,
    {
        LoopControl::Wait
    }
}

/// A size in physical pixels.
#[derive(Clone, Copy, Debug, PartialEq, Eq, Structural)]
pub struct Size {
    pub width: u32,
    pub height: u32,
}

/// The time between two readings of a monotonic clock, in nanoseconds. A
/// reading that lies before the earlier one counts as no time at all.
pub open spec fn elapsed_between(earlier: u64, now: u64) -> u64 {
    if now >= earlier {
        (now - earlier) as u64
    } else {
        0
    }
}

/// The clock that measures the time between two idle cycles.
#[derive(Clone, Copy, Debug, PartialEq, Eq, Structural)]
pub struct Clock {
    /// The reading, in nanoseconds, at which the clock was last reset.
    pub since: u64,
}

impl Clock {
    /// A clock that was reset at the reading `now`.
    pub fn starting_at(now: u64) -> (clock: Clock)
        ensures
            clock.since == now,
    {
        Clock { since: now }
    }

    /// The time since the last reset, in nanoseconds.
    pub fn elapsed(&self, now: u64) -> (dt: u64)
        ensures
            dt == elapsed_between(self.since, now),
    {
        if now >= self.since {
            now - self.since
        } else {
            0
        }
    }

    /// Resets the clock to the reading `now`.
    pub fn reset(&mut self, now: u64)
        ensures
            final(self).since == now,
    {
        self.since = now;
    }
}

} // verus!
