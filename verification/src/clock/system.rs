//! The clocks that a node works with.

use vstd::prelude::*;

verus! {

/// A clock of the kernel, by the number under which it was opened.
#[derive(Clone, Copy, PartialEq, Eq, Structural, Debug)]
pub struct LinuxClock {
    pub clock_id: u32,
}

/// A clock laid over a kernel clock, which itself is not steered. All copies
/// stand for the one overlay with that number.
#[derive(Clone, Copy, PartialEq, Eq, Structural, Debug)]
pub struct SharedOverlayClock {
    pub overlay_id: u32,
    pub underlying: LinuxClock,
}

/// The clock that serves as system clock.
#[derive(Clone, Copy, PartialEq, Eq, Structural, Debug)]
pub enum SystemClock {
    Linux(LinuxClock),
    Overlay(SharedOverlayClock),
}

/// A clock of its own for a port.
pub type BoxedClock = Box<SystemClock>;

/// Clocks that can time the packets of a port.
pub trait PortClock {
    /// The clock that this is.
    spec fn identity(&self) -> SystemClock;

    /// Another handle on the same clock.
    fn clone_box(&self) -> (clock: BoxedClock)
        ensures
            *clock == self.identity(),
    ;
}

impl PortClock for LinuxClock {
    open spec fn identity(&self) -> SystemClock {
        SystemClock::Linux(*self)
    }

    fn clone_box(&self) -> (clock: BoxedClock) {
        Box::new(SystemClock::Linux(*self))
    }
}

impl PortClock for SharedOverlayClock {
    open spec fn identity(&self) -> SystemClock {
        SystemClock::Overlay(*self)
    }

    fn clone_box(&self) -> (clock: BoxedClock) {
        Box::new(SystemClock::Overlay(*self))
    }
}

impl SystemClock {
    /// Another handle on the same clock, for a port to keep.
    pub fn clone_boxed(&self) -> (clock: BoxedClock)
        ensures
            *clock == *self,
    {
        match self {
            SystemClock::Linux(clock) => clock.clone_box(),
            SystemClock::Overlay(clock) => clock.clone_box(),
        }
    }
}

/// Which of two clocks follows the other.
#[derive(Clone, Copy, PartialEq, Eq, Structural, Debug, Hash)]
pub enum ClockSyncMode {
    FromSystem,
    ToSystem,
}

impl Default for ClockSyncMode {
    fn default() -> (mode: ClockSyncMode)
        ensures
            mode == ClockSyncMode::FromSystem,
    {
        ClockSyncMode::FromSystem
    }
}

/// A clock of the kernel and an overlay each are the system clock that they would
/// serve as.
pub proof fn law_clocks_keep_their_identity(clock: LinuxClock, overlay: SharedOverlayClock)
    ensures
        clock.identity() == SystemClock::Linux(clock),
        overlay.identity() == SystemClock::Overlay(overlay),
{
}

} // verus!
