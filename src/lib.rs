//! Non-blocking control of a stepper motor driver through its STEP and DIR
//! signals.
//!
//! The hardware (pins, count-down timer), the motion profile and the
//! conversion of delays into timer ticks are reached through the capability
//! traits of [`traits`]. The state machine of [`motion_control`] sequences
//! direction changes, step pulses and the delays between steps, and the
//! pulse futures of [`stepper`] drive the individual pulses.
use vstd::prelude::*;

pub mod error;
pub mod motion_control;
pub mod stepper;
pub mod time;
pub mod traits;

verus! {

/// Direction of motion; forward counts steps up, backward counts them down.
#[derive(Clone, Copy, Debug, PartialEq, Eq, Structural)]
pub enum Direction {
    Backward,
    Forward,
}

impl Direction {
    /// The signed unit that one step in this direction adds to a step count.
    pub open spec fn spec_unit(self) -> int {
        match self {
            Direction::Backward => -1,
            Direction::Forward => 1,
        }
    }

    /// The signed unit that one step in this direction adds to a step count.
    pub fn unit(self) -> (r: i32)
        ensures
            r == self.spec_unit(),
    {
        match self {
            Direction::Backward => -1,
            Direction::Forward => 1,
        }
    }
}

} // verus!
