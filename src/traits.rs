//! Capabilities that drivers, timers and motion profiles provide.
//!
//! The durations and conversions are named by spec functions, which any
//! constant or pure conversion meets. Pin and timer operations carry no
//! contract: the state machine states what holds whatever they answer, and
//! each answer is handed to a transition function of
//! `motion_control::state` whose contract says what follows from it.
use vstd::prelude::*;

use crate::error::PinFault;
use crate::Direction;

verus! {

/// What a poll of a count-down timer reports.
#[derive(Clone, Copy, Debug, PartialEq, Eq, Structural)]
pub enum TimerPoll {
    /// The count-down has expired.
    Expired,
    /// The timer is still counting down.
    Running,
    /// The timer failed.
    Failed,
}

/// Implemented by drivers that support controlling the STEP signal.
pub trait Step {
    /// The minimum length of a STEP pulse, in nanoseconds.
    spec fn spec_pulse_length(&self) -> u32;

    /// The minimum length of a STEP pulse, in nanoseconds.
    fn pulse_length(&self) -> (r: u32)
        ensures
            r == self.spec_pulse_length(),
    ;

    /// Drive the STEP pin high.
    fn set_step_high(&mut self) -> Result<(), PinFault>;

    /// Drive the STEP pin low.
    fn set_step_low(&mut self) -> Result<(), PinFault>;
}

/// Implemented by drivers that support controlling the DIR signal.
pub trait SetDirection {
    /// The time that the DIR signal must be held for a change to apply, in
    /// nanoseconds.
    spec fn spec_setup_time(&self) -> u32;

    /// The time that the DIR signal must be held for a change to apply, in
    /// nanoseconds.
    fn setup_time(&self) -> (r: u32)
        ensures
            r == self.spec_setup_time(),
    ;

    /// Drive the DIR pin to the level of the given direction.
    fn set_direction(&mut self, direction: Direction) -> Result<(), PinFault>;
}

/// A count-down timer, counting in its own ticks.
pub trait CountDown {
    /// A duration in nanoseconds in ticks of this timer, or `None` where it
    /// cannot be converted.
    spec fn ticks_of_nanoseconds(&self, nanoseconds: u32) -> Option<u64>;

    /// Convert a duration in nanoseconds into ticks of this timer.
    fn nanoseconds_to_ticks(&self, nanoseconds: u32) -> (r: Option<u64>)
        ensures
            r == self.ticks_of_nanoseconds(nanoseconds),
    ;

    /// Start counting down the given number of ticks.
    fn start(&mut self, ticks: u64) -> Result<(), ()>;

    /// Poll the count-down without blocking.
    fn wait(&mut self) -> TimerPoll;
}

/// A source of step delays, one per step, that may run out.
pub trait MotionProfile<Delay> {
    /// The delay of the next step, or `None` when there is nothing to do.
    fn next_delay(&mut self) -> Option<Delay>;
}

/// Converts a delay of a motion profile into timer ticks.
pub trait DelayToTicks<Delay> {
    /// The delay in ticks, or `None` where it cannot be converted.
    spec fn ticks_of(&self, delay: Delay) -> Option<u64>;

    /// The delay in ticks, or `None` where it cannot be converted.
    fn delay_to_ticks(&self, delay: Delay) -> (r: Option<u64>)
        ensures
            r == self.ticks_of(delay),
    ;
}

/// Enable direction control for a driver, given the hardware resources that
/// it requires.
pub trait EnableDirectionControl<Resources> {
    /// The type of the driver once direction control has been enabled.
    type WithDirectionControl: SetDirection;

    /// Enable direction control.
    fn enable_direction_control(self, res: Resources) -> Self::WithDirectionControl;
}

/// Enable step control for a driver, given the hardware resources that it
/// requires.
pub trait EnableStepControl<Resources> {
    /// The type of the driver once step control has been enabled.
    type WithStepControl: Step;

    /// Enable step control.
    fn enable_step_control(self, res: Resources) -> Self::WithStepControl;
}

} // verus!
