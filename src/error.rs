//! Error types of the pulse futures and of the motion state machine.
use vstd::prelude::*;

verus! {

/// A failure of a pin operation, as reported by a driver.
#[derive(Clone, Copy, Debug, PartialEq, Eq, Structural)]
pub enum PinFault {
    /// The pin could not be obtained from the driver.
    Unavailable,
    /// The pin was obtained, but driving the signal failed.
    Signal,
}

/// Which of the two timer operations failed.
#[derive(Clone, Copy, Debug, PartialEq, Eq, Structural)]
pub enum TimerFault {
    /// Starting the count-down failed.
    Start,
    /// Polling the count-down failed.
    Wait,
}

/// An error that occurred while a pulse future was emitting a pulse.
#[derive(Clone, Copy, Debug, PartialEq, Eq, Structural)]
pub enum SignalError {
    /// The STEP or DIR pin could not be obtained from the driver.
    PinUnavailable,
    /// Driving the STEP or DIR pin failed.
    Pin,
    /// The pulse length or setup time could not be converted into ticks.
    NanosecondsToTicks,
    /// The timer failed to start or to count down.
    Timer(TimerFault),
}

/// An error that occurred while computing what is left of a step delay.
#[derive(Clone, Copy, Debug, PartialEq, Eq, Structural)]
pub enum TimeConversionError {
    /// The delay from the motion profile could not be converted into ticks.
    DelayToTicks,
    /// The pulse length could not be converted into ticks.
    NanosecondsToTicks,
    /// The delay is shorter than the pulse that opens it. This is rejected
    /// as a configuration error rather than saturated to a zero wait.
    DelayShorterThanPulse,
}

/// An error reported by the motion state machine, tagged with the phase in
/// which it occurred.
#[derive(Clone, Copy, Debug, PartialEq, Eq, Structural)]
pub enum Error {
    /// Setting the direction failed; the direction change stays in flight.
    SetDirection(SignalError),
    /// The step pulse failed; the step stays in flight.
    Step(SignalError),
    /// The remaining step delay could not be computed; the step was dropped.
    TimeConversion(TimeConversionError),
    /// The timer failed while waiting out the step delay.
    StepDelay(TimerFault),
    /// The state machine was left in its poisoned state and can no longer be
    /// trusted; it stays there for good.
    Poisoned,
}

impl SignalError {
    /// The error for a failed pin operation.
    pub fn from_pin(fault: PinFault) -> (r: SignalError)
        ensures
            r == pin_error(fault),
    {
        match fault {
            PinFault::Unavailable => SignalError::PinUnavailable,
            PinFault::Signal => SignalError::Pin,
        }
    }
}

/// The error for a failed pin operation.
pub open spec fn pin_error(fault: PinFault) -> SignalError {
    match fault {
        PinFault::Unavailable => SignalError::PinUnavailable,
        PinFault::Signal => SignalError::Pin,
    }
}

} // verus!
