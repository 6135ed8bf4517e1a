//! Futures that emit one pulse on the STEP or DIR signal.
use vstd::prelude::*;

use crate::error::{pin_error, PinFault, SignalError, TimerFault};
use crate::traits::TimerPoll;

pub mod set_direction;
pub mod step;

verus! {

/// The phase of a pulse future.
#[derive(Clone, Copy, Debug, PartialEq, Eq, Structural)]
pub enum PulsePhase {
    /// The pulse has not started yet.
    Initial,
    /// The signal has been driven and the timer counts down its length.
    PulseStarted,
    /// The pulse is over.
    Finished,
}

/// What a poll of a pulse future reports.
#[derive(Clone, Copy, Debug)]
pub enum PulsePoll {
    /// The pulse is in progress: poll again.
    Pending,
    /// The pulse is over, or failed.
    Ready(Result<(), SignalError>),
}

/// A hardware operation that a pulse future performed, with the answer it
/// got.
pub enum Operation {
    /// Driving the pin to its pulse level (STEP high, or DIR to the
    /// direction's level).
    SetPin(Result<(), PinFault>),
    /// Driving the STEP pin back low.
    ResetPin(Result<(), PinFault>),
    /// Converting the pulse length or setup time, in nanoseconds, into ticks.
    Convert(u32, Option<u64>),
    /// Starting the timer for the given ticks.
    Start(u64, Result<(), ()>),
    /// Polling the timer.
    Wait(TimerPoll),
}

/// What one poll of a pulse future in `phase` reports, and the phase it
/// leaves, given the operations that the poll performed; `None` where a
/// poll does not perform that sequence of operations. `length` is the
/// pulse's length in nanoseconds, and `ticks` what converting it gives: the
/// only conversion a poll makes is of `length`, and its answer is `ticks`.
/// `resets` says whether
/// the pin is driven back once the timer expires (a STEP pulse; a DIR change
/// leaves the pin where it is).
///
/// A pulse starts by driving the pin, converting its length into ticks and
/// starting the timer, and stops at the first failure. Once started, it
/// polls the timer, and when that has expired it drives the pin back.
pub open spec fn polled(
    phase: PulsePhase,
    ops: Seq<Operation>,
    length: u32,
    ticks: Option<u64>,
    resets: bool,
) -> Option<
    (PulsePoll, PulsePhase),
> {
    match phase {
        PulsePhase::Initial => if ops.len() == 0 {
            None
        } else {
            match ops[0] {
                Operation::SetPin(Err(f)) => if ops.len() == 1 {
                    Some((PulsePoll::Ready(Err(pin_error(f))), PulsePhase::Initial))
                } else {
                    None
                },
                Operation::SetPin(Ok(())) => if ops.len() < 2 {
                    None
                } else {
                    match ops[1] {
                        Operation::Convert(n, None) => if ops.len() == 2 && n == length
                            && ticks is None {
                            Some(
                                (
                                    PulsePoll::Ready(Err(SignalError::NanosecondsToTicks)),
                                    PulsePhase::Initial,
                                ),
                            )
                        } else {
                            None
                        },
                        Operation::Convert(n, Some(t)) => if ops.len() == 3 && n == length
                            && ticks == Some(t) {
                            match ops[2] {
                                Operation::Start(u, Ok(())) => if u == t {
                                    Some((PulsePoll::Pending, PulsePhase::PulseStarted))
                                } else {
                                    None
                                },
                                Operation::Start(u, Err(())) => if u == t {
                                    Some(
                                        (
                                            PulsePoll::Ready(
                                                Err(SignalError::Timer(TimerFault::Start)),
                                            ),
                                            PulsePhase::Initial,
                                        ),
                                    )
                                } else {
                                    None
                                },
                                _ => None,
                            }
                        } else {
                            None
                        },
                        _ => None,
                    }
                },
                _ => None,
            }
        },
        PulsePhase::PulseStarted => if ops.len() == 0 {
            None
        } else {
            match ops[0] {
                Operation::Wait(TimerPoll::Running) => if ops.len() == 1 {
                    Some((PulsePoll::Pending, PulsePhase::PulseStarted))
                } else {
                    None
                },
                Operation::Wait(TimerPoll::Failed) => if ops.len() == 1 {
                    Some(
                        (
                            PulsePoll::Ready(Err(SignalError::Timer(TimerFault::Wait))),
                            PulsePhase::Finished,
                        ),
                    )
                } else {
                    None
                },
                Operation::Wait(TimerPoll::Expired) => if !resets {
                    if ops.len() == 1 {
                        Some((PulsePoll::Ready(Ok(())), PulsePhase::Finished))
                    } else {
                        None
                    }
                } else if ops.len() == 2 {
                    match ops[1] {
                        Operation::ResetPin(Ok(())) => Some(
                            (PulsePoll::Ready(Ok(())), PulsePhase::Finished),
                        ),
                        Operation::ResetPin(Err(f)) => Some(
                            (PulsePoll::Ready(Err(pin_error(f))), PulsePhase::PulseStarted),
                        ),
                        _ => None,
                    }
                } else {
                    None
                },
                _ => None,
            }
        },
        PulsePhase::Finished => if ops.len() == 0 {
            Some((PulsePoll::Ready(Ok(())), PulsePhase::Finished))
        } else {
            None
        },
    }
}

} // verus!
