//! Conversion of a step delay into the ticks left after the step pulse.
use vstd::prelude::*;

use crate::error::TimeConversionError;
use crate::traits::{CountDown, DelayToTicks};

verus! {

/// The ticks left of a step delay once its pulse is over, given the delay and
/// the pulse length in ticks (`None` where a conversion failed).
pub open spec fn spec_delay_left(delay: Option<u64>, pulse_length: Option<u64>) -> Result<
    u64,
    TimeConversionError,
> {
    match delay {
        None => Err(TimeConversionError::DelayToTicks),
        Some(d) => match pulse_length {
            None => Err(TimeConversionError::NanosecondsToTicks),
            Some(p) => if p <= d {
                Ok((d - p) as u64)
            } else {
                Err(TimeConversionError::DelayShorterThanPulse)
            },
        },
    }
}

/// The ticks left of a step delay once its pulse is over.
///
/// A failed conversion is reported with the conversion that failed; a delay
/// shorter than the pulse is rejected.
pub fn remaining_ticks(delay: Option<u64>, pulse_length: Option<u64>) -> (r: Result<
    u64,
    TimeConversionError,
>)
    ensures
        r == spec_delay_left(delay, pulse_length),
{
    match delay {
        None => Err(TimeConversionError::DelayToTicks),
        Some(d) => match pulse_length {
            None => Err(TimeConversionError::NanosecondsToTicks),
            Some(p) => if p <= d {
                Ok(d - p)
            } else {
                Err(TimeConversionError::DelayShorterThanPulse)
            },
        },
    }
}

/// Convert a step delay into ticks and take off the pulse length that has
/// already elapsed, as [`remaining_ticks`] does with the two conversions.
///
/// The pulse length is converted only once the delay has been.
pub fn delay_left<Delay, Convert: DelayToTicks<Delay>, Timer: CountDown>(
    delay: Delay,
    pulse_length: u32,
    convert: &Convert,
    timer: &Timer,
) -> (r: Result<u64, TimeConversionError>)
    ensures
        r == spec_delay_left(convert.ticks_of(delay), timer.ticks_of_nanoseconds(pulse_length)),
{
    let delay_ticks = convert.delay_to_ticks(delay);
    if delay_ticks.is_none() {
        return Err(TimeConversionError::DelayToTicks);
    }
    let pulse_ticks = timer.nanoseconds_to_ticks(pulse_length);
    remaining_ticks(delay_ticks, pulse_ticks)
}

/// A pulse followed by the wait that [`remaining_ticks`] computes fills the
/// step delay exactly: pulse length plus remaining wait equals the delay,
/// whenever the delay is at least the pulse length.
pub proof fn lemma_pulse_and_wait_fill_delay(delay: u64, pulse_length: u64)
    requires
        pulse_length <= delay,
    ensures
        spec_delay_left(Some(delay), Some(pulse_length)) is Ok,
        pulse_length + spec_delay_left(Some(delay), Some(pulse_length))->Ok_0 == delay,
{
}

} // verus!
