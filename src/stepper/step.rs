//! The future that emits one STEP pulse.
use vstd::prelude::*;

use crate::error::{SignalError, TimerFault};
use crate::stepper::{polled, Operation, PulsePhase, PulsePoll};
use crate::traits::{CountDown, Step, TimerPoll};

verus! {

/// Emits one pulse on the STEP signal: drives it high, waits the driver's
/// minimum pulse length, and drives it low.
///
/// It owns the driver and the timer until [`StepFuture::release`] hands them
/// back.
pub struct StepFuture<Driver, Timer> {
    driver: Driver,
    timer: Timer,
    state: PulsePhase,
    ops: Ghost<Seq<Operation>>,
}

impl<Driver: Step, Timer: CountDown> StepFuture<Driver, Timer> {
    /// The phase that the pulse is in.
    pub closed spec fn phase(&self) -> PulsePhase {
        self.state
    }

    /// The hardware operations performed so far, with their answers.
    pub closed spec fn operations(&self) -> Seq<Operation> {
        self.ops@
    }

    /// The driver that the future holds.
    pub closed spec fn driver(&self) -> Driver {
        self.driver
    }

    /// The timer that the future holds.
    pub closed spec fn timer(&self) -> Timer {
        self.timer
    }

    /// A future for a pulse that has not started yet.
    pub fn new(driver: Driver, timer: Timer) -> (r: Self)
        ensures
            r.phase() == PulsePhase::Initial,
            r.operations() == Seq::<Operation>::empty(),
            r.driver() == driver,
            r.timer() == timer,
    {
        StepFuture { driver, timer, state: PulsePhase::Initial, ops: Ghost(Seq::empty()) }
    }

    /// Advance the pulse as far as it can go without blocking.
    ///
    /// From `Initial` it drives the pin high and starts the timer for the
    /// pulse length: `Pending` and `PulseStarted` on success, else the error
    /// and still `Initial`. From `PulseStarted` it polls the timer: while it
    /// runs, `Pending`; once it has expired, the pin is driven low and the
    /// pulse is `Finished` (on a pin error it stays `PulseStarted`); a timer
    /// failure also finishes it. Once `Finished`, it reports success again on
    /// every poll and touches no hardware.
    pub fn poll(&mut self) -> (r: PulsePoll)
        ensures
            final(self).operations().len() >= old(self).operations().len(),
            final(self).operations().take(old(self).operations().len() as int) == old(
                self,
            ).operations(),
            polled(
                old(self).phase(),
                final(self).operations().skip(old(self).operations().len() as int),
                old(self).driver().spec_pulse_length(),
                old(self).timer().ticks_of_nanoseconds(old(self).driver().spec_pulse_length()),
                true,
            ) == Some((r, final(self).phase())),
    {
        let ghost before = self.ops@;
        match self.state {
            PulsePhase::Initial => {
                let pulse_length = self.driver.pulse_length();
                let high = self.driver.set_step_high();
                self.ops = Ghost(self.ops@.push(Operation::SetPin(high)));
                if let Err(fault) = high {
                    assert(self.ops@.skip(before.len() as int) =~= seq![Operation::SetPin(high)]);
                    return PulsePoll::Ready(Err(SignalError::from_pin(fault)));
                }
                let ticks = self.timer.nanoseconds_to_ticks(pulse_length);
                self.ops = Ghost(self.ops@.push(Operation::Convert(pulse_length, ticks)));
                let ticks = match ticks {
                    Some(ticks) => ticks,
                    None => {
                        assert(self.ops@.skip(before.len() as int) =~= seq![
                            Operation::SetPin(high),
                            Operation::Convert(pulse_length, None),
                        ]);
                        return PulsePoll::Ready(Err(SignalError::NanosecondsToTicks));
                    },
                };
                let started = self.timer.start(ticks);
                self.ops = Ghost(self.ops@.push(Operation::Start(ticks, started)));
                assert(self.ops@.skip(before.len() as int) =~= seq![
                    Operation::SetPin(high),
                    Operation::Convert(pulse_length, Some(ticks)),
                    Operation::Start(ticks, started),
                ]);
                if started.is_err() {
                    return PulsePoll::Ready(Err(SignalError::Timer(TimerFault::Start)));
                }
                self.state = PulsePhase::PulseStarted;
                PulsePoll::Pending
            },
            PulsePhase::PulseStarted => {
                let waited = self.timer.wait();
                self.ops = Ghost(self.ops@.push(Operation::Wait(waited)));
                match waited {
                    TimerPoll::Expired => {
                        let low = self.driver.set_step_low();
                        self.ops = Ghost(self.ops@.push(Operation::ResetPin(low)));
                        assert(self.ops@.skip(before.len() as int) =~= seq![
                            Operation::Wait(waited),
                            Operation::ResetPin(low),
                        ]);
                        if let Err(fault) = low {
                            return PulsePoll::Ready(Err(SignalError::from_pin(fault)));
                        }
                        self.state = PulsePhase::Finished;
                        PulsePoll::Ready(Ok(()))
                    },
                    TimerPoll::Failed => {
                        assert(self.ops@.skip(before.len() as int) =~= seq![Operation::Wait(waited)]);
                        self.state = PulsePhase::Finished;
                        PulsePoll::Ready(Err(SignalError::Timer(TimerFault::Wait)))
                    },
                    TimerPoll::Running => {
                        assert(self.ops@.skip(before.len() as int) =~= seq![Operation::Wait(waited)]);
                        PulsePoll::Pending
                    },
                }
            },
            PulsePhase::Finished => {
                assert(self.ops@.skip(before.len() as int) =~= Seq::<Operation>::empty());
                PulsePoll::Ready(Ok(()))
            },
        }
    }

    /// Give the driver and the timer back.
    pub fn release(self) -> (r: (Driver, Timer))
        ensures
            r.0 == self.driver(),
            r.1 == self.timer(),
    {
        (self.driver, self.timer)
    }
}

} // verus!
