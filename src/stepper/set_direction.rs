//! The future that sets the DIR signal.
use vstd::prelude::*;

use crate::error::{SignalError, TimerFault};
use crate::stepper::{polled, Operation, PulsePhase, PulsePoll};
use crate::traits::{CountDown, SetDirection, TimerPoll};
use crate::Direction;

verus! {

/// Sets the DIR signal: drives it to the level of a direction and waits the
/// driver's setup time, after which steps go that way.
///
/// It owns the driver and the timer until [`SetDirectionFuture::release`]
/// hands them back.
pub struct SetDirectionFuture<Driver, Timer> {
    direction: Direction,
    driver: Driver,
    timer: Timer,
    state: PulsePhase,
    ops: Ghost<Seq<Operation>>,
}

impl<Driver: SetDirection, Timer: CountDown> SetDirectionFuture<Driver, Timer> {
    /// The phase that the direction change is in.
    pub closed spec fn phase(&self) -> PulsePhase {
        self.state
    }

    /// The hardware operations performed so far, with their answers.
    pub closed spec fn operations(&self) -> Seq<Operation> {
        self.ops@
    }

    /// The direction being set.
    pub closed spec fn direction(&self) -> Direction {
        self.direction
    }

    /// The driver that the future holds.
    pub closed spec fn driver(&self) -> Driver {
        self.driver
    }

    /// The timer that the future holds.
    pub closed spec fn timer(&self) -> Timer {
        self.timer
    }

    /// A future for a direction change that has not started yet.
    pub fn new(direction: Direction, driver: Driver, timer: Timer) -> (r: Self)
        ensures
            r.phase() == PulsePhase::Initial,
            r.operations() == Seq::<Operation>::empty(),
            r.direction() == direction,
            r.driver() == driver,
            r.timer() == timer,
    {
        SetDirectionFuture {
            direction,
            driver,
            timer,
            state: PulsePhase::Initial,
            ops: Ghost(Seq::empty()),
        }
    }

    /// Advance the direction change as far as it can go without blocking.
    ///
    /// From `Initial` it drives the DIR pin and starts the timer for the
    /// setup time: `Pending` and `PulseStarted` on success, else the error
    /// and still `Initial`. From `PulseStarted` it polls the timer: while it
    /// runs, `Pending`; once it has expired, `Finished` with success; a timer
    /// failure also finishes it. Once `Finished`, it reports success again on
    /// every poll.
    pub fn poll(&mut self) -> (r: PulsePoll)
        ensures
            final(self).direction() == old(self).direction(),
            final(self).operations().len() >= old(self).operations().len(),
            final(self).operations().take(old(self).operations().len() as int) == old(
                self,
            ).operations(),
            polled(
                old(self).phase(),
                final(self).operations().skip(old(self).operations().len() as int),
                old(self).driver().spec_setup_time(),
                old(self).timer().ticks_of_nanoseconds(old(self).driver().spec_setup_time()),
                false,
            ) == Some((r, final(self).phase())),
    {
        let ghost before = self.ops@;
        match self.state {
            PulsePhase::Initial => {
                let setup_time = self.driver.setup_time();
                let set = self.driver.set_direction(self.direction);
                self.ops = Ghost(self.ops@.push(Operation::SetPin(set)));
                if let Err(fault) = set {
                    assert(self.ops@.skip(before.len() as int) =~= seq![Operation::SetPin(set)]);
                    return PulsePoll::Ready(Err(SignalError::from_pin(fault)));
                }
                let ticks = self.timer.nanoseconds_to_ticks(setup_time);
                self.ops = Ghost(self.ops@.push(Operation::Convert(setup_time, ticks)));
                let ticks = match ticks {
                    Some(ticks) => ticks,
                    None => {
                        assert(self.ops@.skip(before.len() as int) =~= seq![
                            Operation::SetPin(set),
                            Operation::Convert(setup_time, None),
                        ]);
                        return PulsePoll::Ready(Err(SignalError::NanosecondsToTicks));
                    },
                };
                let started = self.timer.start(ticks);
                self.ops = Ghost(self.ops@.push(Operation::Start(ticks, started)));
                assert(self.ops@.skip(before.len() as int) =~= seq![
                    Operation::SetPin(set),
                    Operation::Convert(setup_time, Some(ticks)),
                    Operation::Start(ticks, started),
                ]);
                if started.is_err() {
                    return PulsePoll::Ready(Err(SignalError::Timer(TimerFault::Start)));
                }
                self.state = PulsePhase::PulseStarted;
                PulsePoll::Pending
            },
            PulsePhase::PulseStarted => {
                let waited = self.timer.wait();
                self.ops = Ghost(self.ops@.push(Operation::Wait(waited)));
                assert(self.ops@.skip(before.len() as int) =~= seq![Operation::Wait(waited)]);
                match waited {
                    TimerPoll::Expired => {
                        self.state = PulsePhase::Finished;
                        PulsePoll::Ready(Ok(()))
                    },
                    TimerPoll::Failed => {
                        self.state = PulsePhase::Finished;
                        PulsePoll::Ready(Err(SignalError::Timer(TimerFault::Wait)))
                    },
                    TimerPoll::Running => PulsePoll::Pending,
                }
            },
            PulsePhase::Finished => {
                assert(self.ops@.skip(before.len() as int) =~= Seq::<Operation>::empty());
                PulsePoll::Ready(Ok(()))
            },
        }
    }

    /// Give the driver and the timer back.
    pub fn release(self) -> (r: (Driver, Timer))
        ensures
            r.0 == self.driver(),
            r.1 == self.timer(),
    {
        (self.driver, self.timer)
    }
}

} // verus!
