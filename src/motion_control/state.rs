//! The states of the motion state machine and its transition function.
use vstd::prelude::*;

use crate::error::{Error, TimeConversionError, TimerFault};
use crate::stepper::set_direction::SetDirectionFuture;
use crate::stepper::step::StepFuture;
use crate::stepper::{PulsePhase, PulsePoll};
use crate::time::delay_left;
use crate::traits::{CountDown, DelayToTicks, MotionProfile, SetDirection, Step, TimerPoll};
use crate::Direction;

verus! {

/// The state of the motion state machine.
///
/// The driver and the timer are held by exactly one state at a time, directly
/// or inside the pulse future in flight; each transition moves them on.
pub enum State<Driver, Timer, Delay> {
    /// Nothing is in flight.
    Idle { driver: Driver, timer: Timer },
    /// The direction is being changed.
    SetDirection(SetDirectionFuture<Driver, Timer>),
    /// A step pulse is in flight; `delay` is the step's delay from the
    /// motion profile, of which the rest is waited out after the pulse.
    Step { future: StepFuture<Driver, Timer>, delay: Delay },
    /// The pulse is over; the rest of the step delay is being waited out.
    StepDelay { driver: Driver, timer: Timer },
    /// Poisoned: an earlier transition was abandoned halfway, and the state
    /// of the hardware can no longer be trusted.
    Invalid,
}

/// A measure that every transition taken without returning to the caller
/// decreases: a pulse that has not started always hands control back.
pub open spec fn rank<Driver: SetDirection + Step, Timer: CountDown, Delay>(
    state: State<Driver, Timer, Delay>,
    request: Option<Direction>,
) -> nat {
    match state {
        State::Invalid => 0,
        State::SetDirection(future) => if future.phase() == PulsePhase::Initial {
            1
        } else {
            4
        },
        State::Step { future, delay: _ } => if future.phase() == PulsePhase::Initial {
            1
        } else {
            5
        },
        State::Idle { driver: _, timer: _ } => if request is Some {
            3
        } else {
            2
        },
        State::StepDelay { driver: _, timer: _ } => 4,
    }
}

/// Whether a state has a step in flight whose pulse has started.
pub open spec fn pulse_under_way<Driver: SetDirection + Step, Timer: CountDown, Delay>(
    state: State<Driver, Timer, Delay>,
) -> bool {
    match state {
        State::Step { future, delay: _ } => future.phase() != PulsePhase::Initial,
        _ => false,
    }
}

/// Whether `after` holds the same step as `before`, with its delay, and with
/// the pulse carried on from where `before` left it.
pub open spec fn same_step<Driver: SetDirection + Step, Timer: CountDown, Delay>(
    before: State<Driver, Timer, Delay>,
    after: State<Driver, Timer, Delay>,
) -> bool {
    match (before, after) {
        (State::Step { future: f0, delay: d0 }, State::Step { future: f1, delay: d1 }) => {
            &&& d1 == d0
            &&& f1.operations().len() >= f0.operations().len()
            &&& f1.operations().take(f0.operations().len() as int) == f0.operations()
        },
        _ => false,
    }
}

/// Whether `after` holds the same direction change as `before`, carried on
/// from where `before` left it.
pub open spec fn same_direction_change<Driver: SetDirection + Step, Timer: CountDown, Delay>(
    before: State<Driver, Timer, Delay>,
    after: State<Driver, Timer, Delay>,
) -> bool {
    match (before, after) {
        (State::SetDirection(f0), State::SetDirection(f1)) => {
            &&& f1.direction() == f0.direction()
            &&& f1.operations().len() >= f0.operations().len()
            &&& f1.operations().take(f0.operations().len() as int) == f0.operations()
        },
        _ => false,
    }
}

/// What `update` may report together with the state that it hands back.
pub open spec fn outcome_matches_state<Driver, Timer, Delay>(
    result: Result<bool, Error>,
    state: State<Driver, Timer, Delay>,
) -> bool {
    match result {
        Ok(false) => state is Idle,
        Ok(true) => state is SetDirection || state is Step || state is StepDelay,
        Err(Error::SetDirection(_)) => state is SetDirection,
        Err(Error::Step(_)) => state is Step,
        Err(Error::TimeConversion(_)) => state is Idle,
        Err(Error::StepDelay(TimerFault::Start)) => state is Idle,
        Err(Error::StepDelay(TimerFault::Wait)) => state is StepDelay,
        Err(Error::Poisoned) => state is Invalid,
    }
}

/// What one call of [`update`] does to the pending request, the current
/// direction and the step count: the request is taken whole or left in
/// place; the direction becomes the request once it is taken, and is
/// otherwise kept; the count moves by at most one unit of the direction that
/// held when the call began.
pub open spec fn call_effect(
    request: Option<Direction>,
    request_after: Option<Direction>,
    direction: Direction,
    direction_after: Direction,
    count: int,
    count_after: int,
) -> bool {
    &&& request_after == request || request_after is None
    &&& direction_after == match request {
        Some(d) => if request_after is None {
            d
        } else {
            direction
        },
        None => direction,
    }
    &&& count_after == count || count_after == count + direction.spec_unit()
}

/// Over a run of calls of [`update`] in which no direction is requested, the
/// direction never changes, and the step count ends up moved by a whole
/// number of units of that direction, one for each completed step, and at
/// most one per call.
pub proof fn lemma_run_without_requests(directions: Seq<Direction>, counts: Seq<int>) -> (steps:
    int)
    requires
        directions.len() == counts.len(),
        directions.len() > 0,
        forall|i: int|
            0 <= i < directions.len() - 1 ==> #[trigger] call_effect(
                None,
                None,
                directions[i],
                directions[i + 1],
                counts[i],
                counts[i + 1],
            ),
    ensures
        forall|i: int| 0 <= i < directions.len() ==> #[trigger] directions[i] == directions[0],
        0 <= steps < directions.len(),
        counts.last() == counts[0] + steps * directions[0].spec_unit(),
    decreases directions.len(),
{
    let n = directions.len();
    if n == 1 {
        assert(counts.last() == counts[0] + 0 * directions[0].spec_unit());
        0
    } else {
        let ds = directions.take(n - 1);
        let cs = counts.take(n - 1);
        assert forall|i: int| 0 <= i < ds.len() - 1 implies #[trigger] call_effect(
            None,
            None,
            ds[i],
            ds[i + 1],
            cs[i],
            cs[i + 1],
        ) by {
            assert(call_effect(
                None,
                None,
                directions[i],
                directions[i + 1],
                counts[i],
                counts[i + 1],
            ));
        }
        let k = lemma_run_without_requests(ds, cs);
        let j = n - 2;
        assert(call_effect(None, None, directions[j], directions[j + 1], counts[j], counts[j + 1]));
        assert(ds[n - 2] == directions[n - 2]);
        assert(directions[n - 1] == directions[0]);
        assert forall|i: int| 0 <= i < n implies #[trigger] directions[i] == directions[0] by {
            if i < n - 1 {
                assert(ds[i] == directions[i]);
            }
        }
        let u = directions[0].spec_unit();
        assert((k + 1) * u == k * u + u) by (nonlinear_arith);
        if counts[n - 1] == counts[n - 2] {
            k
        } else {
            k + 1
        }
    }
}

/// Where a transition leads: on to another state within the same call of
/// [`update`], or back to the caller with a result and the state to keep.
pub enum Next<Driver, Timer, Delay> {
    Continue(State<Driver, Timer, Delay>),
    Return(Result<bool, Error>, State<Driver, Timer, Delay>),
}

/// What follows a poll of a step pulse: the pulse completed, and its driver,
/// timer and delay move on to the rest of the step; or the call returns.
pub enum StepPolled<Driver, Timer, Delay> {
    Completed(Driver, Timer, Delay),
    Return(Result<bool, Error>, State<Driver, Timer, Delay>),
}

/// Take a direction request at rest. A request for the current direction is
/// dropped and rest kept; another one starts a direction change towards it
/// and becomes the current direction at once.
pub fn on_request<Driver: SetDirection + Step, Timer: CountDown, Delay>(
    direction: Direction,
    current_direction: &mut Direction,
    driver: Driver,
    timer: Timer,
) -> (r: State<Driver, Timer, Delay>)
    ensures
        direction == *old(current_direction) ==> r == (State::Idle::<Driver, Timer, Delay> {
            driver,
            timer,
        }),
        direction != *old(current_direction) ==> match r {
            State::SetDirection(future) => future.phase() == PulsePhase::Initial
                && future.direction() == direction && future.driver() == driver
                && future.timer() == timer,
            _ => false,
        },
        *final(current_direction) == direction,
{
    if direction == *current_direction {
        return State::Idle { driver, timer };
    }
    *current_direction = direction;
    State::SetDirection(SetDirectionFuture::new(direction, driver, timer))
}

/// Act on the profile's answer at rest: a delay starts a step with that
/// delay; no delay means there is nothing to do.
pub fn on_next_delay<Driver: SetDirection + Step, Timer: CountDown, Delay>(
    answer: Option<Delay>,
    driver: Driver,
    timer: Timer,
) -> (r: Next<Driver, Timer, Delay>)
    ensures
        answer is None ==> r == Next::<Driver, Timer, Delay>::Return(
            Ok::<bool, Error>(false),
            State::Idle::<Driver, Timer, Delay> { driver, timer },
        ),
        answer is Some ==> match r {
            Next::<Driver, Timer, Delay>::Continue(State::Step { future, delay }) => delay == answer->0
                && future.phase() == PulsePhase::Initial && future.driver() == driver
                && future.timer() == timer,
            _ => false,
        },
{
    match answer {
        Some(delay) => Next::<Driver, Timer, Delay>::Continue(State::Step { future: StepFuture::new(driver, timer), delay }),
        None => Next::<Driver, Timer, Delay>::Return(Ok(false), State::Idle { driver, timer }),
    }
}

/// Act on a poll of a direction change: once it is over, rest with the
/// resources it held; otherwise report busy or its error, and keep it.
pub fn on_direction_polled<Driver: SetDirection + Step, Timer: CountDown, Delay>(
    answer: PulsePoll,
    future: SetDirectionFuture<Driver, Timer>,
) -> (r: Next<Driver, Timer, Delay>)
    ensures
        r == match answer {
            PulsePoll::Ready(Ok(())) => Next::<Driver, Timer, Delay>::Continue(
                State::Idle { driver: future.driver(), timer: future.timer() },
            ),
            PulsePoll::Ready(Err(e)) => Next::<Driver, Timer, Delay>::Return(
                Err(Error::SetDirection(e)),
                State::SetDirection(future),
            ),
            PulsePoll::Pending => Next::<Driver, Timer, Delay>::Return(Ok::<bool, Error>(true), State::SetDirection(future)),
        },
{
    match answer {
        PulsePoll::Ready(Ok(())) => {
            let (driver, timer) = future.release();
            Next::<Driver, Timer, Delay>::Continue(State::Idle { driver, timer })
        },
        PulsePoll::Ready(Err(err)) => Next::<Driver, Timer, Delay>::Return(
            Err(Error::SetDirection(err)),
            State::SetDirection(future),
        ),
        PulsePoll::Pending => Next::<Driver, Timer, Delay>::Return(Ok::<bool, Error>(true), State::SetDirection(future)),
    }
}

/// Act on a poll of a step pulse: once it is over, count the step in the
/// current direction and hand its resources and delay on; otherwise report
/// busy or its error, and keep the step as it is.
pub fn on_step_polled<Driver: SetDirection + Step, Timer: CountDown, Delay>(
    answer: PulsePoll,
    future: StepFuture<Driver, Timer>,
    delay: Delay,
    current_step: &mut i32,
    current_direction: Direction,
) -> (r: StepPolled<Driver, Timer, Delay>)
    requires
        (answer matches PulsePoll::Ready(Ok(_))) ==> i32::MIN <= *old(current_step)
            + current_direction.spec_unit() <= i32::MAX,
    ensures
        r == match answer {
            PulsePoll::Ready(Ok(())) => StepPolled::<Driver, Timer, Delay>::Completed(
                future.driver(),
                future.timer(),
                delay,
            ),
            PulsePoll::Ready(Err(e)) => StepPolled::<Driver, Timer, Delay>::Return(
                Err(Error::Step(e)),
                State::Step { future, delay },
            ),
            PulsePoll::Pending => StepPolled::<Driver, Timer, Delay>::Return(Ok::<bool, Error>(true), State::Step { future, delay }),
        },
        *final(current_step) == if answer matches PulsePoll::Ready(Ok(_)) {
            *old(current_step) + current_direction.spec_unit()
        } else {
            *old(current_step) as int
        },
{
    match answer {
        PulsePoll::Ready(Ok(())) => {
            *current_step = *current_step + current_direction.unit();
            let (driver, timer) = future.release();
            StepPolled::<Driver, Timer, Delay>::Completed(driver, timer, delay)
        },
        PulsePoll::Ready(Err(err)) => StepPolled::<Driver, Timer, Delay>::Return(
            Err(Error::Step(err)),
            State::Step { future, delay },
        ),
        PulsePoll::Pending => StepPolled::<Driver, Timer, Delay>::Return(Ok::<bool, Error>(true), State::Step { future, delay }),
    }
}

/// Act on the remaining delay of a completed step: the ticks go on to the
/// timer; a failed conversion drops the step and rests.
pub fn on_delay_left<Driver: SetDirection + Step, Timer: CountDown, Delay>(
    answer: Result<u64, TimeConversionError>,
    driver: Driver,
    timer: Timer,
) -> (r: Result<(u64, Driver, Timer), (Result<bool, Error>, State<Driver, Timer, Delay>)>)
    ensures
        r == match answer {
            Ok(ticks) => Ok::<(u64, Driver, Timer), (Result<bool, Error>, State<Driver, Timer, Delay>)>((ticks, driver, timer)),
            Err(e) => Err((Err::<bool, Error>(Error::TimeConversion(e)), State::Idle { driver, timer })),
        },
{
    match answer {
        Ok(ticks) => Ok((ticks, driver, timer)),
        Err(err) => Err((Err(Error::TimeConversion(err)), State::Idle { driver, timer })),
    }
}

/// Act on the start of the timer for the remaining delay: wait it out once
/// started; if the timer failed to start, drop the step and rest.
pub fn on_timer_started<Driver: SetDirection + Step, Timer: CountDown, Delay>(
    answer: Result<(), ()>,
    driver: Driver,
    timer: Timer,
) -> (r: Next<Driver, Timer, Delay>)
    ensures
        r == match answer {
            Ok(()) => Next::<Driver, Timer, Delay>::Continue(State::StepDelay { driver, timer }),
            Err(()) => Next::<Driver, Timer, Delay>::Return(
                Err(Error::StepDelay(TimerFault::Start)),
                State::Idle { driver, timer },
            ),
        },
{
    match answer {
        Ok(()) => Next::<Driver, Timer, Delay>::Continue(State::StepDelay { driver, timer }),
        Err(()) => Next::<Driver, Timer, Delay>::Return(Err(Error::StepDelay(TimerFault::Start)), State::Idle { driver, timer }),
    }
}

/// Act on a poll of the timer during the remaining delay: once expired,
/// rest; while it runs, report busy; on a failure, report it. Either way
/// but the first, the delay is kept.
pub fn on_wait<Driver: SetDirection + Step, Timer: CountDown, Delay>(
    answer: TimerPoll,
    driver: Driver,
    timer: Timer,
) -> (r: Next<Driver, Timer, Delay>)
    ensures
        r == match answer {
            TimerPoll::Expired => Next::<Driver, Timer, Delay>::Continue(State::Idle { driver, timer }),
            TimerPoll::Running => Next::<Driver, Timer, Delay>::Return(Ok::<bool, Error>(true), State::StepDelay { driver, timer }),
            TimerPoll::Failed => Next::<Driver, Timer, Delay>::Return(
                Err(Error::StepDelay(TimerFault::Wait)),
                State::StepDelay { driver, timer },
            ),
        },
{
    match answer {
        TimerPoll::Expired => Next::<Driver, Timer, Delay>::Continue(State::Idle { driver, timer }),
        TimerPoll::Running => Next::<Driver, Timer, Delay>::Return(Ok::<bool, Error>(true), State::StepDelay { driver, timer }),
        TimerPoll::Failed => Next::<Driver, Timer, Delay>::Return(
            Err(Error::StepDelay(TimerFault::Wait)),
            State::StepDelay { driver, timer },
        ),
    }
}

/// Advance the motion state machine as far as it can go without blocking.
///
/// From `Idle`, a requested direction that differs from the current one
/// starts a direction change, and becomes the current direction at once; a
/// request for the current direction is dropped. Without a request, a delay
/// from the profile starts a step. A step that completes moves the step count
/// by the unit of the current direction, then its remaining delay is waited
/// out. The machine keeps going until it has to wait for the hardware
/// (`Ok(true)`), has nothing left to do (`Ok(false)`), or meets an error.
///
/// Pin and timer errors of a pulse in flight leave that pulse in place, so
/// that polling again may retry it. An error in computing or starting the
/// remaining step delay drops the step and goes back to `Idle`. The poisoned
/// state is never left, and every call on it fails.
pub fn update<Driver, Timer, Profile, Convert, Delay>(
    state: State<Driver, Timer, Delay>,
    new_motion: &mut Option<Direction>,
    profile: &mut Profile,
    current_step: &mut i32,
    current_direction: &mut Direction,
    convert: &Convert,
) -> (r: (Result<bool, Error>, State<Driver, Timer, Delay>)) where
    Driver: SetDirection + Step,
    Timer: CountDown,
    Profile: MotionProfile<Delay>,
    Convert: DelayToTicks<Delay>,

    requires
        pulse_under_way(state) ==> i32::MIN <= *old(current_step) + old(
            current_direction,
        ).spec_unit() <= i32::MAX,
    ensures
        outcome_matches_state(r.0, r.1),
        (state is Invalid) <==> (r.0 == Err::<bool, Error>(Error::Poisoned)),
        state is Invalid ==> r.1 is Invalid && *final(new_motion) == *old(new_motion)
            && *final(current_direction) == *old(current_direction) && *final(current_step)
            == *old(current_step),
        // A request is taken whole or left in place, and decides the
        // direction; only a pulse that was already under way can complete,
        // at most one per call, and it counts in the direction it was made in.
        call_effect(
            *old(new_motion),
            *final(new_motion),
            *old(current_direction),
            *final(current_direction),
            *old(current_step) as int,
            *final(current_step) as int,
        ),
        r.0 == Ok::<bool, Error>(false) ==> *final(new_motion) is None,
        *final(current_step) == *old(current_step) || pulse_under_way(state),
        // The remaining delay is computed and started only for a step whose
        // pulse completed, and counted, in this call.
        ((r.0 matches Err(Error::TimeConversion(_))) || r.0 == Err::<bool, Error>(
            Error::StepDelay(TimerFault::Start),
        )) ==> pulse_under_way(state) && *final(current_step) == *old(current_step) + old(
            current_direction,
        ).spec_unit(),
        // Without a request no direction change begins, and a direction
        // that changes leaves the call with its change just begun.
        *old(new_motion) is None && !(state is SetDirection) ==> !(r.1 is SetDirection),
        *final(current_direction) != *old(current_direction) ==> r.1 is SetDirection,
        // A step in flight that has not completed stays in flight.
        state is Step && r.1 is Step && *final(current_step) == *old(current_step) ==> same_step(
            state,
            r.1,
        ),
        // A direction change in flight stays in flight until it completes.
        state is SetDirection && r.1 is SetDirection && *final(new_motion) == *old(new_motion)
            ==> same_direction_change(state, r.1),
        // A request for a new direction from rest starts a direction change
        // before anything else.
        state is Idle && *old(new_motion) is Some && (*old(new_motion))->0 != *old(
            current_direction,
        ) ==> r.1 is SetDirection && *final(current_step) == *old(current_step),
        // From rest, a request is always taken and no step is counted.
        state is Idle ==> *final(new_motion) is None && *final(current_step) == *old(
            current_step,
        ),
        // Without a request, or with one for the current direction, rest is
        // left only to start a step.
        state is Idle && (*old(new_motion) is None || *old(new_motion) == Some(
            *old(current_direction),
        )) ==> (r.0 == Ok::<bool, Error>(false) && r.1 is Idle) || r.1 is Step,
{
    let ghost initial = state;
    let ghost request = *new_motion;
    let ghost step0 = *current_step;
    let ghost dir0 = *current_direction;
    let ghost first = true;
    let mut current = state;
    loop
        invariant
            *new_motion == request || *new_motion is None,
            match request {
                Some(d) => if *new_motion is None {
                    *current_direction == d
                } else {
                    *current_direction == dir0
                },
                None => *current_direction == dir0,
            },
            initial == state,
            pulse_under_way(current) ==> current == initial && *current_direction == dir0
                && *current_step == step0,
            step0 == *old(current_step),
            dir0 == *old(current_direction),
            request == *old(new_motion),
            pulse_under_way(initial) ==> i32::MIN <= step0 + dir0.spec_unit() <= i32::MAX,
            *current_step == step0 || (pulse_under_way(initial) && *current_step == step0
                + dir0.spec_unit() && rank(current, *new_motion) <= 4),
            first ==> current == initial && *new_motion == request,
            (initial is Invalid) <==> (current is Invalid),
            initial is Step && current is Step && *current_step == step0 ==> current == initial,
            initial is Step && !(current is Step) ==> *current_step != step0,
            request is None && !(initial is SetDirection) ==> !(current is SetDirection),
            *current_direction != dir0 ==> current is SetDirection && rank(current, *new_motion)
                == 1,
            initial is SetDirection && current is SetDirection && *new_motion == request ==> current
                == initial,
            initial is Invalid ==> *new_motion == request && *current_direction == dir0
                && *current_step == step0,
            !first && initial is Idle && request is Some && request->0 != dir0 ==> current is SetDirection
                && rank(current, *new_motion) == 1 && *current_step == step0,
            !first && initial is Idle ==> *new_motion is None,
            !first && initial is Idle && (request is None || request == Some(dir0)) ==> (current is Idle && *new_motion is None)
                || (current is Step && rank(current, *new_motion) == 1),
            !first && initial is Idle ==> *current_step == step0,
        decreases
            rank(current, *new_motion),
    {
        proof {
            first = false;
        }
        match current {
            State::Idle { driver, timer } => {
                if let Some(direction) = new_motion.take() {
                    current = on_request(direction, current_direction, driver, timer);
                    continue ;
                }
                let answer = profile.next_delay();
                match on_next_delay(answer, driver, timer) {
                    Next::Continue(next) => {
                        current = next;
                        continue ;
                    },
                    Next::Return(result, next) => return (result, next),
                }
            },
            State::SetDirection(mut future) => {
                let answer = future.poll();
                match on_direction_polled(answer, future) {
                    Next::Continue(next) => {
                        current = next;
                        continue ;
                    },
                    Next::Return(result, next) => return (result, next),
                }
            },
            State::Step { mut future, delay } => {
                let answer = future.poll();
                let (driver, mut timer, delay) = match on_step_polled(
                    answer,
                    future,
                    delay,
                    current_step,
                    *current_direction,
                ) {
                    StepPolled::Completed(driver, timer, delay) => (driver, timer, delay),
                    StepPolled::Return(result, next) => return (result, next),
                };
                let pulse_length = driver.pulse_length();
                let remaining = delay_left(delay, pulse_length, convert, &timer);
                let (ticks, driver, mut timer) = match on_delay_left(remaining, driver, timer) {
                    Ok(handed_on) => handed_on,
                    Err((result, next)) => return (result, next),
                };
                let started = timer.start(ticks);
                match on_timer_started(started, driver, timer) {
                    Next::Continue(next) => {
                        current = next;
                        continue ;
                    },
                    Next::Return(result, next) => return (result, next),
                }
            },
            State::StepDelay { driver, mut timer } => {
                let answer = timer.wait();
                match on_wait(answer, driver, timer) {
                    Next::Continue(next) => {
                        current = next;
                        continue ;
                    },
                    Next::Return(result, next) => return (result, next),
                }
            },
            State::Invalid => {
                return (Err(Error::Poisoned), State::Invalid);
            },
        }
    }
}

} // verus!
