use std::cell::RefCell;
use std::collections::VecDeque;
use std::rc::Rc;

use stepper::error::{Error, PinFault, SignalError, TimeConversionError, TimerFault};
use stepper::motion_control::state::{
    on_delay_left, on_direction_polled, on_next_delay, on_request, on_step_polled, on_timer_started,
    on_wait, update, Next, State, StepPolled,
};
use stepper::stepper::set_direction::SetDirectionFuture;
use stepper::stepper::step::StepFuture;
use stepper::stepper::PulsePoll;
use stepper::time::remaining_ticks;
use stepper::traits::{CountDown, DelayToTicks, MotionProfile, SetDirection, Step, TimerPoll};
use stepper::Direction;

#[derive(Default)]
struct Log {
    events: Vec<String>,
    timer_starts: Vec<u64>,
    step_high_failures: Vec<PinFault>,
    step_low_failures: Vec<PinFault>,
    dir_failures: Vec<PinFault>,
    start_failures: u32,
    wait_failures: u32,
    running_polls: u32,
    nanos_conversion_fails: bool,
}

type Shared = Rc<RefCell<Log>>;

struct Driver {
    log: Shared,
    pulse_length: u32,
    setup_time: u32,
}

impl Step for Driver {
    fn spec_pulse_length(&self) -> u32 {
        self.pulse_length
    }

    fn pulse_length(&self) -> u32 {
        self.pulse_length
    }

    fn set_step_high(&mut self) -> Result<(), PinFault> {
        let mut log = self.log.borrow_mut();
        if !log.step_high_failures.is_empty() {
            return Err(log.step_high_failures.remove(0));
        }
        log.events.push("step high".to_string());
        Ok(())
    }

    fn set_step_low(&mut self) -> Result<(), PinFault> {
        let mut log = self.log.borrow_mut();
        if !log.step_low_failures.is_empty() {
            return Err(log.step_low_failures.remove(0));
        }
        log.events.push("step low".to_string());
        Ok(())
    }
}

impl SetDirection for Driver {
    fn spec_setup_time(&self) -> u32 {
        self.setup_time
    }

    fn setup_time(&self) -> u32 {
        self.setup_time
    }

    fn set_direction(&mut self, direction: Direction) -> Result<(), PinFault> {
        let mut log = self.log.borrow_mut();
        if !log.dir_failures.is_empty() {
            return Err(log.dir_failures.remove(0));
        }
        log.events.push(format!("dir {:?}", direction));
        Ok(())
    }
}

/// One tick per nanosecond; each count-down reports "running" once.
struct Timer {
    log: Shared,
    running: bool,
}

impl CountDown for Timer {
    fn ticks_of_nanoseconds(&self, nanoseconds: u32) -> Option<u64> {
        self.nanoseconds_to_ticks(nanoseconds)
    }

    fn nanoseconds_to_ticks(&self, nanoseconds: u32) -> Option<u64> {
        if self.log.borrow().nanos_conversion_fails {
            None
        } else {
            Some(nanoseconds as u64)
        }
    }

    fn start(&mut self, ticks: u64) -> Result<(), ()> {
        let mut log = self.log.borrow_mut();
        if log.start_failures > 0 {
            log.start_failures -= 1;
            return Err(());
        }
        log.timer_starts.push(ticks);
        self.running = true;
        Ok(())
    }

    fn wait(&mut self) -> TimerPoll {
        let mut log = self.log.borrow_mut();
        if log.wait_failures > 0 {
            log.wait_failures -= 1;
            return TimerPoll::Failed;
        }
        if self.running {
            self.running = false;
            log.running_polls += 1;
            TimerPoll::Running
        } else {
            TimerPoll::Expired
        }
    }
}

struct Profile {
    delays: VecDeque<u64>,
}

impl MotionProfile<u64> for Profile {
    fn next_delay(&mut self) -> Option<u64> {
        self.delays.pop_front()
    }
}

/// Delays are already in ticks; `u64::MAX` stands for one that cannot be
/// converted.
struct Convert;

impl DelayToTicks<u64> for Convert {
    fn ticks_of(&self, delay: u64) -> Option<u64> {
        self.delay_to_ticks(delay)
    }

    fn delay_to_ticks(&self, delay: u64) -> Option<u64> {
        if delay == u64::MAX {
            None
        } else {
            Some(delay)
        }
    }
}

fn idle(log: &Shared) -> State<Driver, Timer, u64> {
    State::Idle {
        driver: Driver { log: log.clone(), pulse_length: 100, setup_time: 20 },
        timer: Timer { log: log.clone(), running: false },
    }
}

fn profile(delays: &[u64]) -> Profile {
    Profile { delays: delays.iter().copied().collect() }
}

struct Machine {
    state: State<Driver, Timer, u64>,
    request: Option<Direction>,
    profile: Profile,
    step: i32,
    direction: Direction,
}

impl Machine {
    fn new(log: &Shared, delays: &[u64]) -> Machine {
        Machine {
            state: idle(log),
            request: None,
            profile: profile(delays),
            step: 0,
            direction: Direction::Forward,
        }
    }

    fn update(&mut self) -> Result<bool, Error> {
        let state = std::mem::replace(&mut self.state, State::Invalid);
        let (result, state) = update(
            state,
            &mut self.request,
            &mut self.profile,
            &mut self.step,
            &mut self.direction,
            &Convert,
        );
        self.state = state;
        result
    }

    /// Updates until idle, returning every result on the way.
    fn drain(&mut self) -> Vec<Result<bool, Error>> {
        let mut results = Vec::new();
        for _ in 0..1000 {
            let r = self.update();
            results.push(r);
            if r == Ok(false) {
                return results;
            }
        }
        panic!("the machine never came to rest");
    }
}

fn is_idle(state: &State<Driver, Timer, u64>) -> bool {
    matches!(state, State::Idle { .. })
}

#[test]
fn idle_without_work_stays_idle() {
    let log = Shared::default();
    let mut m = Machine::new(&log, &[]);
    for _ in 0..5 {
        assert_eq!(m.update(), Ok(false));
        assert!(is_idle(&m.state));
        assert_eq!(m.step, 0);
        assert_eq!(m.direction, Direction::Forward);
    }
    assert!(log.borrow().events.is_empty());
    assert!(log.borrow().timer_starts.is_empty());
}

#[test]
fn two_steps_of_a_thousand_ticks() {
    let log = Shared::default();
    let mut m = Machine::new(&log, &[1000, 1000]);
    let results = m.drain();
    assert!(results.iter().all(|r| r.is_ok()));
    assert_eq!(m.step, 2);
    assert!(is_idle(&m.state));
    assert_eq!(log.borrow().timer_starts, vec![100, 900, 100, 900]);
    assert_eq!(
        log.borrow().events,
        vec!["step high", "step low", "step high", "step low"]
    );
}

#[test]
fn busy_is_reported_while_the_hardware_counts() {
    let log = Shared::default();
    let mut m = Machine::new(&log, &[1000]);
    assert_eq!(m.update(), Ok(true));
    assert!(matches!(m.state, State::Step { .. }));
    assert_eq!(m.step, 0);
    assert_eq!(m.update(), Ok(true));
    assert_eq!(m.update(), Ok(true));
    assert!(matches!(m.state, State::StepDelay { .. }));
    assert_eq!(m.step, 1);
    assert_eq!(m.update(), Ok(false));
    assert!(is_idle(&m.state));
}

#[test]
fn backward_steps_count_down() {
    let log = Shared::default();
    let mut m = Machine::new(&log, &[500, 400, 300]);
    m.direction = Direction::Backward;
    m.step = 10;
    m.drain();
    assert_eq!(m.step, 7);
    assert_eq!(m.direction, Direction::Backward);
    assert_eq!(log.borrow().timer_starts, vec![100, 400, 100, 300, 100, 200]);
}

#[test]
fn same_direction_request_is_dropped() {
    let log = Shared::default();
    let mut m = Machine::new(&log, &[]);
    m.request = Some(Direction::Forward);
    assert_eq!(m.update(), Ok(false));
    assert_eq!(m.request, None);
    assert_eq!(m.direction, Direction::Forward);
    assert_eq!(m.step, 0);
    assert!(is_idle(&m.state));
    assert!(log.borrow().events.is_empty());
}

#[test]
fn new_direction_is_set_before_the_next_step() {
    let log = Shared::default();
    let mut m = Machine::new(&log, &[1000, 1000]);
    m.request = Some(Direction::Backward);
    assert_eq!(m.update(), Ok(true));
    assert_eq!(m.request, None);
    assert_eq!(m.direction, Direction::Backward);
    assert!(matches!(m.state, State::SetDirection(_)));
    assert_eq!(m.step, 0);
    m.drain();
    assert_eq!(m.step, -2);
    assert_eq!(log.borrow().timer_starts, vec![20, 100, 900, 100, 900]);
    assert_eq!(
        log.borrow().events,
        vec!["dir Backward", "step high", "step low", "step high", "step low"]
    );
}

#[test]
fn direction_error_keeps_the_change_in_flight() {
    let log = Shared::default();
    log.borrow_mut().dir_failures.push(PinFault::Signal);
    let mut m = Machine::new(&log, &[1000]);
    m.request = Some(Direction::Backward);
    assert_eq!(m.update(), Err(Error::SetDirection(SignalError::Pin)));
    assert!(matches!(m.state, State::SetDirection(_)));
    assert_eq!(m.direction, Direction::Backward);
    m.drain();
    assert_eq!(m.step, -1);
}

#[test]
fn setup_time_conversion_error_is_reported() {
    let log = Shared::default();
    log.borrow_mut().nanos_conversion_fails = true;
    let mut m = Machine::new(&log, &[]);
    m.request = Some(Direction::Backward);
    assert_eq!(
        m.update(),
        Err(Error::SetDirection(SignalError::NanosecondsToTicks))
    );
    assert!(matches!(m.state, State::SetDirection(_)));
}

#[test]
fn remaining_ticks_takes_off_the_pulse() {
    assert_eq!(remaining_ticks(Some(1000), Some(100)), Ok(900));
    assert_eq!(remaining_ticks(Some(100), Some(100)), Ok(0));
    let pulse: u64 = 37;
    for delay in [37u64, 38, 1000, u64::MAX] {
        assert_eq!(remaining_ticks(Some(delay), Some(pulse)).unwrap() + pulse, delay);
    }
}

#[test]
fn remaining_ticks_reports_each_failure() {
    assert_eq!(
        remaining_ticks(None, Some(100)),
        Err(TimeConversionError::DelayToTicks)
    );
    assert_eq!(
        remaining_ticks(Some(1000), None),
        Err(TimeConversionError::NanosecondsToTicks)
    );
    assert_eq!(
        remaining_ticks(Some(99), Some(100)),
        Err(TimeConversionError::DelayShorterThanPulse)
    );
}

#[test]
fn pin_error_keeps_the_step_in_flight() {
    let log = Shared::default();
    log.borrow_mut().step_high_failures.push(PinFault::Signal);
    let mut m = Machine::new(&log, &[1000]);
    assert_eq!(m.update(), Err(Error::Step(SignalError::Pin)));
    assert!(matches!(m.state, State::Step { .. }));
    assert_eq!(m.step, 0);
    let results = m.drain();
    assert!(results.iter().all(|r| r.is_ok()));
    assert_eq!(m.step, 1);
    assert_eq!(log.borrow().timer_starts, vec![100, 900]);
}

#[test]
fn unavailable_pin_is_told_apart() {
    let log = Shared::default();
    log.borrow_mut().step_high_failures.push(PinFault::Unavailable);
    let mut m = Machine::new(&log, &[1000]);
    assert_eq!(m.update(), Err(Error::Step(SignalError::PinUnavailable)));
    assert!(matches!(m.state, State::Step { .. }));
}

#[test]
fn pin_error_at_pulse_end_keeps_the_step() {
    let log = Shared::default();
    log.borrow_mut().step_low_failures.push(PinFault::Signal);
    let mut m = Machine::new(&log, &[1000]);
    assert_eq!(m.update(), Ok(true));
    assert_eq!(m.update(), Ok(true));
    assert_eq!(m.update(), Err(Error::Step(SignalError::Pin)));
    assert_eq!(m.step, 0);
    m.drain();
    assert_eq!(m.step, 1);
}

#[test]
fn conversion_error_returns_to_idle() {
    let log = Shared::default();
    let mut m = Machine::new(&log, &[u64::MAX, 1000]);
    let results = m.drain();
    let errors: Vec<_> = results.iter().filter(|r| r.is_err()).collect();
    assert_eq!(
        errors,
        vec![&Err(Error::TimeConversion(TimeConversionError::DelayToTicks))]
    );
    assert_eq!(m.step, 2);
    assert_eq!(log.borrow().timer_starts, vec![100, 100, 900]);
}

#[test]
fn conversion_error_leaves_state_idle() {
    let log = Shared::default();
    let mut m = Machine::new(&log, &[50]);
    assert_eq!(m.update(), Ok(true));
    assert_eq!(m.update(), Ok(true));
    assert_eq!(
        m.update(),
        Err(Error::TimeConversion(TimeConversionError::DelayShorterThanPulse))
    );
    assert!(is_idle(&m.state));
    assert_eq!(m.update(), Ok(false));
}

#[test]
fn timer_start_error_returns_to_idle() {
    let log = Shared::default();
    let mut m = Machine::new(&log, &[1000]);
    assert_eq!(m.update(), Ok(true));
    log.borrow_mut().start_failures = 1;
    assert_eq!(m.update(), Ok(true));
    assert_eq!(m.update(), Err(Error::StepDelay(TimerFault::Start)));
    assert!(is_idle(&m.state));
    assert_eq!(m.step, 1);
}

#[test]
fn timer_wait_error_keeps_the_delay() {
    let log = Shared::default();
    let mut m = Machine::new(&log, &[1000]);
    assert_eq!(m.update(), Ok(true));
    assert_eq!(m.update(), Ok(true));
    assert_eq!(m.update(), Ok(true));
    assert!(matches!(m.state, State::StepDelay { .. }));
    log.borrow_mut().wait_failures = 1;
    assert_eq!(m.update(), Err(Error::StepDelay(TimerFault::Wait)));
    assert!(matches!(m.state, State::StepDelay { .. }));
    assert_eq!(m.update(), Ok(false));
    assert_eq!(m.step, 1);
}

#[test]
fn poisoned_state_stays_poisoned() {
    let log = Shared::default();
    let mut m = Machine::new(&log, &[1000]);
    m.state = State::Invalid;
    m.request = Some(Direction::Backward);
    for _ in 0..3 {
        assert_eq!(m.update(), Err(Error::Poisoned));
        assert!(matches!(m.state, State::Invalid));
    }
    assert_eq!(m.step, 0);
    assert_eq!(m.request, Some(Direction::Backward));
    assert_eq!(m.direction, Direction::Forward);
}

#[test]
fn step_future_runs_through_its_phases() {
    let log = Shared::default();
    let driver = Driver { log: log.clone(), pulse_length: 250, setup_time: 20 };
    let timer = Timer { log: log.clone(), running: false };
    let mut future = StepFuture::new(driver, timer);
    assert!(matches!(future.poll(), PulsePoll::Pending));
    assert!(matches!(future.poll(), PulsePoll::Pending));
    assert!(matches!(future.poll(), PulsePoll::Ready(Ok(()))));
    assert!(matches!(future.poll(), PulsePoll::Ready(Ok(()))));
    let (driver, _timer) = future.release();
    assert_eq!(driver.pulse_length, 250);
    assert_eq!(log.borrow().timer_starts, vec![250]);
    assert_eq!(log.borrow().events, vec!["step high", "step low"]);
}

#[test]
fn step_future_timer_failure_finishes_it() {
    let log = Shared::default();
    let driver = Driver { log: log.clone(), pulse_length: 250, setup_time: 20 };
    let timer = Timer { log: log.clone(), running: false };
    let mut future = StepFuture::new(driver, timer);
    log.borrow_mut().start_failures = 1;
    assert!(matches!(
        future.poll(),
        PulsePoll::Ready(Err(SignalError::Timer(TimerFault::Start)))
    ));
    assert!(matches!(future.poll(), PulsePoll::Pending));
    log.borrow_mut().wait_failures = 1;
    assert!(matches!(
        future.poll(),
        PulsePoll::Ready(Err(SignalError::Timer(TimerFault::Wait)))
    ));
    assert!(matches!(future.poll(), PulsePoll::Ready(Ok(()))));
}

#[test]
fn set_direction_future_drives_the_pin() {
    let log = Shared::default();
    let driver = Driver { log: log.clone(), pulse_length: 250, setup_time: 20 };
    let timer = Timer { log: log.clone(), running: false };
    let mut future = SetDirectionFuture::new(Direction::Forward, driver, timer);
    assert!(matches!(future.poll(), PulsePoll::Pending));
    assert!(matches!(future.poll(), PulsePoll::Pending));
    assert!(matches!(future.poll(), PulsePoll::Ready(Ok(()))));
    let _ = future.release();
    assert_eq!(log.borrow().timer_starts, vec![20]);
    assert_eq!(log.borrow().events, vec!["dir Forward"]);
}

#[test]
fn direction_units() {
    assert_eq!(Direction::Forward.unit(), 1);
    assert_eq!(Direction::Backward.unit(), -1);
    assert_eq!(SignalError::from_pin(PinFault::Signal), SignalError::Pin);
    assert_eq!(
        SignalError::from_pin(PinFault::Unavailable),
        SignalError::PinUnavailable
    );
}

#[test]
fn pulse_length_conversion_error_keeps_the_step() {
    let log = Shared::default();
    log.borrow_mut().nanos_conversion_fails = true;
    let mut m = Machine::new(&log, &[1000]);
    assert_eq!(m.update(), Err(Error::Step(SignalError::NanosecondsToTicks)));
    assert!(matches!(m.state, State::Step { .. }));
    assert_eq!(m.step, 0);
    log.borrow_mut().nanos_conversion_fails = false;
    m.drain();
    assert_eq!(m.step, 1);
    assert_eq!(log.borrow().timer_starts, vec![100, 900]);
}

fn parts(log: &Shared) -> (Driver, Timer) {
    (
        Driver { log: log.clone(), pulse_length: 100, setup_time: 20 },
        Timer { log: log.clone(), running: false },
    )
}

#[test]
fn request_for_current_direction_keeps_rest() {
    let log = Shared::default();
    let (d, t) = parts(&log);
    let mut dir = Direction::Forward;
    let s: State<Driver, Timer, u64> = on_request(Direction::Forward, &mut dir, d, t);
    assert!(is_idle(&s));
    assert_eq!(dir, Direction::Forward);
    let (d, t) = parts(&log);
    let s: State<Driver, Timer, u64> = on_request(Direction::Backward, &mut dir, d, t);
    assert!(matches!(s, State::SetDirection(_)));
    assert_eq!(dir, Direction::Backward);
    assert!(log.borrow().events.is_empty());
}

#[test]
fn profile_answer_decides_rest_or_step() {
    let log = Shared::default();
    let (d, t) = parts(&log);
    let n: Next<Driver, Timer, u64> = on_next_delay(None, d, t);
    assert!(matches!(n, Next::Return(Ok(false), State::Idle { .. })));
    let (d, t) = parts(&log);
    let n: Next<Driver, Timer, u64> = on_next_delay(Some(700), d, t);
    assert!(matches!(n, Next::Continue(State::Step { delay: 700, .. })));
}

#[test]
fn direction_poll_answers() {
    let log = Shared::default();
    let (d, t) = parts(&log);
    let f = SetDirectionFuture::new(Direction::Forward, d, t);
    let n: Next<Driver, Timer, u64> = on_direction_polled(PulsePoll::Pending, f);
    assert!(matches!(n, Next::Return(Ok(true), State::SetDirection(_))));
    let (d, t) = parts(&log);
    let f = SetDirectionFuture::new(Direction::Forward, d, t);
    let n: Next<Driver, Timer, u64> =
        on_direction_polled(PulsePoll::Ready(Err(SignalError::Pin)), f);
    assert!(matches!(
        n,
        Next::Return(Err(Error::SetDirection(SignalError::Pin)), State::SetDirection(_))
    ));
    let (d, t) = parts(&log);
    let f = SetDirectionFuture::new(Direction::Forward, d, t);
    let n: Next<Driver, Timer, u64> = on_direction_polled(PulsePoll::Ready(Ok(())), f);
    assert!(matches!(n, Next::Continue(State::Idle { .. })));
}

#[test]
fn step_poll_answers() {
    let log = Shared::default();
    let mut count: i32 = 5;
    let (d, t) = parts(&log);
    let r = on_step_polled(PulsePoll::Pending, StepFuture::new(d, t), 300u64, &mut count, Direction::Backward);
    assert!(matches!(r, StepPolled::Return(Ok(true), State::Step { delay: 300, .. })));
    assert_eq!(count, 5);
    let (d, t) = parts(&log);
    let r = on_step_polled(
        PulsePoll::Ready(Err(SignalError::PinUnavailable)),
        StepFuture::new(d, t),
        300u64,
        &mut count,
        Direction::Backward,
    );
    assert!(matches!(
        r,
        StepPolled::Return(Err(Error::Step(SignalError::PinUnavailable)), State::Step { delay: 300, .. })
    ));
    assert_eq!(count, 5);
    let (d, t) = parts(&log);
    let r = on_step_polled(PulsePoll::Ready(Ok(())), StepFuture::new(d, t), 300u64, &mut count, Direction::Backward);
    assert!(matches!(r, StepPolled::Completed(_, _, 300)));
    assert_eq!(count, 4);
}

#[test]
fn remaining_delay_answers() {
    let log = Shared::default();
    let (d, t) = parts(&log);
    let r = on_delay_left::<Driver, Timer, u64>(Ok(900), d, t);
    assert!(matches!(r, Ok((900, _, _))));
    let (d, t) = parts(&log);
    let r = on_delay_left::<Driver, Timer, u64>(Err(TimeConversionError::DelayToTicks), d, t);
    assert!(matches!(
        r,
        Err((Err(Error::TimeConversion(TimeConversionError::DelayToTicks)), State::Idle { .. }))
    ));
}

#[test]
fn timer_answers() {
    let log = Shared::default();
    let (d, t) = parts(&log);
    let n: Next<Driver, Timer, u64> = on_timer_started(Ok(()), d, t);
    assert!(matches!(n, Next::Continue(State::StepDelay { .. })));
    let (d, t) = parts(&log);
    let n: Next<Driver, Timer, u64> = on_timer_started(Err(()), d, t);
    assert!(matches!(n, Next::Return(Err(Error::StepDelay(TimerFault::Start)), State::Idle { .. })));
    let (d, t) = parts(&log);
    let n: Next<Driver, Timer, u64> = on_wait(TimerPoll::Expired, d, t);
    assert!(matches!(n, Next::Continue(State::Idle { .. })));
    let (d, t) = parts(&log);
    let n: Next<Driver, Timer, u64> = on_wait(TimerPoll::Running, d, t);
    assert!(matches!(n, Next::Return(Ok(true), State::StepDelay { .. })));
    let (d, t) = parts(&log);
    let n: Next<Driver, Timer, u64> = on_wait(TimerPoll::Failed, d, t);
    assert!(matches!(n, Next::Return(Err(Error::StepDelay(TimerFault::Wait)), State::StepDelay { .. })));
}

#[test]
fn count_at_the_limit_is_accepted_at_rest() {
    let log = Shared::default();
    let mut m = Machine::new(&log, &[]);
    m.step = i32::MAX;
    assert_eq!(m.update(), Ok(false));
    assert_eq!(m.step, i32::MAX);
}

#[test]
fn backward_step_from_the_largest_count() {
    let log = Shared::default();
    let mut m = Machine::new(&log, &[1000]);
    m.direction = Direction::Backward;
    m.step = i32::MAX;
    let results = m.drain();
    assert!(results.iter().all(|r| r.is_ok()));
    assert_eq!(m.step, i32::MAX - 1);
}

#[test]
fn pulse_timer_starts_with_the_pulse_length() {
    let log = Shared::default();
    let driver = Driver { log: log.clone(), pulse_length: 4321, setup_time: 20 };
    let timer = Timer { log: log.clone(), running: false };
    let mut future = StepFuture::new(driver, timer);
    assert!(matches!(future.poll(), PulsePoll::Pending));
    assert_eq!(log.borrow().timer_starts, vec![4321]);
}
