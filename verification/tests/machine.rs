use pomodoro::Clock;
use pomodoro::Phase;
use pomodoro::Pomodoro;
use pomodoro::Signal;
use pomodoro::StepAction;

#[test]
fn pomodoro_timer_works_fine() {
    let working_timer = Clock::new(1, 1);
    let short_break_timer = Clock::new(1, 1);
    let long_break_timer = Clock::new(1, 1);
    let mut pomodoro = Pomodoro::new(
        working_timer,
        short_break_timer,
        long_break_timer,
        2,
        true,
        Some(3),
    );

    assert_eq!(pomodoro.current_status(), Phase::Working);
    assert_eq!(pomodoro.next_status(), Phase::Working);
    assert!(!pomodoro.is_reached_long_break());
    pomodoro.proceed();
    assert!(pomodoro.current_timer().is_done());
    assert_eq!(pomodoro.next_status(), Phase::ShortBreak);
    pomodoro.next_cycle();
    assert_eq!(pomodoro.counter.working, 1);
    assert_eq!(pomodoro.current_status(), Phase::ShortBreak);
    pomodoro.proceed();
    pomodoro.next_cycle();
    assert!(!pomodoro.is_reached_long_break());
    pomodoro.proceed();
    pomodoro.next_cycle();
    assert_eq!(pomodoro.current_status(), Phase::LongBreak);
    pomodoro.proceed();
    pomodoro.next_cycle();
    assert_eq!(pomodoro.current_status(), Phase::Working);
    assert!(!pomodoro.is_consumed());
    pomodoro.proceed();
    pomodoro.next_cycle();
    assert!(pomodoro.is_consumed());
}

#[test]
fn trasition() {
    let working_timer = Clock::new(2, 1);
    let short_break_timer = Clock::new(3, 1);
    let long_break_timer = Clock::new(4, 1);
    let mut pomodoro = Pomodoro::new(
        working_timer,
        short_break_timer,
        long_break_timer,
        2,
        true,
        Some(3),
    );
    pomodoro.run();
    assert!(pomodoro.is_consumed());
    assert_eq!(pomodoro.counter.working, 3);
    assert_eq!(pomodoro.counter.short_break, 1);
    assert_eq!(pomodoro.counter.long_break, 1);
}

#[test]
fn continuous_option_false() {
    let working_timer = Clock::new(1, 1);
    let short_break_timer = Clock::new(1, 1);
    let long_break_timer = Clock::new(1, 1);
    let mut pomodoro = Pomodoro::new(
        working_timer,
        short_break_timer,
        long_break_timer,
        2,
        false,
        None,
    );
    pomodoro.run();
    assert!(!pomodoro.is_active());
    assert_eq!(pomodoro.counter.working, 1);
    assert_eq!(pomodoro.counter.short_break, 0);
    assert_eq!(pomodoro.counter.long_break, 0);
}

#[test]
fn phase_sequence_interval_two() {
    // From a fresh machine with long_break_interval = 2 the phases follow
    // Working -> ShortBreak -> Working -> LongBreak -> Working -> ... .
    let mut p = Pomodoro::new(Clock::new(1, 1), Clock::new(1, 1), Clock::new(1, 1), 2, true, None);
    assert_eq!(p.current_status(), Phase::Working);
    let expected = [
        Phase::ShortBreak,
        Phase::Working,
        Phase::LongBreak,
        Phase::Working,
        Phase::ShortBreak,
        Phase::Working,
        Phase::LongBreak,
        Phase::Working,
    ];
    for exp in expected.iter() {
        p.proceed();
        p.next_cycle();
        assert_eq!(p.current_status(), *exp);
    }
}

#[test]
fn scenario_continuous_with_cap() {
    // Continuous mode, cap 3, interval 2, one-tick phases: the run stops
    // consumed with three working cycles, one short break, one long break.
    let mut p = Pomodoro::new(
        Clock::new(1, 1),
        Clock::new(1, 1),
        Clock::new(1, 1),
        2,
        true,
        Some(3),
    );
    p.run();
    assert!(p.is_consumed());
    assert_eq!(p.counter.working, 3);
    assert_eq!(p.counter.short_break, 1);
    assert_eq!(p.counter.long_break, 1);
}

#[test]
fn reached_long_break_formula() {
    let mut p = Pomodoro::new(Clock::new(1, 1), Clock::new(1, 1), Clock::new(1, 1), 3, true, None);
    assert!(!p.is_reached_long_break());
    p.counter.working = 3;
    assert!(p.is_reached_long_break());
    p.counter.working = 4;
    assert!(!p.is_reached_long_break());
    p.counter.working = 6;
    assert!(p.is_reached_long_break());
}

#[test]
fn current_timer_follows_phase() {
    let mut p = Pomodoro::new(Clock::new(10, 1), Clock::new(20, 1), Clock::new(30, 1), 2, true, None);
    assert_eq!(p.current_timer().lifespan, 10);
    p.current_status = Phase::ShortBreak;
    assert_eq!(p.current_timer().lifespan, 20);
    p.current_status = Phase::LongBreak;
    assert_eq!(p.current_timer().lifespan, 30);
}

#[test]
fn step_waits_then_advances() {
    let mut p = Pomodoro::new(Clock::new(2, 1), Clock::new(1, 1), Clock::new(1, 1), 2, true, Some(2));
    p.resume();
    assert_eq!(p.step(), StepAction::Wait);
    p.proceed();
    assert_eq!(p.step(), StepAction::Wait);
    p.proceed();
    assert_eq!(p.step(), StepAction::Advanced);
    assert_eq!(p.counter.working, 1);
    assert_eq!(p.current_status(), Phase::ShortBreak);
}

#[test]
fn step_mode_pauses_after_transition() {
    let mut p = Pomodoro::new(Clock::new(1, 1), Clock::new(1, 1), Clock::new(1, 1), 2, false, None);
    p.resume();
    assert_eq!(p.step(), StepAction::Wait);
    p.proceed();
    assert_eq!(p.step(), StepAction::Advanced);
    assert!(!p.is_active());
    assert_eq!(p.step(), StepAction::Stop);
}

#[test]
fn pause_stops_stepping() {
    // Once a pause is observed at an iteration boundary the loop stops:
    // a paused machine's step changes nothing further.
    let mut p = Pomodoro::new(Clock::new(5, 1), Clock::new(1, 1), Clock::new(1, 1), 2, true, None);
    p.resume();
    assert_eq!(p.step(), StepAction::Wait);
    p.proceed();
    p.pause();
    assert_eq!(p.step(), StepAction::Stop);
    assert_eq!(p.counter.working, 0);
    assert_eq!(p.working.elapsed, 1);
    assert_eq!(p.step(), StepAction::Stop);
    assert_eq!(p.working.elapsed, 1);
}

#[test]
fn resume_twice_same_as_once() {
    let mut once = Pomodoro::new(Clock::new(2, 1), Clock::new(2, 1), Clock::new(2, 1), 2, false, None);
    let mut twice = Pomodoro::new(Clock::new(2, 1), Clock::new(2, 1), Clock::new(2, 1), 2, false, None);
    once.resume();
    twice.resume();
    twice.resume();
    assert_eq!(once.is_active(), twice.is_active());
    once.run();
    twice.run();
    assert_eq!(once.counter.working, twice.counter.working);
    assert_eq!(once.counter.short_break, twice.counter.short_break);
    assert_eq!(once.counter.long_break, twice.counter.long_break);
    assert_eq!(once.current_status(), twice.current_status());
    assert_eq!(once.is_active(), twice.is_active());
}

#[test]
fn pause_on_paused_changes_nothing() {
    let mut p = Pomodoro::new(Clock::new(2, 1), Clock::new(2, 1), Clock::new(2, 1), 2, false, None);
    assert!(!p.is_active());
    p.pause();
    assert!(!p.is_active());
    assert_eq!(p.counter.working, 0);
    assert_eq!(p.counter.short_break, 0);
    assert_eq!(p.counter.long_break, 0);
    assert_eq!(p.working.elapsed, 0);
    assert_eq!(p.current_status(), Phase::Working);
}

#[test]
fn apply_signal_controls_pause_flag() {
    let mut p = Pomodoro::new(Clock::new(1, 1), Clock::new(1, 1), Clock::new(1, 1), 2, true, None);
    assert!(!p.is_active());
    assert!(p.apply_signal(Signal::Resume));
    assert!(p.is_active());
    assert!(p.apply_signal(Signal::Pause));
    assert!(!p.is_active());
    let before = p.counter.working;
    assert!(!p.apply_signal(Signal::Abort));
    assert!(!p.is_active());
    assert_eq!(p.counter.working, before);
}

#[test]
fn run_resumes_a_paused_machine() {
    // run always begins by resuming, whatever the pause flag held.
    let mut p = Pomodoro::new(Clock::new(1, 1), Clock::new(1, 1), Clock::new(1, 1), 2, true, Some(1));
    assert!(!p.is_active());
    p.run();
    assert!(p.is_consumed());
    assert_eq!(p.counter.working, 1);
}
