use pomo_nrf::driver::{init, on_button, on_tick};
use pomo_nrf::{
    Intervals, PomoStateMachine, Running, StateKind, StepError, StepReport, TickAction,
};

#[test]
fn init_starts_the_standard_timer() {
    let machine = init();
    assert_eq!(machine.kind(), Some(StateKind::Running));
    assert_eq!(machine.remaining(), Some(25));
    assert!(!machine.pause_requested());
    assert_eq!(machine.intervals(), Intervals { work: 25, rest: 10, tick: 1 });
}

#[test]
fn on_tick_steps_and_sleeps_for_the_tick() {
    let mut machine = PomoStateMachine::with_intervals(Intervals::new(9, 4, 3));
    machine.start(Running::new(9));
    assert_eq!(
        on_tick(&mut machine),
        Ok(TickAction { report: StepReport { progress: Some(6), entered: None }, sleep: 3 })
    );
    assert_eq!(machine.remaining(), Some(6));
    let mut standard = init();
    assert_eq!(
        on_tick(&mut standard),
        Ok(TickAction { report: StepReport { progress: Some(24), entered: None }, sleep: 1 })
    );
}

#[test]
fn on_tick_fails_on_a_machine_that_was_not_started() {
    let mut machine = PomoStateMachine::new();
    assert_eq!(on_tick(&mut machine), Err(StepError::NotStarted));
    assert_eq!(machine.kind(), None);
}

#[test]
fn button_toggles_between_work_and_pause() {
    let mut machine = PomoStateMachine::with_intervals(Intervals::new(3, 2, 1));
    machine.start(Running::new(2));
    on_button(&mut machine);
    assert!(machine.pause_requested());
    assert!(!machine.resume_requested());
    assert!(on_tick(&mut machine).is_ok());
    assert_eq!((machine.kind(), machine.remaining()), (Some(StateKind::Paused), Some(2)));
    for _ in 0..4 {
        assert!(on_tick(&mut machine).is_ok());
        assert_eq!((machine.kind(), machine.remaining()), (Some(StateKind::Paused), Some(2)));
    }
    on_button(&mut machine);
    assert!(machine.resume_requested());
    assert!(on_tick(&mut machine).is_ok());
    assert_eq!((machine.kind(), machine.remaining()), (Some(StateKind::Running), Some(2)));
    assert!(!machine.pause_requested());
}

#[test]
fn button_during_rest_is_lost() {
    let mut machine = PomoStateMachine::with_intervals(Intervals::new(3, 2, 1));
    machine.start(Running::new(1));
    assert!(on_tick(&mut machine).is_ok());
    assert_eq!(machine.kind(), Some(StateKind::InBetween));
    on_button(&mut machine);
    assert_eq!((machine.kind(), machine.remaining()), (Some(StateKind::InBetween), Some(2)));
    assert!(on_tick(&mut machine).is_ok());
    assert!(on_tick(&mut machine).is_ok());
    assert_eq!((machine.kind(), machine.remaining()), (Some(StateKind::Running), Some(3)));
    assert!(!machine.pause_requested());
}

#[test]
fn button_before_start_is_lost() {
    let mut machine = PomoStateMachine::new();
    on_button(&mut machine);
    assert_eq!(machine.kind(), None);
    assert!(!machine.pause_requested());
    assert!(!machine.resume_requested());
}
