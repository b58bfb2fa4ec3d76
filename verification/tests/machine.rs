use pomo_nrf::{
    DoPause, DoResume, Intervals, MessageError, PomoStateMachine, Running, StateKind, StepError,
    StepReport, TICK_SECS, TIME_INBETWEEN_SECS, TIME_RUNNING_SECS,
};

fn started(work: u32, rest: u32, tick: u32, initial: u32) -> PomoStateMachine {
    let mut machine = PomoStateMachine::with_intervals(Intervals::new(work, rest, tick));
    machine.start(Running::new(initial));
    machine
}

fn observe(machine: &PomoStateMachine) -> (Option<StateKind>, Option<u32>) {
    (machine.kind(), machine.remaining())
}

#[test]
fn standard_constants() {
    assert_eq!(TIME_RUNNING_SECS, 25);
    assert_eq!(TIME_INBETWEEN_SECS, 10);
    assert_eq!(TICK_SECS, 1);
    let machine = PomoStateMachine::new();
    assert_eq!(machine.intervals(), Intervals { work: 25, rest: 10, tick: 1 });
    assert_eq!(Intervals::standard(), Intervals::new(25, 10, 1));
}

#[test]
fn new_machine_is_idle() {
    let machine = PomoStateMachine::new();
    assert_eq!(observe(&machine), (None, None));
    assert!(!machine.pause_requested());
    assert!(!machine.resume_requested());
}

#[test]
fn step_before_start_fails_and_changes_nothing() {
    let mut machine = PomoStateMachine::new();
    assert_eq!(machine.step(), Err(StepError::NotStarted));
    assert_eq!(observe(&machine), (None, None));
    assert_eq!(machine.step(), Err(StepError::NotStarted));
}

#[test]
fn requests_before_start_are_discarded() {
    let mut machine = PomoStateMachine::new();
    assert_eq!(machine.deliver_pause(DoPause), Err(MessageError::StateIsNotActive(DoPause)));
    assert_eq!(machine.deliver_resume(DoResume), Err(MessageError::StateIsNotActive(DoResume)));
    assert_eq!(observe(&machine), (None, None));
}

#[test]
fn start_installs_the_work_interval() {
    let mut machine = PomoStateMachine::new();
    machine.start(Running::new(TIME_RUNNING_SECS));
    assert_eq!(observe(&machine), (Some(StateKind::Running), Some(25)));
    assert!(!machine.pause_requested());
    assert_eq!(machine.intervals(), Intervals::standard());
}

#[test]
fn full_cycle_of_work_and_rest() {
    let mut machine = started(3, 2, 1, 3);
    assert_eq!(observe(&machine), (Some(StateKind::Running), Some(3)));
    assert!(machine.step().is_ok());
    assert_eq!(observe(&machine), (Some(StateKind::Running), Some(2)));
    assert!(machine.step().is_ok());
    assert_eq!(observe(&machine), (Some(StateKind::Running), Some(1)));
    assert!(machine.step().is_ok());
    assert_eq!(observe(&machine), (Some(StateKind::InBetween), Some(2)));
    assert!(machine.step().is_ok());
    assert_eq!(observe(&machine), (Some(StateKind::InBetween), Some(1)));
    assert!(machine.step().is_ok());
    assert_eq!(observe(&machine), (Some(StateKind::Running), Some(3)));
    assert!(!machine.pause_requested());
}

#[test]
fn pause_and_resume_keep_the_time_left() {
    let mut machine = started(3, 2, 1, 2);
    assert_eq!(machine.deliver_pause(DoPause), Ok(()));
    assert!(machine.pause_requested());
    assert_eq!(observe(&machine), (Some(StateKind::Running), Some(2)));
    assert_eq!(
        machine.step(),
        Ok(StepReport { progress: None, entered: Some(StateKind::Paused) })
    );
    assert_eq!(observe(&machine), (Some(StateKind::Paused), Some(2)));
    assert!(!machine.resume_requested());
    for _ in 0..7 {
        assert_eq!(machine.step(), Ok(StepReport { progress: None, entered: None }));
        assert_eq!(observe(&machine), (Some(StateKind::Paused), Some(2)));
    }
    assert_eq!(machine.deliver_resume(DoResume), Ok(()));
    assert!(machine.resume_requested());
    assert_eq!(observe(&machine), (Some(StateKind::Paused), Some(2)));
    assert_eq!(
        machine.step(),
        Ok(StepReport { progress: None, entered: Some(StateKind::Running) })
    );
    assert_eq!(observe(&machine), (Some(StateKind::Running), Some(2)));
    assert!(!machine.pause_requested());
    assert_eq!(machine.step(), Ok(StepReport { progress: Some(1), entered: None }));
}

#[test]
fn time_left_stops_at_zero() {
    let mut machine = started(10, 7, 4, 10);
    assert_eq!(machine.step(), Ok(StepReport { progress: Some(6), entered: None }));
    assert_eq!(machine.step(), Ok(StepReport { progress: Some(2), entered: None }));
    assert_eq!(
        machine.step(),
        Ok(StepReport { progress: Some(0), entered: Some(StateKind::InBetween) })
    );
    assert_eq!(observe(&machine), (Some(StateKind::InBetween), Some(7)));
    assert_eq!(machine.step(), Ok(StepReport { progress: Some(3), entered: None }));
    assert_eq!(
        machine.step(),
        Ok(StepReport { progress: Some(0), entered: Some(StateKind::Running) })
    );
    assert_eq!(observe(&machine), (Some(StateKind::Running), Some(10)));
}

#[test]
fn exactly_one_state_after_any_mix_of_calls() {
    let mut machine = started(2, 1, 1, 2);
    for round in 0..40u32 {
        if round % 3 == 0 {
            let _ = machine.deliver_pause(DoPause);
        }
        if round % 5 == 0 {
            let _ = machine.deliver_resume(DoResume);
        }
        assert!(machine.step().is_ok());
        let kind = machine.kind();
        assert!(kind.is_some());
        let hits = [StateKind::Running, StateKind::InBetween, StateKind::Paused]
            .iter()
            .filter(|k| Some(**k) == kind)
            .count();
        assert_eq!(hits, 1);
        assert!(machine.remaining().is_some());
    }
}

#[test]
fn work_ends_after_the_rounded_up_number_of_ticks() {
    // 7 units in ticks of 3: two ticks leave time over, the third ends it.
    let mut machine = started(7, 5, 3, 7);
    assert!(machine.step().is_ok());
    assert_eq!(observe(&machine), (Some(StateKind::Running), Some(4)));
    assert!(machine.step().is_ok());
    assert_eq!(observe(&machine), (Some(StateKind::Running), Some(1)));
    assert!(machine.step().is_ok());
    assert_eq!(observe(&machine), (Some(StateKind::InBetween), Some(5)));
}

#[test]
fn standard_work_interval_takes_twenty_five_ticks() {
    let mut machine = PomoStateMachine::new();
    machine.start(Running::new(TIME_RUNNING_SECS));
    for tick in 1..25u32 {
        assert_eq!(machine.step(), Ok(StepReport { progress: Some(25 - tick), entered: None }));
        assert_eq!(machine.kind(), Some(StateKind::Running));
    }
    assert_eq!(
        machine.step(),
        Ok(StepReport { progress: Some(0), entered: Some(StateKind::InBetween) })
    );
    assert_eq!(observe(&machine), (Some(StateKind::InBetween), Some(10)));
    for _ in 1..10u32 {
        assert!(machine.step().is_ok());
        assert_eq!(machine.kind(), Some(StateKind::InBetween));
    }
    assert!(machine.step().is_ok());
    assert_eq!(observe(&machine), (Some(StateKind::Running), Some(25)));
}

#[test]
fn empty_work_interval_ends_on_the_first_tick() {
    let mut machine = started(3, 2, 1, 0);
    assert_eq!(
        machine.step(),
        Ok(StepReport { progress: Some(0), entered: Some(StateKind::InBetween) })
    );
    assert_eq!(observe(&machine), (Some(StateKind::InBetween), Some(2)));
}

#[test]
fn resume_while_running_is_discarded() {
    let mut machine = started(3, 2, 1, 3);
    assert_eq!(machine.deliver_resume(DoResume), Err(MessageError::StateIsNotActive(DoResume)));
    assert_eq!(observe(&machine), (Some(StateKind::Running), Some(3)));
    assert!(!machine.pause_requested());
    assert!(!machine.resume_requested());
    assert_eq!(machine.step(), Ok(StepReport { progress: Some(2), entered: None }));
}

#[test]
fn requests_during_rest_are_lost() {
    let mut machine = started(3, 2, 1, 1);
    assert!(machine.step().is_ok());
    assert_eq!(observe(&machine), (Some(StateKind::InBetween), Some(2)));
    assert_eq!(machine.deliver_pause(DoPause), Err(MessageError::StateIsNotActive(DoPause)));
    assert_eq!(machine.deliver_resume(DoResume), Err(MessageError::StateIsNotActive(DoResume)));
    assert_eq!(observe(&machine), (Some(StateKind::InBetween), Some(2)));
    assert_eq!(machine.step(), Ok(StepReport { progress: Some(1), entered: None }));
    assert!(machine.step().is_ok());
    // Back at work, and the press during the rest left no trace.
    assert_eq!(observe(&machine), (Some(StateKind::Running), Some(3)));
    assert!(!machine.pause_requested());
    assert_eq!(machine.step(), Ok(StepReport { progress: Some(2), entered: None }));
}

#[test]
fn pause_while_paused_is_discarded() {
    let mut machine = started(3, 2, 1, 3);
    assert_eq!(machine.deliver_pause(DoPause), Ok(()));
    assert!(machine.step().is_ok());
    assert_eq!(machine.kind(), Some(StateKind::Paused));
    assert_eq!(machine.deliver_pause(DoPause), Err(MessageError::StateIsNotActive(DoPause)));
    assert_eq!(observe(&machine), (Some(StateKind::Paused), Some(3)));
    assert!(!machine.resume_requested());
}

#[test]
fn time_that_ran_out_comes_before_a_pending_pause() {
    let mut machine = started(3, 2, 1, 0);
    assert_eq!(machine.deliver_pause(DoPause), Ok(()));
    assert_eq!(
        machine.step(),
        Ok(StepReport { progress: None, entered: Some(StateKind::InBetween) })
    );
    assert_eq!(observe(&machine), (Some(StateKind::InBetween), Some(2)));
}

#[test]
fn pause_request_stops_the_countdown_in_the_same_step() {
    let mut machine = started(3, 2, 1, 1);
    assert_eq!(machine.deliver_pause(DoPause), Ok(()));
    assert!(machine.step().is_ok());
    // The tick took nothing off: the pause holds the one unit that was left.
    assert_eq!(observe(&machine), (Some(StateKind::Paused), Some(1)));
}

#[test]
fn both_requests_in_a_row_toggle_at_most_one_flag() {
    let mut machine = started(3, 2, 1, 3);
    let _ = machine.deliver_pause(DoPause);
    let _ = machine.deliver_resume(DoResume);
    assert!(machine.pause_requested());
    assert!(!machine.resume_requested());
    assert!(machine.step().is_ok());
    assert_eq!(machine.kind(), Some(StateKind::Paused));
    let _ = machine.deliver_pause(DoPause);
    let _ = machine.deliver_resume(DoResume);
    assert!(machine.resume_requested());
    assert!(machine.step().is_ok());
    assert_eq!(observe(&machine), (Some(StateKind::Running), Some(3)));
}

#[test]
fn zero_tick_never_counts_down() {
    let mut machine = started(3, 2, 0, 3);
    for _ in 0..5 {
        assert_eq!(machine.step(), Ok(StepReport { progress: Some(3), entered: None }));
    }
    assert_eq!(observe(&machine), (Some(StateKind::Running), Some(3)));
}

#[test]
fn start_again_replaces_the_state() {
    let mut machine = started(3, 2, 1, 3);
    assert_eq!(machine.deliver_pause(DoPause), Ok(()));
    assert!(machine.step().is_ok());
    assert_eq!(machine.kind(), Some(StateKind::Paused));
    machine.start(Running::new(9));
    assert_eq!(observe(&machine), (Some(StateKind::Running), Some(9)));
    assert_eq!(machine.intervals(), Intervals::new(3, 2, 1));
}
