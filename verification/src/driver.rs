//! What the two contexts around the machine decide: the start-up, one round
//! of the periodic tick task, and one press of the button. The contexts
//! themselves, with their clock, pin and lock, belong to the firmware; it
//! calls these with the machine locked and acts on what they return.

use crate::config::{Intervals, TICK_SECS, TIME_INBETWEEN_SECS, TIME_RUNNING_SECS};
use crate::model::Phase;
use crate::state::{report_of, DoPause, DoResume, PomoStateMachine, Running, StepError, StepReport};
use vstd::prelude::*;

verus! {

/// What the tick task does after a step.
#[derive(Clone, Copy, Debug, PartialEq, Eq)]
pub struct TickAction {
    /// What to log about the step.
    pub report: StepReport,
    /// How long to sleep before the next step, in the machine's time unit.
    pub sleep: u32,
}

/// The machine as the firmware starts it: standard durations, running, with
/// the full work interval ahead and no pause pending.
pub fn init() -> (machine: PomoStateMachine)
    ensures
        machine@ == (Phase::Running {
            remaining: TIME_RUNNING_SECS as int,
            pause_requested: false,
        }),
        machine.cfg() == (Intervals {
            work: TIME_RUNNING_SECS,
            rest: TIME_INBETWEEN_SECS,
            tick: TICK_SECS,
        }),
{
    let mut machine = PomoStateMachine::new();
    machine.start(Running::new(TIME_RUNNING_SECS));
    machine
}

/// One round of the tick task: steps the machine and says what to log and
/// how long to sleep. The sleep is the machine's own tick, the same length
/// that the step took off the time left. Fails exactly when the machine was
/// not started; the task treats that as fatal.
pub fn on_tick(machine: &mut PomoStateMachine) -> (res: Result<TickAction, StepError>)
    ensures
        final(machine).cfg() == old(machine).cfg(),
        final(machine)@ == old(machine)@.stepped(old(machine).cfg()),
        res == (if old(machine)@.started() {
            Ok::<TickAction, StepError>(
                TickAction {
                    report: report_of(old(machine)@, old(machine).cfg()),
                    sleep: old(machine).cfg().tick,
                },
            )
        } else {
            Err::<TickAction, StepError>(StepError::NotStarted)
        }),
{
    let sleep = machine.intervals().tick;
    match machine.step() {
        Ok(report) => Ok(TickAction { report, sleep }),
        Err(error) => Err(error),
    }
}

/// One press of the button: offers the machine a pause request and, after
/// it, a resume request, and looks at neither answer. A running machine
/// takes the first, a paused one the second, and a press at any other time
/// is lost.
pub fn on_button(machine: &mut PomoStateMachine)
    ensures
        final(machine).cfg() == old(machine).cfg(),
        final(machine)@ == old(machine)@.pressed(),
{
    let _ = machine.deliver_pause(DoPause);
    let _ = machine.deliver_resume(DoResume);
}

} // verus!
