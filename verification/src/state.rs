//! The states of the timer, the requests a button can send, and the machine
//! that holds exactly one state at a time.

use crate::config::{Intervals, TICK_SECS, TIME_INBETWEEN_SECS, TIME_RUNNING_SECS};
use crate::model::{saturating_less, Phase, StateKind};
use vstd::prelude::*;

verus! {

/// Request to suspend the work interval. Only a running machine takes it.
#[derive(Clone, Copy, Debug, PartialEq, Eq)]
pub struct DoPause;

/// Request to take the work interval up again. Only a paused machine takes it.
#[derive(Clone, Copy, Debug, PartialEq, Eq)]
pub struct DoResume;

/// Answer of a guard: leave the state, or stay in it.
#[derive(Clone, Copy, Debug, PartialEq, Eq, Structural)]
pub enum TransitGuard {
    Remain,
    Transit,
}

/// Turns a flag into a guard's answer through `sfsm::TransitGuard::from`.
/// Not proved: that sfsm answers `Transit` for `true` and `Remain` for
/// `false`, which is what its `From<bool>` impl reads.
#[verifier::external_body]
fn guard_from_flag(flag: bool) -> (guard: TransitGuard)
    ensures
        guard == (if flag {
            TransitGuard::Transit
        } else {
            TransitGuard::Remain
        }),
{
    match sfsm::TransitGuard::from(flag) {
        sfsm::TransitGuard::Transit => TransitGuard::Transit,
        sfsm::TransitGuard::Remain => TransitGuard::Remain,
    }
}

/// The work interval, counting down.
pub struct Running {
    remaining: u32,
    do_pause: bool,
}

/// The rest interval between two work intervals. It cannot be paused.
pub struct InBetween {
    remaining: u32,
}

/// A suspended work interval. The time left stands still.
pub struct Paused {
    remaining: u32,
    do_resume: bool,
}

impl View for Running {
    type V = Phase;

    closed spec fn view(&self) -> Phase {
        Phase::Running { remaining: self.remaining as int, pause_requested: self.do_pause }
    }
}

impl View for InBetween {
    type V = Phase;

    closed spec fn view(&self) -> Phase {
        Phase::InBetween { remaining: self.remaining as int }
    }
}

impl View for Paused {
    type V = Phase;

    closed spec fn view(&self) -> Phase {
        Phase::Paused { remaining: self.remaining as int, resume_requested: self.do_resume }
    }
}

impl Running {
    /// A work interval with `remaining` left and no pause pending.
    pub fn new(remaining: u32) -> (running: Running)
        ensures
            running@ == (Phase::Running { remaining: remaining as int, pause_requested: false }),
    {
        Running { remaining, do_pause: false }
    }

    /// Time left in this work interval.
    pub fn remaining(&self) -> (left: u32)
        ensures
            left == self@.remaining(),
            self@ is Running,
    {
        self.remaining
    }

    /// Whether a pause request is pending.
    pub fn pause_requested(&self) -> (pending: bool)
        ensures
            pending == self@.pause_requested(),
    {
        self.do_pause
    }

    /// Takes a pause request: it stays pending until the next step.
    pub fn receive_message(&mut self, _message: DoPause)
        ensures
            final(self)@ == old(self)@.pause_delivered(),
            final(self)@ == (Phase::Running {
                remaining: old(self)@.remaining(),
                pause_requested: true,
            }),
    {
        self.do_pause = true;
    }

    /// One tick of work: takes `tick` off the time left, stopping at zero,
    /// unless a pause is pending. Returns the time now left where it counted
    /// down, for the driver to report.
    pub fn execute(&mut self, tick: u32) -> (progress: Option<u32>)
        ensures
            final(self)@ == (Phase::Running {
                remaining: if old(self)@.pause_requested() {
                    old(self)@.remaining()
                } else {
                    saturating_less(old(self)@.remaining(), tick as int)
                },
                pause_requested: old(self)@.pause_requested(),
            }),
            progress == (if old(self)@.pause_requested() {
                None
            } else {
                Some(saturating_less(old(self)@.remaining(), tick as int) as u32)
            }),
    {
        if !self.do_pause {
            self.remaining = self.remaining.saturating_sub(tick);
            Some(self.remaining)
        } else {
            None
        }
    }

    /// Guard of the way to the rest interval: open once the time has run out.
    pub fn guard_in_between(&self) -> (guard: TransitGuard)
        ensures
            guard == (if self@.remaining() == 0 {
                TransitGuard::Transit
            } else {
                TransitGuard::Remain
            }),
    {
        match self.remaining {
            0 => TransitGuard::Transit,
            _ => TransitGuard::Remain,
        }
    }

    /// Guard of the way to the pause: open while a pause request is pending.
    pub fn guard_paused(&self) -> (guard: TransitGuard)
        ensures
            guard == (if self@.pause_requested() {
                TransitGuard::Transit
            } else {
                TransitGuard::Remain
            }),
    {
        guard_from_flag(self.do_pause)
    }

    /// Ends the work interval: a rest interval of `rest` begins.
    pub fn into_in_between(self, rest: u32) -> (next: InBetween)
        ensures
            next@ == (Phase::InBetween { remaining: rest as int }),
    {
        InBetween { remaining: rest }
    }

    /// Suspends the work interval: the pause keeps the time left, and no
    /// resume is pending.
    pub fn into_paused(self) -> (next: Paused)
        ensures
            next@ == (Phase::Paused { remaining: self@.remaining(), resume_requested: false }),
    {
        Paused { remaining: self.remaining, do_resume: false }
    }
}

impl InBetween {
    /// Time left in this rest interval.
    pub fn remaining(&self) -> (left: u32)
        ensures
            left == self@.remaining(),
            self@ is InBetween,
    {
        self.remaining
    }

    /// One tick of rest: takes `tick` off the time left, stopping at zero.
    /// Returns the time now left, for the driver to report.
    pub fn execute(&mut self, tick: u32) -> (progress: Option<u32>)
        ensures
            final(self)@ == (Phase::InBetween {
                remaining: saturating_less(old(self)@.remaining(), tick as int),
            }),
            progress == Some(saturating_less(old(self)@.remaining(), tick as int) as u32),
    {
        self.remaining = self.remaining.saturating_sub(tick);
        Some(self.remaining)
    }

    /// Guard of the way back to work: open once the rest has run out.
    pub fn guard_running(&self) -> (guard: TransitGuard)
        ensures
            guard == (if self@.remaining() == 0 {
                TransitGuard::Transit
            } else {
                TransitGuard::Remain
            }),
    {
        match self.remaining {
            0 => TransitGuard::Transit,
            _ => TransitGuard::Remain,
        }
    }

    /// Ends the rest: a fresh work interval of `work` begins, no pause pending.
    pub fn into_running(self, work: u32) -> (next: Running)
        ensures
            next@ == (Phase::Running { remaining: work as int, pause_requested: false }),
    {
        Running { remaining: work, do_pause: false }
    }
}

impl Paused {
    /// Time left in the suspended work interval.
    pub fn remaining(&self) -> (left: u32)
        ensures
            left == self@.remaining(),
            self@ is Paused,
    {
        self.remaining
    }

    /// Whether a resume request is pending.
    pub fn resume_requested(&self) -> (pending: bool)
        ensures
            pending == self@.resume_requested(),
    {
        self.do_resume
    }

    /// Takes a resume request: it stays pending until the next step.
    pub fn receive_message(&mut self, _message: DoResume)
        ensures
            final(self)@ == old(self)@.resume_delivered(),
            final(self)@ == (Phase::Paused {
                remaining: old(self)@.remaining(),
                resume_requested: true,
            }),
    {
        self.do_resume = true;
    }

    /// Guard of the way back to work: open while a resume request is pending.
    pub fn guard_running(&self) -> (guard: TransitGuard)
        ensures
            guard == (if self@.resume_requested() {
                TransitGuard::Transit
            } else {
                TransitGuard::Remain
            }),
    {
        guard_from_flag(self.do_resume)
    }

    /// Takes the work interval up again with the time that was left when it
    /// was suspended, no pause pending.
    pub fn into_running(self) -> (next: Running)
        ensures
            next@ == (Phase::Running { remaining: self@.remaining(), pause_requested: false }),
    {
        Running { remaining: self.remaining, do_pause: false }
    }
}

/// What one step gave the outside world to report.
#[derive(Clone, Copy, Debug, PartialEq, Eq)]
pub struct StepReport {
    /// The time left after this tick, where the active state counted down.
    pub progress: Option<u32>,
    /// The state that was entered, where a guard fired.
    pub entered: Option<StateKind>,
}

/// Why a step could not be made.
#[derive(Clone, Copy, Debug, PartialEq, Eq)]
pub enum StepError {
    /// The machine was stepped before it was started.
    NotStarted,
}

/// Why a request was discarded. The request comes back to the sender.
#[derive(Debug, PartialEq, Eq)]
pub enum MessageError<T> {
    /// The state that takes this kind of request is not the active one.
    StateIsNotActive(T),
}

/// The report of a step made from `before`.
pub open spec fn report_of(before: Phase, cfg: Intervals) -> StepReport {
    StepReport {
        progress: if before.reports_progress() {
            Some(before.executed(cfg).remaining() as u32)
        } else {
            None
        },
        entered: if before.stepped(cfg).kind() != before.kind() {
            before.stepped(cfg).kind()
        } else {
            None
        },
    }
}

/// The state a started machine is in.
enum Active {
    Running(Running),
    InBetween(InBetween),
    Paused(Paused),
}

/// The timer. It is made idle and started with a work interval; from then
/// on it holds exactly one of the three states, which only steps and
/// delivered requests change.
pub struct PomoStateMachine {
    intervals: Intervals,
    active: Option<Active>,
}

impl View for PomoStateMachine {
    type V = Phase;

    closed spec fn view(&self) -> Phase {
        match self.active {
            None => Phase::Idle,
            Some(Active::Running(running)) => running@,
            Some(Active::InBetween(rest)) => rest@,
            Some(Active::Paused(paused)) => paused@,
        }
    }
}

impl PomoStateMachine {
    /// The durations this machine was made with.
    pub closed spec fn cfg(&self) -> Intervals {
        self.intervals
    }

    /// Every machine, whatever was done to it, shows a time left that is not
    /// negative, and once started is in exactly one state.
    pub proof fn lemma_view_valid(&self)
        ensures
            self@.valid(),
            self@.started() <==> self@.active_states() == 1,
            !self@.started() <==> self@.active_states() == 0,
    {
    }

    /// An idle machine with the standard durations.
    pub fn new() -> (machine: PomoStateMachine)
        ensures
            machine@ == Phase::Idle,
            machine.cfg() == (Intervals {
                work: TIME_RUNNING_SECS,
                rest: TIME_INBETWEEN_SECS,
                tick: TICK_SECS,
            }),
    {
        PomoStateMachine { intervals: Intervals::standard(), active: None }
    }

    /// An idle machine with durations of the caller's choice.
    pub fn with_intervals(intervals: Intervals) -> (machine: PomoStateMachine)
        ensures
            machine@ == Phase::Idle,
            machine.cfg() == intervals,
    {
        PomoStateMachine { intervals, active: None }
    }

    /// Installs the initial state. From here on the machine can be stepped.
    pub fn start(&mut self, initial: Running)
        ensures
            final(self)@ == initial@,
            final(self)@ is Running,
            final(self).cfg() == old(self).cfg(),
    {
        self.active = Some(Active::Running(initial));
    }

    /// One tick. The active state does its work, then its guards are tried in
    /// their fixed order and the first that is open moves the machine on.
    /// Fails, and changes nothing, exactly when the machine was not started.
    pub fn step(&mut self) -> (res: Result<StepReport, StepError>)
        ensures
            final(self).cfg() == old(self).cfg(),
            final(self)@ == old(self)@.stepped(old(self).cfg()),
            res == (if old(self)@.started() {
                Ok::<StepReport, StepError>(report_of(old(self)@, old(self).cfg()))
            } else {
                Err::<StepReport, StepError>(StepError::NotStarted)
            }),
    {
        let cfg = self.intervals;
        match self.active.take() {
            None => Err(StepError::NotStarted),
            Some(Active::Running(mut running)) => {
                let progress = running.execute(cfg.tick);
                if running.guard_in_between() == TransitGuard::Transit {
                    self.active = Some(Active::InBetween(running.into_in_between(cfg.rest)));
                    Ok(StepReport { progress, entered: Some(StateKind::InBetween) })
                } else if running.guard_paused() == TransitGuard::Transit {
                    self.active = Some(Active::Paused(running.into_paused()));
                    Ok(StepReport { progress, entered: Some(StateKind::Paused) })
                } else {
                    self.active = Some(Active::Running(running));
                    Ok(StepReport { progress, entered: None })
                }
            },
            Some(Active::InBetween(mut rest)) => {
                let progress = rest.execute(cfg.tick);
                if rest.guard_running() == TransitGuard::Transit {
                    self.active = Some(Active::Running(rest.into_running(cfg.work)));
                    Ok(StepReport { progress, entered: Some(StateKind::Running) })
                } else {
                    self.active = Some(Active::InBetween(rest));
                    Ok(StepReport { progress, entered: None })
                }
            },
            Some(Active::Paused(paused)) => {
                if paused.guard_running() == TransitGuard::Transit {
                    self.active = Some(Active::Running(paused.into_running()));
                    Ok(StepReport { progress: None, entered: Some(StateKind::Running) })
                } else {
                    self.active = Some(Active::Paused(paused));
                    Ok(StepReport { progress: None, entered: None })
                }
            },
        }
    }

    /// Hands a pause request to the machine. A running machine takes it; any
    /// other discards it, stays as it was and gives the request back.
    pub fn deliver_pause(&mut self, message: DoPause) -> (res: Result<(), MessageError<DoPause>>)
        ensures
            final(self).cfg() == old(self).cfg(),
            final(self)@ == old(self)@.pause_delivered(),
            res is Ok <==> old(self)@ is Running,
            res is Err ==> final(self)@ == old(self)@,
            res is Err ==> res == Err::<(), MessageError<DoPause>>(
                MessageError::StateIsNotActive(message),
            ),
    {
        match self.active.take() {
            Some(Active::Running(mut running)) => {
                running.receive_message(message);
                self.active = Some(Active::Running(running));
                Ok(())
            },
            other => {
                self.active = other;
                Err(MessageError::StateIsNotActive(message))
            },
        }
    }

    /// Hands a resume request to the machine. A paused machine takes it; any
    /// other discards it, stays as it was and gives the request back.
    pub fn deliver_resume(&mut self, message: DoResume) -> (res: Result<(), MessageError<DoResume>>)
        ensures
            final(self).cfg() == old(self).cfg(),
            final(self)@ == old(self)@.resume_delivered(),
            res is Ok <==> old(self)@ is Paused,
            res is Err ==> final(self)@ == old(self)@,
            res is Err ==> res == Err::<(), MessageError<DoResume>>(
                MessageError::StateIsNotActive(message),
            ),
    {
        match self.active.take() {
            Some(Active::Paused(mut paused)) => {
                paused.receive_message(message);
                self.active = Some(Active::Paused(paused));
                Ok(())
            },
            other => {
                self.active = other;
                Err(MessageError::StateIsNotActive(message))
            },
        }
    }

    /// The durations this machine was made with.
    pub fn intervals(&self) -> (cfg: Intervals)
        ensures
            cfg == self.cfg(),
    {
        self.intervals
    }

    /// The name of the active state; `None` before the start.
    pub fn kind(&self) -> (kind: Option<StateKind>)
        ensures
            kind == self@.kind(),
    {
        match &self.active {
            None => None,
            Some(Active::Running(_)) => Some(StateKind::Running),
            Some(Active::InBetween(_)) => Some(StateKind::InBetween),
            Some(Active::Paused(_)) => Some(StateKind::Paused),
        }
    }

    /// The time left in the active state; `None` before the start.
    pub fn remaining(&self) -> (left: Option<u32>)
        ensures
            left is Some <==> self@.started(),
            left matches Some(time) ==> time == self@.remaining(),
    {
        match &self.active {
            None => None,
            Some(Active::Running(running)) => Some(running.remaining()),
            Some(Active::InBetween(rest)) => Some(rest.remaining()),
            Some(Active::Paused(paused)) => Some(paused.remaining()),
        }
    }

    /// Whether the machine is running with a pause request pending.
    pub fn pause_requested(&self) -> (pending: bool)
        ensures
            pending == self@.pause_requested(),
    {
        match &self.active {
            Some(Active::Running(running)) => running.pause_requested(),
            _ => false,
        }
    }

    /// Whether the machine is paused with a resume request pending.
    pub fn resume_requested(&self) -> (pending: bool)
        ensures
            pending == self@.resume_requested(),
    {
        match &self.active {
            Some(Active::Paused(paused)) => paused.resume_requested(),
            _ => false,
        }
    }
}

} // verus!
