//! The mathematical model of the timer: what a machine is at any moment, and
//! what a step or a delivered request makes of it.

use crate::config::Intervals;
use vstd::prelude::*;

verus! {

/// Names of the three states a started machine can be in.
#[derive(Clone, Copy, Debug, PartialEq, Eq, Structural)]
pub enum StateKind {
    Running,
    InBetween,
    Paused,
}

/// What a machine is at one moment. `Idle` is a machine that was made but not
/// started; a started machine is in exactly one of the other three.
pub enum Phase {
    Idle,
    Running { remaining: int, pause_requested: bool },
    InBetween { remaining: int },
    Paused { remaining: int, resume_requested: bool },
}

/// One thing that can happen to a machine.
pub enum Event {
    /// The driver steps the machine.
    Tick,
    /// A pause request is delivered.
    Pause,
    /// A resume request is delivered.
    Resume,
}

/// `remaining - tick`, but never below zero.
pub open spec fn saturating_less(remaining: int, tick: int) -> int {
    if remaining - tick < 0 {
        0
    } else {
        remaining - tick
    }
}

/// The number of ticks of length `tick` that cover `remaining`: the quotient,
/// rounded up.
pub open spec fn ticks_to_cover(remaining: int, tick: int) -> int
    recommends
        tick > 0,
{
    (remaining + tick - 1) / tick
}

impl Phase {
    /// The machine has been started.
    pub open spec fn started(self) -> bool {
        !(self is Idle)
    }

    /// Time left in the active state; zero for a machine that is not started.
    pub open spec fn remaining(self) -> int {
        match self {
            Phase::Idle => 0,
            Phase::Running { remaining, .. } => remaining,
            Phase::InBetween { remaining } => remaining,
            Phase::Paused { remaining, .. } => remaining,
        }
    }

    /// A pause request is pending. Only a running machine can hold one.
    pub open spec fn pause_requested(self) -> bool {
        self matches Phase::Running { pause_requested, .. } && pause_requested
    }

    /// A resume request is pending. Only a paused machine can hold one.
    pub open spec fn resume_requested(self) -> bool {
        self matches Phase::Paused { resume_requested, .. } && resume_requested
    }

    /// The name of the active state, if there is one.
    pub open spec fn kind(self) -> Option<StateKind> {
        match self {
            Phase::Idle => None,
            Phase::Running { .. } => Some(StateKind::Running),
            Phase::InBetween { .. } => Some(StateKind::InBetween),
            Phase::Paused { .. } => Some(StateKind::Paused),
        }
    }

    /// How many of the three states are active.
    pub open spec fn active_states(self) -> int {
        (if self is Running { 1int } else { 0int })
            + (if self is InBetween { 1int } else { 0int })
            + (if self is Paused { 1int } else { 0int })
    }

    /// The time left is not negative and fits the machine's counter.
    pub open spec fn valid(self) -> bool {
        0 <= self.remaining() <= u32::MAX
    }

    /// The phase after the active state has done its work for one tick. A
    /// running machine counts down unless a pause is pending, a resting one
    /// always counts down, a paused one stands still.
    pub open spec fn executed(self, cfg: Intervals) -> Phase {
        match self {
            Phase::Running { remaining, pause_requested } => if pause_requested {
                self
            } else {
                Phase::Running {
                    remaining: saturating_less(remaining, cfg.tick as int),
                    pause_requested,
                }
            },
            Phase::InBetween { remaining } => Phase::InBetween {
                remaining: saturating_less(remaining, cfg.tick as int),
            },
            _ => self,
        }
    }

    /// Whether a tick makes the active state report the time left.
    pub open spec fn reports_progress(self) -> bool {
        match self {
            Phase::Running { pause_requested, .. } => !pause_requested,
            Phase::InBetween { .. } => true,
            _ => false,
        }
    }

    /// The phase after the guards of the active state have been tried in
    /// their fixed order. For a running machine, time that has run out comes
    /// before a pending pause.
    pub open spec fn transited(self, cfg: Intervals) -> Phase {
        match self {
            Phase::Idle => self,
            Phase::Running { remaining, pause_requested } => if remaining == 0 {
                Phase::InBetween { remaining: cfg.rest as int }
            } else if pause_requested {
                Phase::Paused { remaining, resume_requested: false }
            } else {
                self
            },
            Phase::InBetween { remaining } => if remaining == 0 {
                Phase::Running { remaining: cfg.work as int, pause_requested: false }
            } else {
                self
            },
            Phase::Paused { remaining, resume_requested } => if resume_requested {
                Phase::Running { remaining, pause_requested: false }
            } else {
                self
            },
        }
    }

    /// The phase after one step: the state's work, and after it the guards.
    pub open spec fn stepped(self, cfg: Intervals) -> Phase {
        self.executed(cfg).transited(cfg)
    }

    /// The phase after a pause request was delivered: a running machine
    /// remembers it, any other discards it.
    pub open spec fn pause_delivered(self) -> Phase {
        match self {
            Phase::Running { remaining, .. } => Phase::Running { remaining, pause_requested: true },
            _ => self,
        }
    }

    /// The phase after a resume request was delivered: a paused machine
    /// remembers it, any other discards it.
    pub open spec fn resume_delivered(self) -> Phase {
        match self {
            Phase::Paused { remaining, .. } => Phase::Paused { remaining, resume_requested: true },
            _ => self,
        }
    }

    /// The phase after one press of the button, which sends a pause request
    /// and a resume request one after the other.
    pub open spec fn pressed(self) -> Phase {
        self.pause_delivered().resume_delivered()
    }

    /// The phase after one event.
    pub open spec fn applied(self, cfg: Intervals, event: Event) -> Phase {
        match event {
            Event::Tick => self.stepped(cfg),
            Event::Pause => self.pause_delivered(),
            Event::Resume => self.resume_delivered(),
        }
    }

    /// The phase after a sequence of events, first to last.
    pub open spec fn run(self, cfg: Intervals, events: Seq<Event>) -> Phase
        decreases events.len(),
    {
        if events.len() == 0 {
            self
        } else {
            self.run(cfg, events.drop_last()).applied(cfg, events.last())
        }
    }

    /// The phase after `n` steps with nothing delivered in between.
    pub open spec fn ticked(self, cfg: Intervals, n: nat) -> Phase
        decreases n,
    {
        if n == 0 {
            self
        } else {
            self.ticked(cfg, (n - 1) as nat).stepped(cfg)
        }
    }
}

} // verus!
