//! An interval ("pomodoro") timer engine: a work interval that counts down,
//! a rest interval in between, and a pause that freezes the work interval.
//!
//! The engine is a small state machine. A periodic driver calls
//! [`PomoStateMachine::step`] once per tick; a button handler delivers
//! [`DoPause`] and [`DoResume`] requests, of which the machine takes the one
//! that fits its active state and discards the other.
//!
//! - [`config`]: the durations of a timer.
//! - [`model`]: the timer as mathematics, in which all contracts are stated.
//! - [`state`]: the three states, the requests and the machine.
//! - [`driver`]: what the tick task and the button handler do with the machine.
//! - [`laws`]: what is proved of every timer.

pub mod config;
pub mod driver;
pub mod laws;
pub mod model;
pub mod state;

pub use driver::TickAction;
pub use config::{Intervals, TICK_SECS, TIME_INBETWEEN_SECS, TIME_RUNNING_SECS};
pub use model::{Event, Phase, StateKind};
pub use state::{
    DoPause, DoResume, InBetween, MessageError, Paused, PomoStateMachine, Running, StepError,
    StepReport, TransitGuard,
};
