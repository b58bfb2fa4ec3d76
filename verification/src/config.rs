//! The three durations that shape a timer, and their standard values.

use vstd::prelude::*;

verus! {

/// Length of the work interval, in seconds.
pub const TIME_RUNNING_SECS: u32 = 25;

/// Length of the rest interval, in seconds.
pub const TIME_INBETWEEN_SECS: u32 = 10;

/// Seconds that pass between two steps of the machine. The driver sleeps for
/// this long, and a step takes this much off the time that remains.
pub const TICK_SECS: u32 = 1;

/// The durations of one timer, all in the same unit. A machine fixes them
/// when it is made and never changes them.
#[derive(Clone, Copy, Debug, PartialEq, Eq)]
pub struct Intervals {
    /// Time that a work interval starts with.
    pub work: u32,
    /// Time that a rest interval starts with.
    pub rest: u32,
    /// Time that one step takes off.
    pub tick: u32,
}

impl Intervals {
    /// The standard timer: 25 seconds of work, 10 of rest, one-second ticks.
    pub fn standard() -> (cfg: Intervals)
        ensures
            cfg == (Intervals {
                work: TIME_RUNNING_SECS,
                rest: TIME_INBETWEEN_SECS,
                tick: TICK_SECS,
            }),
    {
        Intervals { work: TIME_RUNNING_SECS, rest: TIME_INBETWEEN_SECS, tick: TICK_SECS }
    }

    /// A timer with the given durations.
    pub fn new(work: u32, rest: u32, tick: u32) -> (cfg: Intervals)
        ensures
            cfg == (Intervals { work, rest, tick }),
    {
        Intervals { work, rest, tick }
    }
}

} // verus!
