//! The metronome that starts a fresh full period at every tick.

use super::Metronome;
use vstd::prelude::*;

verus! {

/// A metronome without drift correction: each tick is followed by a full
/// period counted from the instant at which the tick was observed, however
/// late that was.
pub struct SimpleMetronome {
    pub period_millis: i64,
    pub time_millis_next_tick: i64,
}

/// The deadline a simple tick at `now` leaves behind.
pub open spec fn simple_rescheduled(period: int, now: int) -> int {
    now + period
}

impl Metronome for SimpleMetronome {
    open spec fn period(&self) -> int {
        self.period_millis as int
    }

    open spec fn deadline(&self) -> int {
        self.time_millis_next_tick as int
    }

    open spec fn rescheduled(period: int, deadline: int, now: int) -> int {
        simple_rescheduled(period, now)
    }

    fn reset(&mut self, current_time_millis: i64) {
        self.time_millis_next_tick = current_time_millis + self.period_millis;
    }

    fn set_period_millis(&mut self, period_millis: i64) {
        self.period_millis = period_millis;
    }

    fn set_time_millis_next_tick(&mut self, time_millis_next_tick: i64) {
        self.time_millis_next_tick = time_millis_next_tick;
    }

    fn tick(&mut self, current_time_millis: i64) -> (fired: bool) {
        if current_time_millis < self.time_millis_next_tick {
            return false;
        }
        self.time_millis_next_tick = current_time_millis + self.period_millis;
        true
    }
}

/// A simple tick fired at `now` always leaves the deadline at `now + period`
/// exactly, whatever the deadline it answered was.
pub proof fn simple_tick_starts_full_period(period: int, deadline: int, now: int)
    ensures
        SimpleMetronome::rescheduled(period, deadline, now) == now + period,
{
}

} // verus!
