//! The metronome that corrects for the lateness of each tick.

use super::Metronome;
use vstd::prelude::*;

verus! {

/// A drift-correcting metronome: a tick that comes late by no more than one
/// period keeps its phase, one that comes later still starts a fresh
/// period from the instant at which it was observed.
pub struct DeltaMetronome {
    pub period_millis: i64,
    pub time_millis_next_tick: i64,
}

/// The deadline a drift-correcting tick at `now` leaves behind: the time that
/// remains of the period after the overshoot, or a whole period where the
/// overshoot has used up more than one.
pub open spec fn delta_rescheduled(period: int, deadline: int, now: int) -> int {
    let overshoot = now - deadline;
    let remaining = period - overshoot;
    if remaining < 0 {
        now + period
    } else {
        now + remaining
    }
}

/// The deadline after feeding the instants of `nows`, in order, to a
/// drift-correcting metronome that starts with `deadline`.
pub open spec fn delta_deadline_after(period: int, deadline: int, nows: Seq<int>) -> int
    decreases nows.len(),
{
    if nows.len() == 0 {
        deadline
    } else {
        let before = delta_deadline_after(period, deadline, nows.drop_last());
        if nows.last() >= before {
            delta_rescheduled(period, before, nows.last())
        } else {
            before
        }
    }
}

impl Metronome for DeltaMetronome {
    open spec fn period(&self) -> int {
        self.period_millis as int
    }

    open spec fn deadline(&self) -> int {
        self.time_millis_next_tick as int
    }

    open spec fn rescheduled(period: int, deadline: int, now: int) -> int {
        delta_rescheduled(period, deadline, now)
    }

    fn reset(&mut self, current_time_millis: i64) {
        self.time_millis_next_tick = current_time_millis + self.period_millis;
    }

    fn set_period_millis(&mut self, period_millis: i64) {
        self.period_millis = period_millis;
    }

    fn set_time_millis_next_tick(&mut self, time_millis_next_tick: i64) {
        self.time_millis_next_tick = time_millis_next_tick;
    }

    fn tick(&mut self, current_time_millis: i64) -> (fired: bool) {
        if current_time_millis < self.time_millis_next_tick {
            return false;
        }
        let overshoot_millis: i128 = current_time_millis as i128
            - self.time_millis_next_tick as i128;
        let remaining_millis: i128 = self.period_millis as i128 - overshoot_millis;
        let delta_millis: i128 = if remaining_millis < 0 {
            self.period_millis as i128
        } else {
            remaining_millis
        };
        self.time_millis_next_tick = (current_time_millis as i128 + delta_millis) as i64;
        true
    }
}

/// A tick that is late by no more than one period lands the next deadline
/// exactly one period after the previous one, wherever in that span the tick
/// was observed.
pub proof fn delta_tick_keeps_phase(period: int, deadline: int, now: int)
    requires
        0 <= now - deadline <= period,
    ensures
        delta_rescheduled(period, deadline, now) == deadline + period,
{
}

/// A tick that is late by more than one period starts a fresh period at the
/// instant it was observed: one tick, no burst to catch up. A tick late by
/// exactly one period is left out unless the period is zero: it keeps the
/// phase instead, so its new deadline is the instant itself.
pub proof fn delta_tick_resets_phase(period: int, deadline: int, now: int)
    requires
        now - deadline >= period,
        now - deadline == period ==> period == 0,
    ensures
        delta_rescheduled(period, deadline, now) == now + period,
{
}

/// With a positive period, a tick that fires leaves a deadline that is not
/// before the instant that triggered it, and strictly after it unless the
/// tick was late by exactly one period.
pub proof fn delta_tick_advances(period: int, deadline: int, now: int)
    requires
        period > 0,
        now >= deadline,
    ensures
        delta_rescheduled(period, deadline, now) >= now,
        now - deadline != period ==> delta_rescheduled(period, deadline, now) > now,
        delta_rescheduled(period, deadline, now) > deadline,
{
}

/// Zero cumulative drift: while every tick is observed less than one period
/// after the deadline it answers, each deadline is the previous one plus the
/// period, so after `nows.len()` ticks the deadline is the first one plus that
/// many periods, regardless of where in its span each tick fell.
pub proof fn delta_ticks_do_not_drift(period: int, deadline: int, nows: Seq<int>)
    requires
        forall|i: int|
            0 <= i < nows.len() ==> 0 <= #[trigger] nows[i] - (deadline + i * period) < period,
    ensures
        delta_deadline_after(period, deadline, nows) == deadline + nows.len() * period,
    decreases nows.len(),
{
    if nows.len() > 0 {
        let earlier = nows.drop_last();
        assert forall|i: int| 0 <= i < earlier.len() implies 0 <= #[trigger] earlier[i] - (deadline
            + i * period) < period by {
            assert(earlier[i] == nows[i]);
        }
        delta_ticks_do_not_drift(period, deadline, earlier);
        let n = earlier.len() as int;
        assert(nows.last() == nows[n]);
        assert(0 <= nows[n] - (deadline + n * period) < period);
        assert((n + 1) * period == n * period + period) by (nonlinear_arith);
    }
}

} // verus!
