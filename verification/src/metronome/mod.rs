//! Periodic tick scheduling: one contract, two rescheduling policies.

use vstd::prelude::*;

pub mod delta;
pub mod simple;

verus! {

/// Whether an instant, in milliseconds, fits the `i64` that holds it.
pub open spec fn representable(millis: int) -> bool {
    i64::MIN <= millis <= i64::MAX
}

/// A scheduler that decides, from the current time alone, whether the period
/// it was configured with has elapsed, and then plans the next deadline.
pub trait Metronome {
    /// The configured interval between ticks.
    spec fn period(&self) -> int;

    /// The instant at or after which the next tick fires.
    spec fn deadline(&self) -> int;

    /// The policy: the deadline that a tick fired at `now` leaves behind.
    spec fn rescheduled(period: int, deadline: int, now: int) -> int;

    /// Plans the next tick one full period after `current_time_millis`.
    fn reset(&mut self, current_time_millis: i64)
        requires
            representable(current_time_millis + old(self).period()),
        ensures
            final(self).period() == old(self).period(),
            final(self).deadline() == current_time_millis + old(self).period(),
    ;

    /// Changes the period; the pending deadline stays where it is.
    fn set_period_millis(&mut self, period_millis: i64)
        ensures
            final(self).period() == period_millis,
            final(self).deadline() == old(self).deadline(),
    ;

    /// Moves the pending deadline; the period stays as it is.
    fn set_time_millis_next_tick(&mut self, time_millis_next_tick: i64)
        ensures
            final(self).period() == old(self).period(),
            final(self).deadline() == time_millis_next_tick,
    ;

    /// Fires exactly when `current_time_millis` has reached the deadline, and
    /// then replaces the deadline by the one the policy gives. Before the
    /// deadline nothing changes.
    fn tick(&mut self, current_time_millis: i64) -> (fired: bool)
        requires
            current_time_millis >= old(self).deadline() ==> representable(
                Self::rescheduled(
                    old(self).period(),
                    old(self).deadline(),
                    current_time_millis as int,
                ),
            ),
        ensures
            fired == (current_time_millis >= old(self).deadline()),
            final(self).period() == old(self).period(),
            final(self).deadline() == if fired {
                Self::rescheduled(
                    old(self).period(),
                    old(self).deadline(),
                    current_time_millis as int,
                )
            } else {
                old(self).deadline()
            },
    ;
}

} // verus!
