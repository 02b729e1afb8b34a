//! The controller that drives a frame rater from live control signals.

use super::cleared;
use super::retargeted;
use super::sampled;
use super::valid;
use super::zero_rate;
use super::FrameRater;
use super::RaterModel;
use vstd::prelude::*;

verus! {

/// The control signals of one cycle.
#[derive(Clone, Copy, Debug)]
pub struct ControlSnapshot {
    /// The display of the rate is to be switched on or off.
    pub frame_rate_display_change_requested: Option<bool>,
    /// Measuring is to start afresh.
    pub reset_requested: bool,
    /// An update happened this cycle and is to be sampled.
    pub time_to_update: bool,
    /// The expected period between updates changed to this many milliseconds.
    pub update_period_millis_changed: Option<i64>,
    /// The instant of this cycle.
    pub update_time_millis: i64,
}

/// The source of the control signals, read anew in every cycle. Nothing is
/// promised of what an implementation answers.
pub trait FrameRaterUpdaterInputs {
    fn get_frame_rate_display_change_requested(&self) -> Option<bool>;

    fn get_reset_requested(&self) -> bool;

    fn get_time_to_update(&self) -> bool;

    fn get_update_period_millis_changed(&self) -> Option<i64>;

    fn get_update_time_millis(&self) -> i64;
}

impl FrameRaterUpdaterInputs for ControlSnapshot {
    fn get_frame_rate_display_change_requested(&self) -> (requested: Option<bool>)
        ensures
            requested == self.frame_rate_display_change_requested,
    {
        self.frame_rate_display_change_requested
    }

    fn get_reset_requested(&self) -> (requested: bool)
        ensures
            requested == self.reset_requested,
    {
        self.reset_requested
    }

    fn get_time_to_update(&self) -> (due: bool)
        ensures
            due == self.time_to_update,
    {
        self.time_to_update
    }

    fn get_update_period_millis_changed(&self) -> (changed: Option<i64>)
        ensures
            changed == self.update_period_millis_changed,
    {
        self.update_period_millis_changed
    }

    fn get_update_time_millis(&self) -> (millis: i64)
        ensures
            millis == self.update_time_millis,
    {
        self.update_time_millis
    }
}

/// Whether the rate is on display after a cycle with the signals `s`.
pub open spec fn display_after(display: bool, s: ControlSnapshot) -> bool {
    match s.frame_rate_display_change_requested {
        Some(requested) => requested,
        None => display,
    }
}

/// The rater once the configuration signals of `s` have been applied: cleared
/// where the display was switched on, then given its new target where the
/// period changed.
pub open spec fn configured(m: RaterModel, s: ControlSnapshot) -> RaterModel {
    let shown = if s.frame_rate_display_change_requested == Some(true) {
        cleared(m)
    } else {
        m
    };
    match s.update_period_millis_changed {
        Some(period) => retargeted(period as int),
        None => shown,
    }
}

/// Whether a cycle with the signals `s` takes a sample: never when a reset is
/// requested, else when the rate is on display and an update is due.
pub open spec fn samples(display: bool, s: ControlSnapshot) -> bool {
    !s.reset_requested && display_after(display, s) && s.time_to_update
}

/// The rater after a cycle with the signals `s`: configuration first, then a
/// reset, which ends the cycle, and only otherwise the sample.
pub open spec fn rater_after(display: bool, m: RaterModel, s: ControlSnapshot) -> RaterModel {
    if s.reset_requested {
        cleared(configured(m, s))
    } else if samples(display, s) {
        sampled(configured(m, s), s.update_time_millis)
    } else {
        configured(m, s)
    }
}

/// What a cycle with the signals `s` leaves behind: whether the rate is on
/// display, and the rater.
pub open spec fn cycle_outcome(display: bool, m: RaterModel, s: ControlSnapshot) -> (
    bool,
    RaterModel,
) {
    (display_after(display, s), rater_after(display, m, s))
}

/// The controller of a frame rater. It holds whether the rate is on display;
/// the rater and the signals are handed to each cycle.
pub struct FrameRaterUpdater {
    frame_rate_display: bool,
}

impl FrameRaterUpdater {
    /// Whether the rate is on display.
    pub closed spec fn display(&self) -> bool {
        self.frame_rate_display
    }

    pub fn new(frame_rate_display: bool) -> (updater: Self)
        ensures
            updater.display() == frame_rate_display,
    {
        FrameRaterUpdater { frame_rate_display }
    }

    /// Whether the rate is on display.
    pub fn frame_rate_display(&self) -> (display: bool)
        ensures
            display == self.display(),
    {
        self.frame_rate_display
    }

    /// Runs one cycle on the signals of `snapshot`: applies a display change,
    /// then a period change, then either the reset or, where the rate is on
    /// display and an update is due, the sample.
    pub fn update_from<R: FrameRater>(&mut self, frame_rater: &mut R, snapshot: &ControlSnapshot)
        requires
            valid(old(frame_rater).model()),
        ensures
            final(self).display() == display_after(old(self).display(), *snapshot),
            final(frame_rater).model() == rater_after(
                old(self).display(),
                old(frame_rater).model(),
                *snapshot,
            ),
            valid(final(frame_rater).model()),
    {
        if let Some(frame_rate_display) = snapshot.frame_rate_display_change_requested {
            self.frame_rate_display = frame_rate_display;
            if frame_rate_display {
                frame_rater.clear();
            }
        }
        if let Some(update_period_millis) = snapshot.update_period_millis_changed {
            frame_rater.update_frame_sample_size(update_period_millis);
        }
        if snapshot.reset_requested {
            frame_rater.clear();
            return;
        }
        if self.frame_rate_display && snapshot.time_to_update {
            frame_rater.sample(snapshot.update_time_millis);
        }
    }

    /// Runs one cycle on the signals that `inputs` gives when asked: whatever
    /// they are, the cycle is the one `update_from` runs on some snapshot.
    pub fn update<R: FrameRater, I: FrameRaterUpdaterInputs>(
        &mut self,
        frame_rater: &mut R,
        inputs: &I,
    )
        requires
            valid(old(frame_rater).model()),
        ensures
            exists|s: ControlSnapshot|
                cycle_outcome(old(self).display(), old(frame_rater).model(), s) == (
                    final(self).display(),
                    final(frame_rater).model(),
                ),
            valid(final(frame_rater).model()),
    {
        let snapshot = ControlSnapshot {
            frame_rate_display_change_requested: inputs.get_frame_rate_display_change_requested(),
            reset_requested: inputs.get_reset_requested(),
            time_to_update: inputs.get_time_to_update(),
            update_period_millis_changed: inputs.get_update_period_millis_changed(),
            update_time_millis: inputs.get_update_time_millis(),
        };
        self.update_from(frame_rater, &snapshot);
        assert(cycle_outcome(old(self).display(), old(frame_rater).model(), snapshot) == (
            self.display(),
            frame_rater.model(),
        ));
    }
}

/// A requested reset suppresses the sample of its cycle: whatever else the
/// signals say, the cycle ends with an empty window and no rate.
pub proof fn reset_suppresses_sampling(display: bool, m: RaterModel, s: ControlSnapshot)
    requires
        s.reset_requested,
    ensures
        !samples(display, s),
        rater_after(display, m, s).window == Seq::<i64>::empty(),
        rater_after(display, m, s).rate == zero_rate(),
{
}

/// Switching the display on clears the rater before anything is sampled in
/// that cycle: the cycle ends as it would have from a cleared rater, so no
/// earlier sample or rate survives it.
pub proof fn display_on_starts_afresh(display: bool, m: RaterModel, s: ControlSnapshot)
    requires
        s.frame_rate_display_change_requested == Some(true),
    ensures
        rater_after(display, m, s) == rater_after(display, cleared(m), s),
        rater_after(display, m, s).rate == zero_rate(),
        rater_after(display, m, s).window.len() <= 1,
{
    assert(configured(m, s) == configured(cleared(m), s));
}

} // verus!
