//! Sliding-window estimation of how fast updates are actually occurring.

use vstd::prelude::*;

pub mod simple;
pub mod updater;

verus! {

/// The most samples a window ever holds.
pub const FRAME_SAMPLE_SIZE_MAX: usize = 1_000;

/// The span, in milliseconds, that a window of the target size should cover.
pub const SAMPLE_TIME_MILLIS: i64 = 1_000;

/// A rate, held exactly: `frames` updates observed over `span_millis`
/// milliseconds, that is `frames * 1000 / span_millis` per second.
#[derive(Clone, Copy, Debug, PartialEq, Eq, Structural)]
pub struct FrameRate {
    pub frames: u64,
    pub span_millis: u64,
}

/// The rate reported while there is nothing to measure.
pub open spec fn zero_rate() -> FrameRate {
    FrameRate { frames: 0, span_millis: 1 }
}

/// What a frame rater holds: the instants of the recent samples, oldest
/// first; the number of samples that should span about one second; and the
/// last rate computed.
pub struct RaterModel {
    pub window: Seq<i64>,
    pub target: int,
    pub rate: FrameRate,
}

/// The invariant of a frame rater: a bounded window, a target between one and
/// the bound, and a rate over a positive span.
pub open spec fn valid(m: RaterModel) -> bool {
    &&& m.window.len() <= FRAME_SAMPLE_SIZE_MAX
    &&& 1 <= m.target <= FRAME_SAMPLE_SIZE_MAX
    &&& m.rate.span_millis > 0
}

/// `1000 / period` rounded to the nearest whole number, halves upward.
pub open spec fn samples_per_second(period: int) -> int
    recommends
        period > 0,
{
    (2 * SAMPLE_TIME_MILLIS + period) / (period + period)
}

/// The window size for an expected period between samples: as many samples as
/// span one second, at least one and at most the bound; the bound itself where
/// the period is unknown (zero or below).
pub open spec fn target_window_size(period: int) -> int {
    if period <= 0 {
        FRAME_SAMPLE_SIZE_MAX as int
    } else if samples_per_second(period) < 1 {
        1
    } else if samples_per_second(period) > FRAME_SAMPLE_SIZE_MAX {
        FRAME_SAMPLE_SIZE_MAX as int
    } else {
        samples_per_second(period)
    }
}

/// The model after `clear`: no samples, no rate, the same target.
pub open spec fn cleared(m: RaterModel) -> RaterModel {
    RaterModel { window: Seq::empty(), target: m.target, rate: zero_rate() }
}

/// The model after the expected period changed: a new target, and nothing
/// kept of the samples that were spaced for the old one.
pub open spec fn retargeted(period: int) -> RaterModel {
    RaterModel { window: Seq::empty(), target: target_window_size(period), rate: zero_rate() }
}

/// How many intervals a sample at this moment is measured over: the target,
/// or all the samples held where they are fewer.
pub open spec fn measured_frames(m: RaterModel) -> int {
    if m.target < m.window.len() {
        m.target
    } else {
        m.window.len() as int
    }
}

/// The time from the sample that opens the measured span to `now`.
pub open spec fn measured_span(m: RaterModel, now: i64) -> int
    recommends
        m.window.len() >= 1,
        valid(m),
{
    now - m.window[m.window.len() - measured_frames(m)]
}

/// The rate after a sample at `now`. With no earlier sample there is no
/// interval to measure, and over a span that is not positive there is no
/// valid rate: in both cases the previous rate stands.
pub open spec fn measured_rate(m: RaterModel, now: i64) -> FrameRate {
    if m.window.len() >= 1 && measured_span(m, now) > 0 {
        FrameRate { frames: measured_frames(m) as u64, span_millis: measured_span(m, now) as u64 }
    } else {
        m.rate
    }
}

/// The window after a sample at `now`: the new instant comes last, and where
/// the window was full its oldest instant leaves.
pub open spec fn slid_window(window: Seq<i64>, now: i64) -> Seq<i64> {
    if window.len() >= FRAME_SAMPLE_SIZE_MAX {
        window.push(now).subrange(1, window.len() as int + 1)
    } else {
        window.push(now)
    }
}

/// The model after a sample at `now`.
pub open spec fn sampled(m: RaterModel, now: i64) -> RaterModel {
    RaterModel {
        window: slid_window(m.window, now),
        target: m.target,
        rate: measured_rate(m, now),
    }
}

/// The model after the samples of `nows`, in order.
pub open spec fn sampled_all(m: RaterModel, nows: Seq<i64>) -> RaterModel
    decreases nows.len(),
{
    if nows.len() == 0 {
        m
    } else {
        sampled(sampled_all(m, nows.drop_last()), nows.last())
    }
}

/// An estimator of the rate at which `sample` is being called, over a bounded
/// window of the most recent calls.
pub trait FrameRater {
    /// What the rater holds.
    spec fn model(&self) -> RaterModel;

    /// Empties the window and zeroes the rate; the target stays.
    fn clear(&mut self)
        requires
            valid(old(self).model()),
        ensures
            final(self).model() == cleared(old(self).model()),
            valid(final(self).model()),
    ;

    /// The last rate computed; zero frames while there was nothing to measure.
    fn get_frames_per_second_sampled(&self) -> (rate: FrameRate)
        requires
            valid(self.model()),
        ensures
            rate == self.model().rate,
    ;

    /// Records an update at `update_time_millis` and measures the rate anew.
    /// The result is reserved and always `false`.
    fn sample(&mut self, update_time_millis: i64) -> (signal: bool)
        requires
            valid(old(self).model()),
        ensures
            !signal,
            final(self).model() == sampled(old(self).model(), update_time_millis),
            valid(final(self).model()),
    ;

    /// Derives the target window size from the expected period between
    /// samples, and starts measuring afresh.
    fn update_frame_sample_size(&mut self, frame_period_millis: i64)
        requires
            valid(old(self).model()),
        ensures
            final(self).model() == retargeted(frame_period_millis as int),
            valid(final(self).model()),
    ;
}

/// `clear` keeps a rater valid.
pub proof fn cleared_is_valid(m: RaterModel)
    requires
        valid(m),
    ensures
        valid(cleared(m)),
{
}

/// A new target leaves a valid rater, whatever the period.
pub proof fn retargeted_is_valid(period: int)
    ensures
        valid(retargeted(period)),
{
}

/// A sample keeps a rater valid: the window never grows past its bound, and
/// the rate stays one over a positive span.
pub proof fn sampled_is_valid(m: RaterModel, now: i64)
    requires
        valid(m),
    ensures
        valid(sampled(m, now)),
{
    if m.window.len() >= 1 && measured_span(m, now) > 0 {
        assert(measured_span(m, now) <= u64::MAX);
    }
}

/// The first sample into an empty window measures nothing: the rate is what
/// it was before.
pub proof fn first_sample_keeps_rate(m: RaterModel, now: i64)
    requires
        m.window.len() == 0,
    ensures
        sampled(m, now).rate == m.rate,
        sampled(m, now).window == seq![now],
{
    assert(sampled(m, now).window =~= seq![now]);
}

/// Samples that share one instant give no valid rate: where the measured span
/// is zero, the previous rate stands.
pub proof fn zero_span_keeps_rate(m: RaterModel, now: i64)
    requires
        m.window.len() >= 1,
        measured_span(m, now) == 0,
    ensures
        sampled(m, now).rate == m.rate,
{
}

/// A sample into a full window evicts the oldest instant and no other: every
/// instant moves one place towards the front, and the new one comes last.
pub proof fn full_window_slides(m: RaterModel, now: i64)
    requires
        m.window.len() == FRAME_SAMPLE_SIZE_MAX,
    ensures
        sampled(m, now).window.len() == FRAME_SAMPLE_SIZE_MAX,
        sampled(m, now).window[0] == m.window[1],
        sampled(m, now).window.last() == now,
        forall|i: int|
            0 <= i < FRAME_SAMPLE_SIZE_MAX - 1 ==> #[trigger] sampled(m, now).window[i]
                == m.window[i + 1],
{
}

/// Whether the instants of `nows` are evenly spaced, `dt` milliseconds apart.
pub open spec fn evenly_spaced(nows: Seq<i64>, dt: int) -> bool {
    forall|i: int| 0 <= i < nows.len() ==> #[trigger] nows[i] == nows[0] + i * dt
}

/// Evenly spaced samples into an empty window, no more of them than the
/// target, are all kept, and from the second on the rate is measured over all
/// the intervals between them.
pub proof fn evenly_spaced_samples_fill_window(m: RaterModel, nows: Seq<i64>, dt: int)
    requires
        valid(m),
        m.window.len() == 0,
        dt > 0,
        nows.len() <= m.target,
        evenly_spaced(nows, dt),
    ensures
        sampled_all(m, nows).window == nows,
        sampled_all(m, nows).target == m.target,
        nows.len() >= 2 ==> sampled_all(m, nows).rate == (FrameRate {
            frames: (nows.len() - 1) as u64,
            span_millis: ((nows.len() - 1) * dt) as u64,
        }),
        nows.len() >= 2 ==> 0 < (nows.len() - 1) * dt <= u64::MAX,
    decreases nows.len(),
{
    if nows.len() == 0 {
        assert(m.window =~= nows);
    } else {
        let earlier = nows.drop_last();
        let k = earlier.len() as int;
        assert forall|i: int| 0 <= i < earlier.len() implies #[trigger] earlier[i] == earlier[0] + i
            * dt by {
            assert(earlier[i] == nows[i]);
            assert(earlier[0] == nows[0]);
        }
        evenly_spaced_samples_fill_window(m, earlier, dt);
        let before = sampled_all(m, earlier);
        assert(before.window == earlier);
        assert(slid_window(earlier, nows.last()) =~= nows);
        if k >= 1 {
            assert(measured_frames(before) == k);
            assert(earlier[0] == nows[0]);
            assert(nows.last() == nows[k]);
            assert(nows[k] == nows[0] + k * dt);
            assert(measured_span(before, nows.last()) == k * dt);
            assert(k * dt > 0) by (nonlinear_arith)
                requires
                    k >= 1,
                    dt > 0,
            ;
        }
    }
}

/// For two or more evenly spaced samples into an empty window, no more of
/// them than the target, the measured rate is exactly one frame per `dt`
/// milliseconds: `frames * 1000 / span_millis` is `1000 / dt`.
pub proof fn evenly_spaced_samples_measure_spacing(m: RaterModel, nows: Seq<i64>, dt: int)
    requires
        valid(m),
        m.window.len() == 0,
        dt > 0,
        2 <= nows.len() <= m.target,
        evenly_spaced(nows, dt),
    ensures
        sampled_all(m, nows).rate.frames == nows.len() - 1,
        sampled_all(m, nows).rate.frames * dt == sampled_all(m, nows).rate.span_millis,
{
    evenly_spaced_samples_fill_window(m, nows, dt);
}

/// The rounding behind the target window size: the whole number nearest to
/// `1000 / period`, so that `samples * period` misses one second by no more
/// than half a period.
pub proof fn samples_per_second_is_nearest(period: int)
    requires
        period > 0,
    ensures
        2 * samples_per_second(period) * period <= 2 * SAMPLE_TIME_MILLIS + period,
        2 * SAMPLE_TIME_MILLIS + period < 2 * (samples_per_second(period) + 1) * period,
{
    let q = (2000 + period) / (period + period);
    assert(q * (2 * period) <= 2000 + period < (q + 1) * (2 * period)) by (nonlinear_arith)
        requires
            period > 0,
            q == (2000 + period) / (period + period),
    ;
    assert(2 * q * period == q * (2 * period)) by (nonlinear_arith);
    assert(2 * (q + 1) * period == (q + 1) * (2 * period)) by (nonlinear_arith);
}

} // verus!
