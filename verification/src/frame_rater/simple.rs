//! The frame rater over a double-ended queue of sample instants.

use super::retargeted;
use super::samples_per_second;
use super::target_window_size;
use super::valid;
use super::FrameRate;
use super::FrameRater;
use super::RaterModel;
use super::FRAME_SAMPLE_SIZE_MAX;
use super::SAMPLE_TIME_MILLIS;
use std::collections::VecDeque;
use vstd::prelude::*;

verus! {

/// A frame rater that keeps the instants of up to a thousand samples and
/// measures over the most recent second's worth of them.
pub struct SimpleFrameRater {
    frame_rate: FrameRate,
    frame_sample_size_target: usize,
    update_times: VecDeque<i64>,
}

impl SimpleFrameRater {
    /// The window size for an expected period between samples.
    pub fn calculate_frame_sample_size_target(frame_period_millis: i64) -> (size: usize)
        ensures
            size == target_window_size(frame_period_millis as int),
            1 <= size <= FRAME_SAMPLE_SIZE_MAX,
    {
        if frame_period_millis <= 0 {
            FRAME_SAMPLE_SIZE_MAX
        } else if frame_period_millis > 2 * SAMPLE_TIME_MILLIS {
            proof {
                lemma_long_period_rounds_to_zero(frame_period_millis as int);
            }
            1
        } else {
            proof {
                lemma_short_period_rounds_within_bounds(frame_period_millis as int);
            }
            let doubled: i64 = frame_period_millis + frame_period_millis;
            let rounded: i64 = (2 * SAMPLE_TIME_MILLIS + frame_period_millis) / doubled;
            rounded as usize
        }
    }

    /// A rater with an empty window, no rate, and the target that fits the
    /// expected period.
    pub fn new(frame_period_millis_target: i64) -> (frame_rater: Self)
        ensures
            frame_rater.model() == retargeted(frame_period_millis_target as int),
            valid(frame_rater.model()),
    {
        SimpleFrameRater {
            frame_rate: FrameRate { frames: 0, span_millis: 1 },
            frame_sample_size_target: Self::calculate_frame_sample_size_target(
                frame_period_millis_target,
            ),
            update_times: VecDeque::new(),
        }
    }

    /// The number of samples that should span about one second.
    pub fn frame_sample_size_target(&self) -> (size: usize)
        ensures
            size == self.model().target,
    {
        self.frame_sample_size_target
    }

    /// The number of samples in the window.
    pub fn sample_count(&self) -> (count: usize)
        ensures
            count == self.model().window.len(),
    {
        self.update_times.len()
    }

    /// The instant of the sample at `index`, counted from the oldest; `None`
    /// past the end of the window.
    pub fn sample_time(&self, index: usize) -> (time: Option<i64>)
        ensures
            time == if index < self.model().window.len() {
                Some(self.model().window[index as int])
            } else {
                None
            },
    {
        if index < self.update_times.len() {
            Some(self.update_times[index])
        } else {
            None
        }
    }
}

impl FrameRater for SimpleFrameRater {
    closed spec fn model(&self) -> RaterModel {
        RaterModel {
            window: self.update_times@,
            target: self.frame_sample_size_target as int,
            rate: self.frame_rate,
        }
    }

    fn clear(&mut self) {
        self.update_times.clear();
        self.frame_rate = FrameRate { frames: 0, span_millis: 1 };
    }

    fn get_frames_per_second_sampled(&self) -> (rate: FrameRate) {
        self.frame_rate
    }

    fn sample(&mut self, update_time_millis: i64) -> (signal: bool) {
        let deltas: usize = self.update_times.len();
        self.update_times.push_back(update_time_millis);
        if deltas < 1 {
            return false;
        }
        let mut frame_sample_size: usize = self.frame_sample_size_target;
        if frame_sample_size > deltas {
            frame_sample_size = deltas;
        }
        let index: usize = deltas - frame_sample_size;
        let first_update_time: i64 = self.update_times[index];
        let delta: i128 = update_time_millis as i128 - first_update_time as i128;
        if delta > 0 {
            self.frame_rate = FrameRate {
                frames: frame_sample_size as u64,
                span_millis: delta as u64,
            };
        }
        if deltas >= FRAME_SAMPLE_SIZE_MAX {
            self.update_times.pop_front();
        }
        false
    }

    fn update_frame_sample_size(&mut self, frame_period_millis: i64) {
        let adjusted_frame_period_millis: i64 = if frame_period_millis < 0 {
            0
        } else {
            frame_period_millis
        };
        self.frame_sample_size_target = Self::calculate_frame_sample_size_target(
            adjusted_frame_period_millis,
        );
        self.update_times.clear();
        self.frame_rate = FrameRate { frames: 0, span_millis: 1 };
    }
}

/// Past two seconds, a period holds less than half a sample per second.
proof fn lemma_long_period_rounds_to_zero(period: int)
    requires
        period > 2 * SAMPLE_TIME_MILLIS,
    ensures
        samples_per_second(period) == 0,
{
    assert((2000 + period) / (period + period) == 0) by (nonlinear_arith)
        requires
            period > 2000,
    ;
}

/// Up to two seconds, a period holds between one and a thousand samples per
/// second, rounded.
proof fn lemma_short_period_rounds_within_bounds(period: int)
    requires
        0 < period <= 2 * SAMPLE_TIME_MILLIS,
    ensures
        1 <= samples_per_second(period) <= FRAME_SAMPLE_SIZE_MAX,
{
    assert(1 <= (2000 + period) / (period + period) <= 1000) by (nonlinear_arith)
        requires
            0 < period <= 2000,
    ;
}

} // verus!
