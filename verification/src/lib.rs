//! Frame and tick scheduling for real-time update loops.
//!
//! - [`metronome`] decides when periodic work is due, with or without
//!   correction for ticks that are observed late.
//! - [`frame_rater`] estimates, over a sliding window of sample instants, how
//!   fast updates are actually occurring, and holds the controller that drives
//!   the estimator from live control signals.
//! - [`loop_driver`] decides, frame by frame, whether a cooperative loop asks
//!   its host for another frame.
//!
//! Instants and durations are whole milliseconds held in `i64`; a rate is
//! held exactly, as a count of frames over a span of milliseconds.

pub mod frame_rater;
pub mod loop_driver;
pub mod metronome;
