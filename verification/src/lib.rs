//! Watches a display for significant changes.
//!
//! The library keeps a rolling baseline of the last accepted frame, compares
//! each newly captured frame against it byte for byte, aggregates the
//! differences into summary statistics, and applies a threshold policy to
//! decide whether the screen changed significantly. The delta buffer can be
//! encoded as a PNG image for persisting a visual record of the change.

use vstd::prelude::*;

mod capture;
mod diff;
mod snapshot;
mod watch;

pub use capture::retry_decision;
pub use capture::ReadOutcome;
pub use capture::RetryStep;
pub use capture::CAPTURE_RETRY_SLEEP_MS;
pub use diff::absdiff;
pub use diff::absdiff_spec;
pub use diff::count_diffs;
pub use diff::diff_and_update;
pub use diff::is_significant;
pub use diff::lemma_absdiff_symmetric;
pub use diff::lemma_count_threshold_only;
pub use diff::lemma_unchanged_frame;
pub use diff::lemma_zero_thresholds_never_significant;
pub use diff::sum_diffs;
pub use diff::threshold_met;
pub use diff::DiffStat;
pub use snapshot::png_bytes;
pub use snapshot::png_ok;
pub use snapshot::rgba_byte;
pub use snapshot::rgba_from_native;
pub use snapshot::rgba_image;
pub use watch::CaptureEvent;
pub use watch::ScreenWatch;
pub use watch::WatchError;
pub use watch::DEFAULT_PIXEL_COUNT_THRESHOLD;
pub use watch::DEFAULT_SUM_THRESHOLD;

verus! {

/// Configuration handed in by the command-line layer: which display to
/// watch (the primary one when absent) and how verbose external logging
/// should be. Neither field affects the watch's behaviour.
#[derive(Clone, Debug)]
pub struct CliCfg {
    pub use_display: Option<usize>,
    pub verbose: usize,
}

} // verus!
