//! The screen watch: the rolling state of one watched display and the single
//! operation "sample once, tell me if it changed".
//!
//! The OS-level capture handle lives outside the library; each sampling tick
//! the driving loop reports what happened at that handle as a
//! [`CaptureEvent`], and the watch updates its state, runs the diff engine
//! and the threshold policy, and returns the verdict.

use crate::diff::absdiff_spec;
use crate::diff::count_diffs;
use crate::diff::diff_and_update;
use crate::diff::is_significant;
use crate::diff::lemma_unchanged_frame;
use crate::diff::sum_diffs;
use crate::diff::threshold_met;
use crate::diff::DiffStat;
use crate::snapshot::encode_png;
use crate::snapshot::png_bytes;
use crate::snapshot::png_ok;
use crate::snapshot::rgba_from_native;
use crate::snapshot::rgba_image;
use vstd::prelude::*;

verus! {

/// Pixel-count threshold used when the caller configures none.
pub const DEFAULT_PIXEL_COUNT_THRESHOLD: usize = 1_000_000;

/// Sum-of-differences threshold used when the caller configures none.
pub const DEFAULT_SUM_THRESHOLD: usize = 5_000_000;

/// Errors surfaced by the watch.
#[derive(Debug)]
pub enum WatchError {
    /// No display could be found or opened while (re)creating the capture
    /// source.
    DisplayEnumerationFailure(String),
    /// A capture attempt failed with a non-retryable error.
    CaptureFailure(String),
    /// Encoding a buffer as a PNG image failed.
    EncodeFailure(String),
    /// No baseline exists yet, so there is no last frame to encode.
    MissingBaseline,
}

/// What happened at the capture handle during one sampling tick.
#[derive(Debug)]
pub enum CaptureEvent {
    /// The handle was present and the retry loop delivered a frame.
    Frame(Vec<u8>),
    /// The handle was present but the capture failed for good.
    CaptureFailed(String),
    /// The handle was absent and a new one was opened.
    Recreated,
    /// The handle was absent and opening a new one failed.
    RecreateFailed(String),
}

/// The rolling state of one watched display: whether a capture handle is
/// believed present, the display selector, the display geometry fixed at
/// construction, the last accepted frame (absent before the first capture),
/// the delta buffer (allocated once, overwritten on every comparison), and
/// the statistics of the most recent comparison.
pub struct ScreenWatch {
    pub source_present: bool,
    pub display_num: Option<usize>,
    pub width: usize,
    pub height: usize,
    pub last_buff: Option<Vec<u8>>,
    pub delta_buff: Vec<u8>,
    pub diff: DiffStat,
}

impl ScreenWatch {
    /// Well-formedness: the delta buffer always holds one byte for each of
    /// the four channels of every pixel of the display, sums of its
    /// differences fit a `usize`, and the baseline, when present, has the
    /// same length.
    pub open spec fn wf(self) -> bool {
        &&& self.width >= 1
        &&& self.height >= 1
        &&& self.width <= u32::MAX
        &&& self.height <= u32::MAX
        &&& self.delta_buff@.len() == 4 * self.width * self.height
        &&& self.delta_buff@.len() * 255 <= usize::MAX
        &&& (self.last_buff matches Some(b) ==> b@.len() == self.delta_buff@.len())
    }

    /// Makes a watch for a display of the given geometry, with a zeroed
    /// delta buffer, no baseline yet, and a capture handle believed present.
    pub fn new(display_num: Option<usize>, width: usize, height: usize) -> (w: ScreenWatch)
        requires
            width >= 1,
            height >= 1,
            width <= u32::MAX,
            height <= u32::MAX,
            4 * width * height * 255 <= usize::MAX,
        ensures
            w.wf(),
            w.source_present,
            w.display_num == display_num,
            w.width == width,
            w.height == height,
            w.last_buff is None,
            w.delta_buff@.len() == 4 * width * height,
            forall|i: int| 0 <= i < w.delta_buff@.len() ==> w.delta_buff@[i] == 0,
            w.diff == (DiffStat { pix_cnt_diff: 0, sum_diff: 0 }),
    {
        proof {
            assert(4 * width <= usize::MAX && 4 * width * height <= usize::MAX)
                by (nonlinear_arith)
                requires
                    width >= 1,
                    height >= 1,
                    4 * width * height * 255 <= usize::MAX,
            ;
        }
        let n = 4 * width * height;
        let mut delta: Vec<u8> = Vec::new();
        let mut i: usize = 0;
        while i < n
            invariant
                i <= n,
                delta@.len() == i,
                forall|j: int| 0 <= j < i ==> delta@[j] == 0,
            decreases n - i,
        {
            delta.push(0u8);
            i = i + 1;
        }
        ScreenWatch {
            source_present: true,
            display_num,
            width,
            height,
            last_buff: None,
            delta_buff: delta,
            diff: DiffStat { pix_cnt_diff: 0, sum_diff: 0 },
        }
    }

    /// What one sampling tick may report: a frame must match the delta
    /// buffer's length (geometry changes are an invariant violation the
    /// driving loop must rule out before calling).
    pub open spec fn event_fits(self, event: CaptureEvent) -> bool {
        event matches CaptureEvent::Frame(f) ==> f@.len() == self.delta_buff@.len()
    }

    /// Everything one sampling tick does to the state and returns, by event:
    ///
    /// - a frame while a baseline exists runs the diff engine (the delta
    ///   buffer and statistics are recomputed, the baseline rolls forward to
    ///   the frame) and returns the threshold policy's verdict;
    /// - a frame while no baseline exists becomes the baseline, with no
    ///   verdict possible yet;
    /// - a capture failure changes nothing and surfaces as an error;
    /// - a recreated handle clears the baseline, since a fresh source cannot
    ///   be trusted to show the display the stale baseline came from;
    /// - a failed recreation also clears the baseline and surfaces the
    ///   enumeration failure. A tick that loses the handle but recreates it
    ///   raises no error; only the recreation attempt itself may raise one,
    ///   a deliberate choice where the specification reads both ways.
    pub open spec fn sample_post(
        pre: ScreenWatch,
        post: ScreenWatch,
        event: CaptureEvent,
        cnt_diff: usize,
        sum_diff: usize,
        r: Result<bool, WatchError>,
    ) -> bool {
        &&& post.display_num == pre.display_num
        &&& post.width == pre.width
        &&& post.height == pre.height
        &&& match event {
            CaptureEvent::Frame(f) => {
                &&& post.source_present
                &&& match pre.last_buff {
                    Some(prev) => {
                        &&& post.last_buff matches Some(nb) && nb@ == f@
                        &&& post.delta_buff@.len() == f@.len()
                        &&& (forall|i: int|
                            0 <= i < f@.len() ==> post.delta_buff@[i] == absdiff_spec(
                                prev@[i],
                                f@[i],
                            ))
                        &&& post.diff.pix_cnt_diff == count_diffs(prev@, f@)
                        &&& post.diff.sum_diff == sum_diffs(prev@, f@)
                        &&& r matches Ok(v) && v == threshold_met(
                            count_diffs(prev@, f@) as int,
                            sum_diffs(prev@, f@) as int,
                            cnt_diff,
                            sum_diff,
                        )
                    },
                    None => {
                        &&& post.last_buff matches Some(nb) && nb@ == f@
                        &&& post.delta_buff == pre.delta_buff
                        &&& post.diff == pre.diff
                        &&& r matches Ok(v) && v == false
                    },
                }
            },
            CaptureEvent::CaptureFailed(m) => {
                &&& post == pre
                &&& r matches Err(e) && e matches WatchError::CaptureFailure(mm) && mm@ == m@
            },
            CaptureEvent::Recreated => {
                &&& post.source_present
                &&& post.last_buff is None
                &&& post.delta_buff == pre.delta_buff
                &&& post.diff == pre.diff
                &&& r matches Ok(v) && v == false
            },
            CaptureEvent::RecreateFailed(m) => {
                &&& !post.source_present
                &&& post.last_buff is None
                &&& post.delta_buff == pre.delta_buff
                &&& post.diff == pre.diff
                &&& r matches Err(e) && e matches WatchError::DisplayEnumerationFailure(mm)
                    && mm@ == m@
            },
        }
    }

    /// Samples once with the caller's thresholds: updates the rolling state
    /// from what this tick's capture reported and returns whether the screen
    /// changed significantly.
    pub fn cap_diff(&mut self, event: CaptureEvent, cnt_diff: usize, sum_diff: usize) -> (r:
        Result<bool, WatchError>)
        requires
            old(self).wf(),
            old(self).event_fits(event),
        ensures
            final(self).wf(),
            Self::sample_post(*old(self), *final(self), event, cnt_diff, sum_diff, r),
    {
        match event {
            CaptureEvent::Frame(f) => {
                self.source_present = true;
                match &mut self.last_buff {
                    Some(prev) => {
                        let stat = diff_and_update(prev, &f, &mut self.delta_buff);
                        self.diff = stat;
                        Ok(is_significant(stat, cnt_diff, sum_diff))
                    },
                    None => {
                        self.last_buff = Some(f);
                        Ok(false)
                    },
                }
            },
            CaptureEvent::CaptureFailed(m) => Err(WatchError::CaptureFailure(m)),
            CaptureEvent::Recreated => {
                self.source_present = true;
                self.last_buff = None;
                Ok(false)
            },
            CaptureEvent::RecreateFailed(m) => {
                self.source_present = false;
                self.last_buff = None;
                Err(WatchError::DisplayEnumerationFailure(m))
            },
        }
    }

    /// Samples once with the default conservative thresholds.
    pub fn cap_diff2(&mut self, event: CaptureEvent) -> (r: Result<bool, WatchError>)
        requires
            old(self).wf(),
            old(self).event_fits(event),
        ensures
            final(self).wf(),
            Self::sample_post(
                *old(self),
                *final(self),
                event,
                DEFAULT_PIXEL_COUNT_THRESHOLD,
                DEFAULT_SUM_THRESHOLD,
                r,
            ),
    {
        self.cap_diff(event, DEFAULT_PIXEL_COUNT_THRESHOLD, DEFAULT_SUM_THRESHOLD)
    }

    /// The last accepted frame, if a baseline exists.
    pub fn last_cap(&self) -> (r: &Option<Vec<u8>>)
        ensures
            *r == self.last_buff,
    {
        &self.last_buff
    }

    /// Sampling twice in a row over an unchanged display — the baseline
    /// already equals the frame bytes, and both ticks deliver the same
    /// bytes — returns a negative verdict both times, whatever the
    /// thresholds, and leaves the delta buffer all zeros after the second
    /// sample.
    pub proof fn lemma_sample_unchanged_twice(
        s0: ScreenWatch,
        s1: ScreenWatch,
        s2: ScreenWatch,
        e1: CaptureEvent,
        e2: CaptureEvent,
        cnt_thr: usize,
        sum_thr: usize,
        r1: Result<bool, WatchError>,
        r2: Result<bool, WatchError>,
    )
        requires
            ({
                &&& e1 matches CaptureEvent::Frame(f1)
                &&& e2 matches CaptureEvent::Frame(f2)
                &&& f1@ == f2@
                &&& s0.last_buff matches Some(b0)
                &&& b0@ == f1@
            }),
            Self::sample_post(s0, s1, e1, cnt_thr, sum_thr, r1),
            Self::sample_post(s1, s2, e2, cnt_thr, sum_thr, r2),
        ensures
            r1 matches Ok(v1) && !v1,
            r2 matches Ok(v2) && !v2,
            forall|i: int| 0 <= i < s2.delta_buff@.len() ==> s2.delta_buff@[i] == 0,
    {
        match e1 {
            CaptureEvent::Frame(f1) => {
                lemma_unchanged_frame(f1@, cnt_thr, sum_thr);
            },
            _ => {},
        }
    }

    /// Encodes a buffer of this watch's geometry as a PNG image.
    fn write_buff(&self, buff: &Vec<u8>) -> (r: Result<Vec<u8>, WatchError>)
        requires
            self.wf(),
            buff@.len() == self.delta_buff@.len(),
        ensures
            r is Ok == png_ok(
                self.width as u32,
                self.height as u32,
                rgba_image(buff@, self.width as int, self.height as int, 4 * self.width as int),
            ),
            r matches Ok(b) ==> b@ == png_bytes(
                self.width as u32,
                self.height as u32,
                rgba_image(buff@, self.width as int, self.height as int, 4 * self.width as int),
            ),
            r matches Err(e) ==> e matches WatchError::EncodeFailure(_),
    {
        proof {
            assert(buff@.len() == (4 * self.width) * self.height) by (nonlinear_arith)
                requires
                    buff@.len() == 4 * self.width * self.height,
            ;
            vstd::arithmetic::div_mod::lemma_div_by_multiple(
                4 * self.width as int,
                self.height as int,
            );
        }
        let stride = buff.len() / self.height;
        let rgba = rgba_from_native(buff, self.width, self.height, stride);
        match encode_png(self.width as u32, self.height as u32, &rgba) {
            Ok(b) => Ok(b),
            Err(m) => Err(WatchError::EncodeFailure(m)),
        }
    }

    /// Encodes the delta buffer — the most recent comparison's absolute
    /// differences — as a PNG image for the caller to persist.
    pub fn write_delta_buff_png(&self) -> (r: Result<Vec<u8>, WatchError>)
        requires
            self.wf(),
        ensures
            r is Ok == png_ok(
                self.width as u32,
                self.height as u32,
                rgba_image(
                    self.delta_buff@,
                    self.width as int,
                    self.height as int,
                    4 * self.width as int,
                ),
            ),
            r matches Ok(b) ==> b@ == png_bytes(
                self.width as u32,
                self.height as u32,
                rgba_image(
                    self.delta_buff@,
                    self.width as int,
                    self.height as int,
                    4 * self.width as int,
                ),
            ),
            r matches Err(e) ==> e matches WatchError::EncodeFailure(_),
    {
        self.write_buff(&self.delta_buff)
    }

    /// Encodes the last accepted frame as a PNG image for the caller to
    /// persist; before a baseline exists there is no last frame, which is
    /// an expected condition and surfaces as an error.
    pub fn write_last_buff_png(&self) -> (r: Result<Vec<u8>, WatchError>)
        requires
            self.wf(),
        ensures
            match self.last_buff {
                Some(lb) => {
                    &&& r is Ok == png_ok(
                        self.width as u32,
                        self.height as u32,
                        rgba_image(
                            lb@,
                            self.width as int,
                            self.height as int,
                            4 * self.width as int,
                        ),
                    )
                    &&& (r matches Ok(b) ==> b@ == png_bytes(
                        self.width as u32,
                        self.height as u32,
                        rgba_image(
                            lb@,
                            self.width as int,
                            self.height as int,
                            4 * self.width as int,
                        ),
                    ))
                    &&& (r matches Err(e) ==> e matches WatchError::EncodeFailure(_))
                },
                None => r matches Err(e) && e is MissingBaseline,
            },
    {
        match &self.last_buff {
            Some(b) => self.write_buff(b),
            None => Err(WatchError::MissingBaseline),
        }
    }
}

} // verus!
