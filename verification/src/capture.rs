//! The decision step of the capture retry loop.
//!
//! Acquiring a frame is a busy-wait with backoff: a single non-blocking read
//! either yields a frame, reports that the source is not ready yet, or fails
//! for good. The loop that performs the reads and the sleeps lives outside
//! the library; this module decides, after each read, whether to accept the
//! frame, sleep and retry, or abort.

use vstd::prelude::*;

verus! {

/// How long the retry loop should sleep, in milliseconds, before reading
/// again after a not-ready report.
pub const CAPTURE_RETRY_SLEEP_MS: u64 = 10;

/// Outcome of one non-blocking read of the capture source.
pub enum ReadOutcome {
    /// A complete frame was copied out of the source.
    Ready(Vec<u8>),
    /// The source is not ready yet; the read would have blocked.
    Busy,
    /// The read failed with a non-retryable error.
    Failed(String),
}

/// What the retry loop must do after one read attempt.
pub enum RetryStep {
    /// Stop retrying and hand this frame to the caller.
    Accept(Vec<u8>),
    /// Sleep for `CAPTURE_RETRY_SLEEP_MS` milliseconds and read again.
    SleepRetry,
    /// Stop retrying and surface this capture failure.
    Abort(String),
}

/// Decides the next step of the retry loop from the outcome of one read:
/// a ready frame is accepted as is, a busy source is retried after a sleep,
/// and a non-retryable error aborts the loop with its reason.
pub fn retry_decision(outcome: ReadOutcome) -> (r: RetryStep)
    ensures
        outcome matches ReadOutcome::Ready(f) ==> r matches RetryStep::Accept(g) && g@ == f@,
        outcome is Busy ==> r is SleepRetry,
        outcome matches ReadOutcome::Failed(m) ==> r matches RetryStep::Abort(mm) && mm@ == m@,
{
    match outcome {
        ReadOutcome::Ready(f) => RetryStep::Accept(f),
        ReadOutcome::Busy => RetryStep::SleepRetry,
        ReadOutcome::Failed(m) => RetryStep::Abort(m),
    }
}

} // verus!
