//! Screen-capture source: the format negotiated once at creation, and the
//! per-call classification of acquire outcomes into the three paths the
//! orchestrator takes — render the frame, back off briefly, or stop.

use vstd::prelude::*;

verus! {

/// Platform code of the 8-bit BGRA surface format.
pub const FORMAT_B8G8R8A8_UNORM: u32 = 87;

/// Platform code of its gamma-aware view.
pub const FORMAT_B8G8R8A8_UNORM_SRGB: u32 = 91;

/// Platform code of the 16-bit float surface format.
pub const FORMAT_R16G16B16A16_FLOAT: u32 = 10;

/// Platform code returned when there is no frame to release.
pub const ERROR_INVALID_CALL: u32 = 0x887A_0001;

/// Platform code of an acquire that ran out its wait.
pub const ERROR_WAIT_TIMEOUT: u32 = 0x887A_0027;

/// Bounded wait of one acquire call, in milliseconds.
pub const ACQUIRE_WAIT_MS: u64 = 1000;

/// How long the orchestrator idles after an empty acquire before retrying.
pub const NO_FRAME_BACKOFF_MS: u64 = 10;

/// What one acquire call came back with.
#[derive(Clone, Copy, Debug, PartialEq, Eq, Structural)]
pub enum AcquireOutcome {
    /// The call succeeded with this many frames accumulated since the
    /// previous acquire; zero means nothing on screen changed.
    Acquired { accumulated_frames: u32 },
    /// The bounded wait ran out without a new frame.
    TimedOut,
    /// The call failed with a platform error code.
    Failed { code: u32 },
}

/// What the orchestrator does with the outcome.
#[derive(Clone, Copy, Debug, PartialEq, Eq, Structural)]
pub enum CaptureStep {
    /// A fresh frame is available and owned until the next acquire.
    Frame,
    /// No visual change: idle briefly and retry, not an error.
    NoFrame,
    /// A real failure: propagate and stop the pipeline.
    Fatal { code: u32 },
}

/// The capture format the source fixes for its lifetime: the native 8-bit
/// BGRA mode is read through its gamma-aware view, anything else through
/// the 16-bit float format.
pub open spec fn spec_negotiate_format(native: u32) -> u32 {
    if native == FORMAT_B8G8R8A8_UNORM {
        FORMAT_B8G8R8A8_UNORM_SRGB
    } else {
        FORMAT_R16G16B16A16_FLOAT
    }
}

pub fn negotiate_capture_format(native: u32) -> (r: u32)
    ensures
        r == spec_negotiate_format(native),
{
    if native == FORMAT_B8G8R8A8_UNORM {
        FORMAT_B8G8R8A8_UNORM_SRGB
    } else {
        FORMAT_R16G16B16A16_FLOAT
    }
}

/// How an acquire outcome is acted on: a success with no accumulated
/// frames and a timed-out wait are both quiet retries; only another
/// failure stops the pipeline.
pub open spec fn spec_classify_acquire(outcome: AcquireOutcome) -> CaptureStep {
    match outcome {
        AcquireOutcome::Acquired { accumulated_frames } => if accumulated_frames == 0 {
            CaptureStep::NoFrame
        } else {
            CaptureStep::Frame
        },
        AcquireOutcome::TimedOut => CaptureStep::NoFrame,
        AcquireOutcome::Failed { code } => CaptureStep::Fatal { code },
    }
}

pub fn classify_acquire(outcome: AcquireOutcome) -> (r: CaptureStep)
    ensures
        r == spec_classify_acquire(outcome),
{
    match outcome {
        AcquireOutcome::Acquired { accumulated_frames } => {
            if accumulated_frames == 0 {
                CaptureStep::NoFrame
            } else {
                CaptureStep::Frame
            }
        },
        AcquireOutcome::TimedOut => CaptureStep::NoFrame,
        AcquireOutcome::Failed { code } => CaptureStep::Fatal { code },
    }
}

/// Whether a release error is tolerated: releasing when no frame is held
/// reports an invalid call, which is expected; anything else is fatal.
pub fn release_tolerated(code: u32) -> (r: bool)
    ensures
        r <==> code == ERROR_INVALID_CALL,
{
    code == ERROR_INVALID_CALL
}

/// The capture source's own state: the format fixed at creation and
/// whether it currently owns a frame.  The owned frame is valid only until
/// the next acquire call, which releases it first.
#[derive(Clone, Copy, Debug, PartialEq, Eq, Structural)]
pub struct Duplication {
    pub format: u32,
    pub has_frame: bool,
}

impl Duplication {
    /// Create the source against the duplication output's native format.
    pub fn new(native_format: u32) -> (r: Duplication)
        ensures
            r.format == spec_negotiate_format(native_format),
            !r.has_frame,
    {
        Duplication { format: negotiate_capture_format(native_format), has_frame: false }
    }

    /// One acquire call: the previously held frame is released first, so
    /// its view must no longer be in use; afterwards a frame is held
    /// exactly when the outcome classified as a fresh frame.
    pub fn duplicate(&mut self, outcome: AcquireOutcome) -> (r: CaptureStep)
        ensures
            r == spec_classify_acquire(outcome),
            final(self).format == old(self).format,
            final(self).has_frame <==> r is Frame,
    {
        self.has_frame = false;
        let step = classify_acquire(outcome);
        match step {
            CaptureStep::Frame => {
                self.has_frame = true;
            },
            _ => {},
        }
        step
    }
}

} // verus!
