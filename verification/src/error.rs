//! The single error type every fallible stage bubbles to the orchestrator
//! loop, the one place that recovers — by stopping the pipeline thread.

use vstd::prelude::*;

verus! {

/// A fatal pipeline failure.  Capture timeouts and empty frames are not
/// errors and never appear here.
#[derive(Clone, Copy, Debug, PartialEq, Eq, Structural)]
pub enum PipelineError {
    /// A GPU device or resource could not be created.
    ResourceCreation,
    /// A pipeline state object could not be built from its shaders.
    PipelineCreation,
    /// Screen capture failed with a platform error code.
    CaptureFailed { code: u32 },
    /// Presenting the finished frame failed with a platform error code.
    PresentFailed { code: u32 },
    /// The per-frame shader-visible descriptor budget was exceeded — a
    /// logic error, since the pool is sized for the known maximum usage.
    DescriptorsExhausted,
}

} // verus!
