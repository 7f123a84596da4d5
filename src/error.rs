//! Errors of the pipeline: which operation failed, and the status code the
//! hardware layer reported for it.

use vstd::prelude::*;

verus! {

/// The operation that failed.
#[derive(Debug, Clone, Copy, PartialEq, Eq, Structural)]
pub enum Operation {
    CreateComponentFailed,
    UnableToGetParameter,
    UnableToSetParameter,
    UnableToSetConfig,
    InvalidNumberOfPorts,
    SendCommandFailed,
    UseBufferFailed,
    EmptyBufferFailed,
    FreeBufferFailed,
    EventTimeout,
    SetupTunnelFailed,
    /// A render was asked of a pipeline whose units are not set up.
    NotInitialized,
}

/// A failure of the pipeline.
#[derive(Debug, Clone, Copy, PartialEq, Eq, Structural)]
pub enum PipelineError {
    /// A call of the unit-management layer returned a non-zero status.
    ILClientError(Operation, i32),
    /// A call of the media-acceleration core returned a non-zero status.
    OMXError(Operation, i32),
    /// The pipeline's own checks refused to go on.
    Assertion(Operation),
}

/// The empty detail of a failure that carries none.
#[derive(Debug, Clone, Copy, PartialEq, Eq, Structural)]
pub struct NoError {}

} // verus!
