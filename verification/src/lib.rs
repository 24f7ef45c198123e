//! Orchestration core for a proving-engine RPC service.
//!
//! The library turns typed job requests into on-disk configuration
//! documents for an external zero-knowledge proving engine, manages the
//! per-project workspace layout, judges produced output tensors against a
//! target within a fixed tolerance, and sequences the whole pipeline as a
//! pure state machine.  All I/O (directory creation, file writes, the
//! engine invocation itself) is delegated to the embedding program, which
//! performs the actions this library emits and feeds the outcomes back in.

use vstd::prelude::*;

pub mod codec;
pub mod config;
pub mod judge;
pub mod model;
pub mod pipeline;
pub mod record;
pub mod types;
pub mod utils;
pub mod workspace;

verus! {

/// The failure taxonomy of the service.  Every pipeline stage failure is
/// reported as one of these; the serving process never crashes.
#[derive(Clone, Copy, Debug, PartialEq, Eq, Structural)]
pub enum ServiceError {
    /// A caller-supplied project name holds a path separator or a parent
    /// reference; rejected before any I/O happens.
    InvalidProjectName,
    /// Creating or entering the project workspace directory failed.
    WorkspaceError,
    /// Writing an input artifact to the workspace failed.
    PersistError,
    /// A job configuration misses a required field for its kind.
    SerializationError,
    /// The proving engine reported an error; the reason is passed through
    /// beside this tag, never parsed.
    EngineFailure,
    /// Two tensors handed to the judge differ in row length.
    ShapeMismatch,
    /// A caller-supplied model blob is not valid base64.
    InvalidModelEncoding,
}

impl ServiceError {
    /// A short stable label for the error, for transports that need text.
    pub fn label(&self) -> (r: &'static str)
        ensures
            r@ == self.spec_label(),
    {
        match self {
            ServiceError::InvalidProjectName => "invalid project name",
            ServiceError::WorkspaceError => "workspace error",
            ServiceError::PersistError => "persist error",
            ServiceError::SerializationError => "serialization error",
            ServiceError::EngineFailure => "engine failure",
            ServiceError::ShapeMismatch => "shape mismatch",
            ServiceError::InvalidModelEncoding => "invalid model encoding",
        }
    }

    pub open spec fn spec_label(&self) -> Seq<char> {
        match self {
            ServiceError::InvalidProjectName => "invalid project name"@,
            ServiceError::WorkspaceError => "workspace error"@,
            ServiceError::PersistError => "persist error"@,
            ServiceError::SerializationError => "serialization error"@,
            ServiceError::EngineFailure => "engine failure"@,
            ServiceError::ShapeMismatch => "shape mismatch"@,
            ServiceError::InvalidModelEncoding => "invalid model encoding"@,
        }
    }
}

} // verus!
