//! The error kinds a launch can abort with. Every failure aborts the whole
//! launch; there is no retry anywhere in the engine.

use vstd::prelude::*;

verus! {

/// Why a launch was aborted.
#[derive(Clone, Copy, PartialEq, Eq, Structural, Debug)]
pub enum LaunchError {
    /// A required profile field or environment variable for a requested
    /// feature is missing or malformed.
    Configuration,
    /// The delegation registry holds no usable record for the caller.
    DelegationNotFound,
    /// A mapping helper or the proxy executable exited non-zero or could not
    /// be run to completion.
    HelperFailure,
    /// A synchronization channel closed before the expected message arrived.
    HandshakeFailure,
    /// The target executable could not be spawned or its descriptor setup
    /// failed.
    ProcessSpawn,
}

impl LaunchError {
    /// A short human-readable reason, for reporting the abort.
    pub fn describe(&self) -> &'static str {
        match self {
            LaunchError::Configuration => "missing or malformed configuration",
            LaunchError::DelegationNotFound => "no delegated sub-id range for the caller",
            LaunchError::HelperFailure => "a helper process failed",
            LaunchError::HandshakeFailure => "a synchronization channel closed unexpectedly",
            LaunchError::ProcessSpawn => "could not spawn the target process",
        }
    }
}

} // verus!
