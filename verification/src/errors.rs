//! The engine's error taxonomy.

use vstd::prelude::*;

verus! {

/// Why a load failed. Every variant carries the human-readable diagnostic
/// that the `Error` event repeats.
#[derive(Clone, Debug, PartialEq, Eq)]
pub enum LoadError {
    /// The local file does not exist.
    NotFound { message: String },
    /// The local file could not be opened or read.
    Io { message: String },
    /// The URL fetch failed: unreachable host, timeout, or a non-success
    /// response.
    Network { message: String },
    /// The byte stream is not a recognized, well-formed audio format.
    Decode { message: String },
}

impl LoadError {
    /// The diagnostic carried by this error.
    pub open spec fn spec_message(&self) -> String {
        match self {
            LoadError::NotFound { message } => *message,
            LoadError::Io { message } => *message,
            LoadError::Network { message } => *message,
            LoadError::Decode { message } => *message,
        }
    }

    /// Returns the human-readable diagnostic.
    pub fn message(&self) -> (r: String)
        ensures
            r == self.spec_message(),
    {
        match self {
            LoadError::NotFound { message } => message.clone(),
            LoadError::Io { message } => message.clone(),
            LoadError::Network { message } => message.clone(),
            LoadError::Decode { message } => message.clone(),
        }
    }
}

/// Why a seek was refused. The player is left exactly as it was.
#[derive(Clone, Copy, Debug, PartialEq, Eq, Structural)]
pub enum SeekError {
    /// No seekable stream is available: the player holds no source, or a load
    /// is still in flight and nothing is attached yet.
    InvalidSeek,
}

/// Why the engine could not be constructed. Construction fails only when the
/// host cannot provide an output device; the failure is surfaced once, not
/// retried.
#[derive(Clone, Debug, PartialEq, Eq)]
pub enum EngineError {
    /// No output device is available, or the device is exclusively claimed.
    Device { message: String },
}

} // verus!
