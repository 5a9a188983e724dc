//! Error types for the memory subsystem.

use vstd::prelude::*;

verus! {

/// Errors emitted by memory components.
#[derive(Debug)]
pub enum MemoryError {
    /// The provided configuration was invalid.
    InvalidConfig(String),
    /// Underlying I/O failure while reading or writing journal files.
    Io {
        /// Description of the I/O failure.
        message: String,
    },
    /// Serialization or deserialization error.
    Serialization {
        /// Description of the codec failure.
        message: String,
    },
    /// Operation that requires a configured journal was invoked without one.
    MissingJournal,
    /// Operation that requires a configured vector store was invoked without
    /// one.
    MissingVectorStore,
    /// Vector store backend reported an application error.
    VectorStore {
        /// Human-readable reason describing the failure.
        reason: String,
    },
    /// Memory record metadata failed validation.
    InvalidRecord(String),
}

impl MemoryError {
    /// Helper to construct vector store errors.
    pub fn vector_store(reason: &str) -> (r: MemoryError)
        ensures
            r matches MemoryError::VectorStore { reason: s } && s@ == reason@,
    {
        MemoryError::VectorStore { reason: reason.to_owned() }
    }
}

/// Result type alias for memory operations.
pub type MemoryResult<T> = Result<T, MemoryError>;

} // verus!
