//! The cache's error taxonomy.
//!
//! Every failure is returned to the immediate caller as a typed result;
//! nothing is retried or swallowed. The taxonomy distinguishes an ordinary
//! miss from storage trouble, from an unreadable artifact, and from a backend
//! no loader is bound to, so a caller can fall back to compiling on a miss
//! while treating the other cases by its own policy.

use vstd::prelude::*;

verus! {

/// Why a cache operation failed.
#[derive(Debug, Clone, PartialEq, Eq)]
pub enum CacheError {
    /// No artifact is stored at the resolved location: an ordinary cache
    /// miss, expected and recoverable.
    NotFound,
    /// The underlying storage rejected the operation outright; the message
    /// identifies the offending path.
    PermissionDenied(String),
    /// The underlying storage failed in some other way; the message carries
    /// the storage layer's own description.
    Io(String),
    /// Bytes were read at the resolved location but do not form a valid
    /// serialized artifact for the requested backend.
    Corruption,
    /// No loader is bound to the requested backend; carries the backend's
    /// canonical name for diagnostics.
    UnsupportedBackend(String),
}

impl CacheError {
    /// This error is the ordinary miss a caller recovers from by compiling
    /// and then storing.
    pub fn is_not_found(&self) -> (r: bool)
        ensures
            r == (*self matches CacheError::NotFound),
    {
        match self {
            CacheError::NotFound => true,
            _ => false,
        }
    }
}

} // verus!
