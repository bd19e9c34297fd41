//! Typed failure categories of the transaction pipeline.
//!
//! Every stage surfaces the first failure it meets as one of these
//! categories, so callers can tell a retryable transport fault from a
//! permanent rejection without string matching.

use vstd::prelude::*;

verus! {

/// The failure categories of the pipeline.
#[derive(Clone, Copy, Debug, PartialEq, Eq, Structural)]
pub enum ActorError {
    /// Canonical encoding or response decoding failed.
    EncodingError,
    /// The signing operation failed (invalid key material).
    CryptoError,
    /// The network transport failed before a response arrived.
    TransportError,
    /// The remote node answered but refused or contradicted the request.
    RemoteError,
    /// A wrapped condition outside the other categories.
    CommonError,
}

impl ActorError {
    /// A transport fault is the one category a caller may retry;
    /// every other category is permanent for the same inputs.
    pub fn is_retryable(&self) -> (r: bool)
        ensures
            r == (*self == ActorError::TransportError),
    {
        match self {
            ActorError::TransportError => true,
            _ => false,
        }
    }
}

} // verus!
