//! Error type shared by every fallible operation of the crate.

use vstd::prelude::*;

verus! {

/// All failure conditions that a core operation can surface.
///
/// Every operation either succeeds or returns exactly one of these tagged
/// conditions; nothing is retried or silently swallowed inside the core.
#[derive(Debug, Clone, PartialEq, Eq)]
pub enum ZenMoneyError {
    /// Transport failure while talking to the remote service.
    Http(String),
    /// The remote service answered with a non-success status code.
    Api {
        /// HTTP status code of the response.
        status: u16,
        /// Error message taken from the response body.
        message: String,
    },
    /// A payload could not be serialized or deserialized.
    Serialization(String),
    /// A storage backend operation failed (I/O, lock acquisition, poisoning).
    Storage(String),
    /// A deletion notice for a numeric-keyed entity carried an identifier
    /// that is not a valid number.
    InvalidDeletionId(String),
    /// No access token is available for API authentication.
    TokenExpired,
}

/// Convenience alias for results using [`ZenMoneyError`].
pub type Result<T> = core::result::Result<T, ZenMoneyError>;

} // verus!
