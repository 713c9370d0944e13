//! Shared error types for Greentic crates.
use vstd::prelude::*;

use crate::text::{owned, push_str};

verus! {

/// Canonical error codes used across the Greentic platform.
#[derive(Clone, Copy, Debug, PartialEq, Eq, Hash, Structural)]
pub enum ErrorCode {
    /// Unclassified error.
    Unknown,
    /// Invalid input supplied by the caller.
    InvalidInput,
    /// Required entity was not found.
    NotFound,
    /// Operation conflicts with existing data.
    Conflict,
    /// Operation timed out.
    Timeout,
    /// Caller is not authenticated.
    Unauthenticated,
    /// Caller lacks permissions.
    PermissionDenied,
    /// Requests throttled by rate limits.
    RateLimited,
    /// External dependency unavailable.
    Unavailable,
    /// Internal platform error.
    Internal,
}

/// Error type carrying a code and message.
#[derive(Debug)]
pub struct GreenticError {
    /// Machine-readable error code.
    pub code: ErrorCode,
    /// Human-readable error message.
    pub message: String,
    /// Rendered description of the underlying error, when one was attached.
    pub source: Option<String>,
}

impl GreenticError {
    /// Creates a new error with the provided code and message.
    pub fn new(code: ErrorCode, message: &str) -> (r: Self)
        ensures
            r.code == code,
            r.message@ == message@,
            r.source is None,
    {
        Self { code, message: owned(message), source: None }
    }

    /// Attaches a source error to the `GreenticError`; the error is kept as
    /// its rendered description.
    pub fn with_source<E: core::fmt::Display>(self, source: E) -> (r: Self)
        ensures
            r.code == self.code,
            r.message == self.message,
            r.source is Some,
    {
        let mut err = self;
        err.source = Some(source.to_string());
        err
    }
}

} // verus!
