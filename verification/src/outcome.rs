//! Normalized execution outcomes.
use vstd::prelude::*;

use crate::error::ErrorCode;

verus! {

/// Outcome of a node, adapter, or tool invocation.
#[derive(Clone, Debug, PartialEq)]
pub enum Outcome<T> {
    /// Execution finished with a value.
    Done(T),
    /// Execution is pending external input.
    Pending {
        /// Human-readable wait reason.
        reason: String,
        /// Optional list of expected input channels or identifiers.
        expected_input: Option<Vec<String>>,
    },
    /// Execution produced an error.
    Error {
        /// Machine-readable error code.
        code: ErrorCode,
        /// Human-readable message.
        message: String,
    },
}

impl<T> Outcome<T> {
    /// Returns `true` when the outcome is [`Outcome::Done`].
    pub fn is_done(&self) -> (r: bool)
        ensures
            r == (self is Done),
    {
        match self {
            Outcome::Done(_) => true,
            _ => false,
        }
    }

    /// Returns `true` when the outcome is [`Outcome::Pending`].
    pub fn is_pending(&self) -> (r: bool)
        ensures
            r == (self is Pending),
    {
        match self {
            Outcome::Pending { .. } => true,
            _ => false,
        }
    }

    /// Returns `true` when the outcome is [`Outcome::Error`].
    pub fn is_error(&self) -> (r: bool)
        ensures
            r == (self is Error),
    {
        match self {
            Outcome::Error { .. } => true,
            _ => false,
        }
    }

    /// Maps a [`Outcome::Done`] value with the provided function.
    pub fn map<U, F: FnOnce(T) -> U>(self, f: F) -> (r: Outcome<U>)
        requires
            self matches Outcome::Done(x) ==> f.requires((x,)),
        ensures
            match self {
                Outcome::Done(x) => r matches Outcome::Done(y) && f.ensures((x,), y),
                Outcome::Pending { reason, expected_input } => r == Outcome::<U>::Pending {
                    reason,
                    expected_input,
                },
                Outcome::Error { code, message } => r == Outcome::<U>::Error { code, message },
            },
    {
        match self {
            Outcome::Done(inner) => Outcome::Done(f(inner)),
            Outcome::Pending { reason, expected_input } => Outcome::Pending {
                reason,
                expected_input,
            },
            Outcome::Error { code, message } => Outcome::Error { code, message },
        }
    }
}

} // verus!
