//! Pack validation schema (v0.6.0).
use crate::i18n_text::I18nText;
use vstd::prelude::*;

verus! {

/// Validation diagnostic entry.
#[derive(Clone, Debug, PartialEq, Eq)]
pub struct Diagnostic {
    /// Diagnostic code.
    pub code: String,
    /// User-facing diagnostic message.
    pub message: I18nText,
    /// Optional severity string (info/warn/error).
    pub severity: Option<String>,
}

/// Validation result payload.
#[derive(Clone, Debug, PartialEq, Eq)]
pub struct PackValidationResult {
    /// Overall success flag.
    pub ok: bool,
    /// Diagnostics collected during validation.
    pub issues: Vec<Diagnostic>,
}

} // verus!
