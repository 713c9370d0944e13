//! Localizable text references.
use vstd::prelude::*;

verus! {

/// Text shown to users, referenced by its translation key.
#[derive(Clone, Debug, PartialEq, Eq)]
pub struct I18nText {
    /// Translation key.
    pub key: String,
}

} // verus!
