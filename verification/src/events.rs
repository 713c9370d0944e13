//! Canonical Greentic event identifiers.
use vstd::prelude::*;

verus! {

/// Stable identifier for an event envelope.
#[derive(Clone, Debug, Eq, PartialEq, Ord, PartialOrd, Hash)]
pub struct EventId(String);

impl EventId {
    /// The identifier's text.
    pub closed spec fn text(self) -> Seq<char> {
        self.0@
    }

    /// Returns the identifier as a string slice.
    pub fn as_str(&self) -> (r: &str)
        ensures
            r@ == self.text(),
    {
        self.0.as_str()
    }

    /// Consumes the identifier returning the owned string.
    pub fn into_inner(self) -> (r: String)
        ensures
            r@ == self.text(),
    {
        self.0
    }
}

} // verus!
