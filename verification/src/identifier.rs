//! Handles that name the actors and the use cases of one diagram.

use crate::decimal::{decimal_string, decimal_text};
use vstd::prelude::*;

verus! {

/// An actor identifier is unique per use case diagram.
#[derive(Clone, Copy, Debug, PartialEq, Eq, PartialOrd, Ord, Hash, Structural)]
pub struct ActorId(pub usize);

/// A use case identifier is unique per use case diagram.
#[derive(Clone, Copy, Debug, PartialEq, Eq, PartialOrd, Ord, Hash, Structural)]
pub struct UseCaseId(pub usize);

impl ActorId {
    /// The text that displays this identifier: its number in decimal.
    pub open spec fn text(self) -> Seq<char> {
        decimal_text(self.0 as nat)
    }

    /// Displays the identifier.
    pub fn to_string(&self) -> (shown: String)
        ensures
            shown@ == self.text(),
    {
        decimal_string(self.0)
    }
}

impl UseCaseId {
    /// The text that displays this identifier: its number in decimal.
    pub open spec fn text(self) -> Seq<char> {
        decimal_text(self.0 as nat)
    }

    /// Displays the identifier.
    pub fn to_string(&self) -> (shown: String)
        ensures
            shown@ == self.text(),
    {
        decimal_string(self.0)
    }
}

} // verus!
