//! The absence marker, and the report of a throw that nothing could meet.

use crate::payload::TypeKey;
use vstd::prelude::*;

verus! {

/// The place in the source from which a throw set out.
#[derive(Clone, Copy, Debug, PartialEq, Eq)]
pub struct Location {
    pub file: &'static str,
    pub line: u32,
    pub column: u32,
}

/// The payload that signals "no value". It holds nothing but the place it was
/// thrown from, and its type is shared with no other payload.
#[derive(Clone, Copy, Debug, PartialEq, Eq)]
pub struct OptionThrowNone {
    pub location: Location,
}

/// The report of a throw refused at its site: the type that no active boundary
/// recognises, and where the throw stood.
#[derive(Clone, Copy, Debug, PartialEq, Eq)]
pub struct Uncatchable {
    pub type_key: TypeKey,
    pub location: Location,
}

impl OptionThrowNone {
    /// The marker of an absence signalled at `location`.
    pub fn new(location: Location) -> (marker: Self)
        ensures
            marker == (OptionThrowNone { location }),
    {
        OptionThrowNone { location }
    }

    /// What the marker says when it is shown to a reader.
    pub fn message(&self) -> (text: &'static str)
        ensures
            text@ == "called `Option::unwrap()` on a `None` value"@,
    {
        "called `Option::unwrap()` on a `None` value"
    }
}

} // verus!
