//! Semantic version triples attached to approved code measurements.

use vstd::prelude::*;

verus! {

/// A `major.minor.patch` version triple.
#[derive(Clone, Copy, Debug, PartialEq, Eq, Structural)]
pub struct SemanticVersion {
    pub major: u16,
    pub minor: u16,
    pub patch: u16,
}

impl SemanticVersion {
    /// Build a version triple from its three components.
    pub fn new(major: u16, minor: u16, patch: u16) -> (r: Self)
        ensures
            r.major == major,
            r.minor == minor,
            r.patch == patch,
    {
        Self { major, minor, patch }
    }
}

} // verus!
