//! The error for a value that the target type cannot hold.

use core::cmp::Ordering;
use vstd::prelude::*;

verus! {

/// An error type indicating that a conversion failed because the target type
/// could not store the initial value.
#[derive(Debug, Clone, Copy, PartialEq, Eq, Structural, Hash, Ord)]
pub struct ConversionRangeError;

impl ConversionRangeError {
    /// The message: the same for every value of this type.
    pub open spec fn rendering(&self) -> Seq<char> {
        "Source value is out of range for the target type"@
    }

    /// Appends the message to `f`.
    pub fn fmt(&self, f: &mut String)
        ensures
            final(f)@ == old(f)@ + self.rendering(),
    {
        f.append("Source value is out of range for the target type");
    }

    /// The message as a string of its own.
    pub fn to_string(&self) -> (text: String)
        ensures
            text@ == self.rendering(),
    {
        let mut text = String::new();
        self.fmt(&mut text);
        text
    }
}

impl PartialOrd for ConversionRangeError {
    /// Every value of this type is equal to every other.
    fn partial_cmp(&self, other: &Self) -> (order: Option<Ordering>) {
        Some(Ordering::Equal)
    }
}

impl vstd::std_specs::cmp::PartialOrdSpecImpl for ConversionRangeError {
    open spec fn obeys_partial_cmp_spec() -> bool {
        true
    }

    open spec fn partial_cmp_spec(&self, other: &Self) -> Option<Ordering> {
        Some(Ordering::Equal)
    }
}

} // verus!
