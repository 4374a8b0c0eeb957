//! The error for a UTC offset that the system could not tell.

use core::cmp::Ordering;
use vstd::prelude::*;

verus! {

/// The system's UTC offset could not be determined at the given datetime.
#[derive(Debug, Clone, Copy, PartialEq, Eq, Structural, Hash, Ord)]
pub struct IndeterminateOffsetError;

impl IndeterminateOffsetError {
    /// The message: the same for every value of this type.
    pub open spec fn rendering(&self) -> Seq<char> {
        "The system's UTC offset could not be determined"@
    }

    /// Appends the message to `f`.
    pub fn fmt(&self, f: &mut String)
        ensures
            final(f)@ == old(f)@ + self.rendering(),
    {
        f.append("The system's UTC offset could not be determined");
    }

    /// The message as a string of its own.
    pub fn to_string(&self) -> (text: String)
        ensures
            text@ == self.rendering(),
    {
        let mut text = String::new();
        self.fmt(&mut text);
        text
    }
}

impl PartialOrd for IndeterminateOffsetError {
    /// Every value of this type is equal to every other.
    fn partial_cmp(&self, other: &Self) -> (order: Option<Ordering>) {
        Some(Ordering::Equal)
    }
}

impl vstd::std_specs::cmp::PartialOrdSpecImpl for IndeterminateOffsetError {
    open spec fn obeys_partial_cmp_spec() -> bool {
        true
    }

    open spec fn partial_cmp_spec(&self, other: &Self) -> Option<Ordering> {
        Some(Ordering::Equal)
    }
}

} // verus!
