//! The error of the parser, as far as this crate reads it.

use vstd::prelude::*;

verus! {

/// A failure to parse a date or time from text.
///
/// The parser decides what went wrong and how to say it. Here the error is
/// the message that the parser gave it: it is carried, compared, copied and
/// written out, and never looked into.
#[derive(Debug)]
pub struct ParseError {
    /// The message, as the parser rendered it.
    message: String,
}

impl View for ParseError {
    type V = Seq<char>;

    closed spec fn view(&self) -> Seq<char> {
        self.message@
    }
}

impl ParseError {
    /// A parse error that renders as `message`.
    pub fn new(message: String) -> (error: Self)
        ensures
            error@ == message@,
    {
        ParseError { message }
    }

    /// Appends the message to `f`.
    pub fn fmt(&self, f: &mut String)
        ensures
            final(f)@ == old(f)@ + self@,
    {
        f.append(self.message.as_str());
    }

    /// The message as a string of its own.
    pub fn to_string(&self) -> (text: String)
        ensures
            text@ == self@,
    {
        self.message.clone()
    }
}

impl PartialEq for ParseError {
    /// Two parse errors are equal when they render alike.
    fn eq(&self, other: &Self) -> (same: bool) {
        self.message == other.message
    }
}

impl vstd::std_specs::cmp::PartialEqSpecImpl for ParseError {
    open spec fn obeys_eq_spec() -> bool {
        true
    }

    open spec fn eq_spec(&self, other: &Self) -> bool {
        self@ == other@
    }
}

impl Eq for ParseError {}

impl Clone for ParseError {
    fn clone(&self) -> (copy: Self)
        ensures
            copy@ == self@,
    {
        ParseError { message: self.message.clone() }
    }
}

} // verus!
