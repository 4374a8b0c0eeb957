//! The unified error and the conversions into it.

use vstd::prelude::*;
use vstd::std_specs::convert::FromSpec;
use crate::component_range::{ComponentRangeError, ComponentRangeView};
use crate::conversion_range::ConversionRangeError;
use crate::indeterminate_offset::IndeterminateOffsetError;
use crate::parse::ParseError;

verus! {

/// A unified error type for anything returned by a fallible operation on
/// dates and times.
///
/// This can be used when you either don't know or don't care about the exact
/// error returned. More variants may be added later, so a `match` outside
/// this crate needs a wildcard arm.
// The component range error is boxed so that the enum stays small however
// many named values that error carries.
#[non_exhaustive]
#[derive(Debug)]
pub enum Error {
    /// The target type cannot hold the source value.
    ConversionRange,
    /// A component was outside its valid range.
    ComponentRange(Box<ComponentRangeError>),
    /// Text could not be parsed.
    Parse(ParseError),
    /// The system's UTC offset could not be determined.
    IndeterminateOffset,
}

/// What an [`Error`] holds, as mathematical values.
pub enum ErrorView {
    /// The target type cannot hold the source value.
    ConversionRange,
    /// A component was outside its valid range.
    ComponentRange(ComponentRangeView),
    /// Text could not be parsed; the payload is the parser's message.
    Parse(Seq<char>),
    /// The system's UTC offset could not be determined.
    IndeterminateOffset,
}

impl ErrorView {
    /// The message: that of the leaf error in the active variant.
    pub open spec fn rendering(self) -> Seq<char> {
        match self {
            ErrorView::ConversionRange => ConversionRangeError.rendering(),
            ErrorView::ComponentRange(error) => error.rendering(),
            ErrorView::Parse(message) => message,
            ErrorView::IndeterminateOffset => IndeterminateOffsetError.rendering(),
        }
    }
}

impl View for Error {
    type V = ErrorView;

    open spec fn view(&self) -> ErrorView {
        match *self {
            Error::ConversionRange => ErrorView::ConversionRange,
            Error::ComponentRange(error) => ErrorView::ComponentRange(error@),
            Error::Parse(error) => ErrorView::Parse(error@),
            Error::IndeterminateOffset => ErrorView::IndeterminateOffset,
        }
    }
}

/// The error that underlies an [`Error`].
#[derive(Debug, Clone, Copy)]
pub enum Cause<'a> {
    /// The unified error itself, where it has no payload to point to.
    Error(&'a Error),
    /// The component range error that the unified error owns.
    ComponentRange(&'a ComponentRangeError),
    /// The parse error that the unified error owns.
    Parse(&'a ParseError),
}

impl<'a> Cause<'a> {
    /// The message of the cause.
    pub open spec fn rendering(self) -> Seq<char> {
        match self {
            Cause::Error(error) => error@.rendering(),
            Cause::ComponentRange(error) => error@.rendering(),
            Cause::Parse(error) => error@,
        }
    }

    /// The cause of this cause, if it has one. A payload has none, and
    /// neither has a unified error that is its own cause: the chain of causes
    /// ends with them.
    pub open spec fn next(self) -> Option<Cause<'a>> {
        match self {
            Cause::Error(error) => match error.cause() {
                Cause::Error(_) => None,
                payload => Some(payload),
            },
            Cause::ComponentRange(_) | Cause::Parse(_) => None,
        }
    }

    /// Appends the message of the cause to `f`.
    pub fn fmt(&self, f: &mut String)
        ensures
            final(f)@ == old(f)@ + self.rendering(),
    {
        match *self {
            Cause::Error(error) => error.fmt(f),
            Cause::ComponentRange(error) => error.fmt(f),
            Cause::Parse(error) => error.fmt(f),
        }
    }

    /// The message of the cause as a string of its own.
    pub fn to_string(&self) -> (text: String)
        ensures
            text@ == self.rendering(),
    {
        let mut text = String::new();
        self.fmt(&mut text);
        text
    }

    /// The cause of this cause: the next step along the chain of causes.
    pub fn source(&self) -> (found: Option<Cause<'a>>)
        ensures
            found == self.next(),
    {
        match *self {
            Cause::Error(error) => match error.source() {
                Some(Cause::Error(_)) | None => None,
                payload => payload,
            },
            Cause::ComponentRange(_) | Cause::Parse(_) => None,
        }
    }
}

impl Error {
    /// The cause of this error: the payload where there is one, else the
    /// error itself.
    pub open spec fn cause(&self) -> Cause<'_> {
        match self {
            Error::ConversionRange | Error::IndeterminateOffset => Cause::Error(self),
            Error::ComponentRange(error) => Cause::ComponentRange(&**error),
            Error::Parse(error) => Cause::Parse(error),
        }
    }

    /// Appends the message to `f`.
    pub fn fmt(&self, f: &mut String)
        ensures
            final(f)@ == old(f)@ + self@.rendering(),
    {
        match self {
            Error::ConversionRange => ConversionRangeError.fmt(f),
            Error::ComponentRange(error) => error.fmt(f),
            Error::Parse(error) => error.fmt(f),
            Error::IndeterminateOffset => IndeterminateOffsetError.fmt(f),
        }
    }

    /// The message as a string of its own.
    pub fn to_string(&self) -> (text: String)
        ensures
            text@ == self@.rendering(),
    {
        let mut text = String::new();
        self.fmt(&mut text);
        text
    }

    /// The cause of this error. There always is one.
    pub fn source(&self) -> (found: Option<Cause<'_>>)
        ensures
            found == Some(self.cause()),
    {
        match self {
            Error::ConversionRange | Error::IndeterminateOffset => Some(Cause::Error(self)),
            Error::ComponentRange(error) => Some(Cause::ComponentRange(&**error)),
            Error::Parse(error) => Some(Cause::Parse(error)),
        }
    }
}

impl PartialEq for Error {
    /// Two errors are equal when they are of the same variant and their
    /// payloads are equal.
    fn eq(&self, other: &Self) -> (same: bool) {
        match (self, other) {
            (Error::ConversionRange, Error::ConversionRange) => true,
            (Error::ComponentRange(a), Error::ComponentRange(b)) => **a == **b,
            (Error::Parse(a), Error::Parse(b)) => *a == *b,
            (Error::IndeterminateOffset, Error::IndeterminateOffset) => true,
            _ => false,
        }
    }
}

impl vstd::std_specs::cmp::PartialEqSpecImpl for Error {
    open spec fn obeys_eq_spec() -> bool {
        true
    }

    open spec fn eq_spec(&self, other: &Self) -> bool {
        self@ == other@
    }
}

impl Eq for Error {}

impl Clone for Error {
    fn clone(&self) -> (copy: Self)
        ensures
            copy@ == self@,
    {
        match self {
            Error::ConversionRange => Error::ConversionRange,
            Error::ComponentRange(error) => {
                let payload: ComponentRangeError = (**error).clone();
                Error::ComponentRange(Box::new(payload))
            },
            Error::Parse(error) => Error::Parse(error.clone()),
            Error::IndeterminateOffset => Error::IndeterminateOffset,
        }
    }
}

impl From<ConversionRangeError> for Error {
    fn from(_original: ConversionRangeError) -> (error: Self) {
        Error::ConversionRange
    }
}

impl vstd::std_specs::convert::FromSpecImpl<ConversionRangeError> for Error {
    open spec fn obeys_from_spec() -> bool {
        true
    }

    open spec fn from_spec(_original: ConversionRangeError) -> Self {
        Error::ConversionRange
    }
}

impl From<ComponentRangeError> for Error {
    fn from(original: ComponentRangeError) -> (error: Self) {
        Error::ComponentRange(Box::new(original))
    }
}

impl vstd::std_specs::convert::FromSpecImpl<ComponentRangeError> for Error {
    open spec fn obeys_from_spec() -> bool {
        true
    }

    open spec fn from_spec(original: ComponentRangeError) -> Self {
        Error::ComponentRange(Box::new(original))
    }
}

impl From<ParseError> for Error {
    fn from(original: ParseError) -> (error: Self) {
        Error::Parse(original)
    }
}

impl vstd::std_specs::convert::FromSpecImpl<ParseError> for Error {
    open spec fn obeys_from_spec() -> bool {
        true
    }

    open spec fn from_spec(original: ParseError) -> Self {
        Error::Parse(original)
    }
}

impl From<IndeterminateOffsetError> for Error {
    fn from(_original: IndeterminateOffsetError) -> (error: Self) {
        Error::IndeterminateOffset
    }
}

impl vstd::std_specs::convert::FromSpecImpl<IndeterminateOffsetError> for Error {
    open spec fn obeys_from_spec() -> bool {
        true
    }

    open spec fn from_spec(_original: IndeterminateOffsetError) -> Self {
        Error::IndeterminateOffset
    }
}

/// Folding a leaf error into the unified error leaves its message as it
/// was. The two errors without a payload keep their fixed messages.
pub proof fn conversion_keeps_rendering(component_range: ComponentRangeError, parse: ParseError)
    ensures
        Error::from_spec(component_range)@.rendering() == component_range@.rendering(),
        Error::from_spec(parse)@.rendering() == parse@,
        Error::from_spec(ConversionRangeError)@.rendering()
            == "Source value is out of range for the target type"@,
        Error::from_spec(IndeterminateOffsetError)@.rendering()
            == "The system's UTC offset could not be determined"@,
{
}

/// The cause of a unified error made from a component range error or a parse
/// error is that very error. A unified error without a payload is its own
/// cause.
pub proof fn cause_is_the_leaf(
    component_range: ComponentRangeError,
    parse: ParseError,
    error: Error,
)
    ensures
        Error::from_spec(component_range).cause() == Cause::ComponentRange(&component_range),
        Error::from_spec(parse).cause() == Cause::Parse(&parse),
        Error::from_spec(ConversionRangeError).cause() == Cause::Error(&Error::ConversionRange),
        Error::from_spec(IndeterminateOffsetError).cause() == Cause::Error(
            &Error::IndeterminateOffset,
        ),
        error is ConversionRange || error is IndeterminateOffset ==> error.cause() == Cause::Error(
            &error,
        ),
{
}

/// The chain of causes of a unified error ends with its cause: a payload
/// reports no further cause, and neither does an error that is its own
/// cause.
pub proof fn chain_of_causes_ends(error: Error)
    ensures
        error.cause().next() is None,
{
}

/// A leaf error folded into the unified error can be taken out again by its
/// variant, and is then the leaf that went in.
pub proof fn conversion_round_trip(component_range: ComponentRangeError, parse: ParseError)
    ensures
        Error::from_spec(component_range) matches Error::ComponentRange(payload) && *payload
            == component_range,
        Error::from_spec(parse) matches Error::Parse(payload) && payload == parse,
        Error::from_spec(ConversionRangeError) is ConversionRange,
        Error::from_spec(IndeterminateOffsetError) is IndeterminateOffset,
{
}

} // verus!
