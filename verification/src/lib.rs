//! The error types of a date and time library.
//!
//! Every fallible operation of such a library reports one of a few leaf
//! errors. Each leaf has an exact human-readable rendering, and each converts
//! without loss into [`Error`], the one type a caller needs to name.

pub mod compare;
pub mod component_range;
pub mod conversion_range;
pub mod decimal;
pub mod error;
pub mod indeterminate_offset;
pub mod parse;

pub use component_range::ComponentRangeError;
pub use conversion_range::ConversionRangeError;
pub use error::{Cause, Error};
pub use indeterminate_offset::IndeterminateOffsetError;
pub use parse::ParseError;
