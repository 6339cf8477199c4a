//! The errors of the formatter and of the per-record transform.

use vstd::prelude::*;

verus! {

/// Why a document could not be formatted.
#[derive(Clone, Copy, Debug, PartialEq, Eq, Structural)]
pub enum FormatError {
    /// The template has more placeholders than there are values.
    ArityMismatch,
    /// The destination cannot be addressed in the document.
    InvalidDocument,
    /// The updated document could not be written as text.
    EncodingError,
}

/// Why a record could not be transformed.
#[derive(Clone, Copy, Debug, PartialEq, Eq, Structural)]
pub enum RecordError {
    /// The record is not UTF-8 text that holds a JSON document.
    DecodeError,
    /// The document was read, and formatting it failed.
    Format(FormatError),
}

} // verus!
