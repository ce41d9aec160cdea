//! Format-validation error type shared by every MIDDS payload.
use vstd::prelude::*;

verus! {

/// Format-validation error for a MIDDS payload or identifier.
///
/// On-chain validation only covers structure / charset / length; check
/// digits are verified separately and never block a deposit.
#[derive(Debug, Clone, Copy, PartialEq, Eq, Structural)]
pub enum MiddsFormatError {
    /// Identifier does not match the expected high-level structure.
    InvalidIdentifierStructure,
    /// Bytes outside the allowed charset for this field.
    InvalidCharset,
    /// Length below the minimum or above the maximum allowed.
    OutOfBounds,
    /// A mandatory field is empty.
    EmptyMandatoryField,
    /// Two date / year fields in the same payload disagree.
    DateInconsistency,
    /// Two non-date fields constrain each other but disagree.
    CrossFieldInconsistency,
}

/// Human-readable description of each variant.
pub open spec fn format_error_message(e: MiddsFormatError) -> Seq<char> {
    match e {
        MiddsFormatError::InvalidIdentifierStructure => "identifier structure is invalid"@,
        MiddsFormatError::InvalidCharset => "bytes outside the allowed charset"@,
        MiddsFormatError::OutOfBounds => "length or value out of the allowed range"@,
        MiddsFormatError::EmptyMandatoryField => "a mandatory field is empty"@,
        MiddsFormatError::DateInconsistency => "date fields are mutually inconsistent"@,
        MiddsFormatError::CrossFieldInconsistency => "fields are mutually inconsistent"@,
    }
}

impl MiddsFormatError {
    /// The text the error displays as.
    pub fn message(&self) -> (r: &'static str)
        ensures
            r@ == format_error_message(*self),
    {
        match self {
            MiddsFormatError::InvalidIdentifierStructure => "identifier structure is invalid",
            MiddsFormatError::InvalidCharset => "bytes outside the allowed charset",
            MiddsFormatError::OutOfBounds => "length or value out of the allowed range",
            MiddsFormatError::EmptyMandatoryField => "a mandatory field is empty",
            MiddsFormatError::DateInconsistency => "date fields are mutually inconsistent",
            MiddsFormatError::CrossFieldInconsistency => "fields are mutually inconsistent",
        }
    }
}

} // verus!
