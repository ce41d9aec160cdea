//! Error types surfaced by the tolerant parsers and the builders.
use vstd::prelude::*;
use vstd::string::StringExecFns;

use crate::text::{decimal_chars, decimal_string};

verus! {

/// Reason a tolerant parser refused an input.
#[derive(Debug, Clone, Copy, PartialEq, Eq, Structural)]
pub enum ParseError {
    /// Input did not match the canonical pattern.
    PatternMismatch,
    /// The normalised value would exceed the on-chain capacity.
    OutOfBounds,
}

/// Human-readable description of a [`ParseError`].
pub open spec fn parse_error_message(e: ParseError) -> Seq<char> {
    match e {
        ParseError::PatternMismatch => "input does not match the expected identifier pattern"@,
        ParseError::OutOfBounds => "normalised value exceeds the on-chain capacity"@,
    }
}

impl ParseError {
    /// The text the error displays as.
    pub fn message(&self) -> (r: &'static str)
        ensures
            r@ == parse_error_message(*self),
    {
        match self {
            ParseError::PatternMismatch => "input does not match the expected identifier pattern",
            ParseError::OutOfBounds => "normalised value exceeds the on-chain capacity",
        }
    }
}

/// Per-field diagnostic emitted by a builder during finalisation. Builders
/// aggregate one of these per failing input so the caller can surface the
/// full list at once.
#[derive(Debug, Clone, PartialEq, Eq)]
pub struct FieldError {
    /// Builder input whose value failed validation (e.g. `"iswc"`,
    /// `"title"`, `"creators[2]"`).
    pub field: &'static str,
    /// Human-readable cause.
    pub message: String,
}

/// Spec-level picture of a [`FieldError`]: the field name and the message.
pub open spec fn field_error_view(e: FieldError) -> (Seq<char>, Seq<char>) {
    (e.field@, e.message@)
}

/// Aggregated outcome of a builder's `build()` call.
#[derive(Debug, Clone)]
pub enum BuildError {
    /// Required field never set (e.g. `iswc`, `title`, no creator).
    Missing(&'static str),
    /// One or more fields rejected, every diagnostic preserved in input
    /// order.
    Fields(Vec<FieldError>),
}

/// Human-readable description of a [`BuildError`].
pub open spec fn build_error_message(e: BuildError) -> Seq<char> {
    match e {
        BuildError::Missing(f) => "missing required field: "@ + f@,
        BuildError::Fields(v) => decimal_chars(v@.len()) + " field(s) failed validation"@,
    }
}

impl BuildError {
    /// The text the error displays as.
    pub fn message(&self) -> (r: String)
        ensures
            r@ == build_error_message(*self),
    {
        match self {
            BuildError::Missing(f) => {
                let mut m = String::from_str("missing required field: ");
                m.append(f);
                m
            },
            BuildError::Fields(v) => {
                let mut m = decimal_string(v.len() as u64);
                m.append(" field(s) failed validation");
                m
            },
        }
    }
}

} // verus!
