//! The interface every MIDDS payload implements.
use vstd::prelude::*;

use crate::format_error::MiddsFormatError;

verus! {

/// Common interface implemented by every MIDDS payload type.
///
/// The associated `Identifier` is the canonical industry code (ISWC for a
/// musical work, ISRC for a recording, UPC for a release) backing the
/// reverse uniqueness index.
pub trait Midds {
    /// Stable, human-readable type discriminator (PascalCase singular).
    const KIND: &'static str;

    /// Canonical industry identifier used for the reverse uniqueness index.
    type Identifier;

    /// The identifier this record carries.
    spec fn identifier_spec(&self) -> Self::Identifier;

    /// The outcome the structural rules give for this record.
    spec fn format_rules(&self) -> Result<(), MiddsFormatError>;

    /// Borrows the canonical identifier of this record.
    fn identifier(&self) -> (r: &Self::Identifier)
        ensures
            *r == self.identifier_spec(),
    ;

    /// Charset / length / structure validation. Does not verify checksums.
    fn validate_format(&self) -> (r: Result<(), MiddsFormatError>)
        ensures
            r == self.format_rules(),
    ;
}

} // verus!
