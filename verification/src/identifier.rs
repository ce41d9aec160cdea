//! Canonical industry-identifier aliases and their on-chain format rules.
//!
//! The `validate_*_format` functions enforce **structure only** (length,
//! charset, prefix) — deliberately not check digits: real-world registries
//! publish records with bad checksums, so checksum verification is
//! warning-only and lives in the `checksum` module.
use vstd::prelude::*;

use crate::bounded::MiddsString;
use crate::format_error::MiddsFormatError;

verus! {

/// Per-instance unique on-chain identifier of a MIDDS record.
pub type MiddsId = u64;

/// ISWC: `T` followed by 10 decimal digits (the last is the check digit).
pub type Iswc = MiddsString<11>;

/// ISNI: 16 chars — 15 decimal digits + a final digit or `X`.
pub type Isni = MiddsString<16>;

/// IPI: 9 to 11 decimal digits.
pub type Ipi = MiddsString<11>;

/// IPN: International Performer Number — exactly 8 decimal digits.
pub type Ipn = MiddsString<8>;

/// ISRC: 2 alpha country + 3 alphanumeric registrant + 2-digit year + 5 digits.
pub type Isrc = MiddsString<12>;

/// UPC / EAN barcode: a GTIN-12 (12 digits) or GTIN-13 (13 digits).
pub type Upc = MiddsString<13>;

/// Maximum byte length of an off-chain extension hash.
pub const OFFCHAIN_HASH_MAX_LEN: u32 = 64;

/// Off-chain extension hash (opaque on-chain; `CIDv1` by client convention).
pub type OffchainHash = MiddsString<64>;

/// `b` is an ASCII decimal digit.
pub open spec fn is_digit(b: u8) -> bool {
    48 <= b <= 57
}

/// `b` is an ASCII uppercase letter.
pub open spec fn is_upper(b: u8) -> bool {
    65 <= b <= 90
}

/// Every byte of `s` in `[from, to)` is an ASCII decimal digit.
pub open spec fn digits_between(s: Seq<u8>, from: int, to: int) -> bool {
    forall|i: int| from <= i < to ==> #[trigger] is_digit(s[i])
}

/// Every byte of `s` in `[from, to)` is an ASCII uppercase letter.
pub open spec fn uppers_between(s: Seq<u8>, from: int, to: int) -> bool {
    forall|i: int| from <= i < to ==> #[trigger] is_upper(s[i])
}

/// Every byte of `s` in `[from, to)` is an ASCII uppercase letter or digit.
pub open spec fn upper_alnums_between(s: Seq<u8>, from: int, to: int) -> bool {
    forall|i: int| from <= i < to ==> is_upper(#[trigger] s[i]) || is_digit(s[i])
}

/// Outcome of the ISWC structure rule: length, then `T` prefix, then digits.
pub open spec fn iswc_format(s: Seq<u8>) -> Result<(), MiddsFormatError> {
    if s.len() != 11 {
        Err(MiddsFormatError::OutOfBounds)
    } else if s[0] != 84u8 {
        Err(MiddsFormatError::InvalidIdentifierStructure)
    } else if !digits_between(s, 1, 11) {
        Err(MiddsFormatError::InvalidCharset)
    } else {
        Ok(())
    }
}

/// Outcome of the ISNI structure rule: 15 digits then a digit or `X`.
pub open spec fn isni_format(s: Seq<u8>) -> Result<(), MiddsFormatError> {
    if s.len() != 16 {
        Err(MiddsFormatError::OutOfBounds)
    } else if !digits_between(s, 0, 15) || !(is_digit(s[15]) || s[15] == 88u8) {
        Err(MiddsFormatError::InvalidCharset)
    } else {
        Ok(())
    }
}

/// Outcome of the IPI structure rule: 9 to 11 digits.
pub open spec fn ipi_format(s: Seq<u8>) -> Result<(), MiddsFormatError> {
    if s.len() < 9 || s.len() > 11 {
        Err(MiddsFormatError::OutOfBounds)
    } else if !digits_between(s, 0, s.len() as int) {
        Err(MiddsFormatError::InvalidCharset)
    } else {
        Ok(())
    }
}

/// Outcome of the IPN structure rule: exactly 8 digits.
pub open spec fn ipn_format(s: Seq<u8>) -> Result<(), MiddsFormatError> {
    if s.len() != 8 {
        Err(MiddsFormatError::OutOfBounds)
    } else if !digits_between(s, 0, 8) {
        Err(MiddsFormatError::InvalidCharset)
    } else {
        Ok(())
    }
}

/// Outcome of the ISRC structure rule: 2 uppercase letters, 3 uppercase
/// letters or digits, then 7 digits.
pub open spec fn isrc_format(s: Seq<u8>) -> Result<(), MiddsFormatError> {
    if s.len() != 12 {
        Err(MiddsFormatError::OutOfBounds)
    } else if !uppers_between(s, 0, 2) || !upper_alnums_between(s, 2, 5) || !digits_between(
        s,
        5,
        12,
    ) {
        Err(MiddsFormatError::InvalidCharset)
    } else {
        Ok(())
    }
}

/// Outcome of the UPC structure rule: 12 or 13 digits.
pub open spec fn upc_format(s: Seq<u8>) -> Result<(), MiddsFormatError> {
    if s.len() != 12 && s.len() != 13 {
        Err(MiddsFormatError::OutOfBounds)
    } else if !digits_between(s, 0, s.len() as int) {
        Err(MiddsFormatError::InvalidCharset)
    } else {
        Ok(())
    }
}

/// Outcome of the off-chain hash rule: a present hash is non-empty.
pub open spec fn offchain_hash_format(s: Seq<u8>) -> Result<(), MiddsFormatError> {
    if s.len() == 0 {
        Err(MiddsFormatError::EmptyMandatoryField)
    } else {
        Ok(())
    }
}

/// Outcome of the optional off-chain hash rule.
pub open spec fn offchain_opt_check(h: Option<OffchainHash>) -> Result<(), MiddsFormatError> {
    match h {
        Some(x) => offchain_hash_format(x@),
        None => Ok(()),
    }
}

/// Whether every byte of `b` in `[from, to)` is an ASCII digit.
pub fn all_digits(b: &[u8], from: usize, to: usize) -> (r: bool)
    requires
        from <= to <= b@.len(),
    ensures
        r == digits_between(b@, from as int, to as int),
{
    let mut i: usize = from;
    while i < to
        invariant
            from <= i <= to <= b@.len(),
            digits_between(b@, from as int, i as int),
        decreases to - i,
    {
        if !(48u8 <= b[i] && b[i] <= 57u8) {
            assert(!is_digit(b@[i as int]));
            return false;
        }
        i += 1;
    }
    true
}

/// Whether every byte of `b` in `[from, to)` is an ASCII uppercase letter.
fn all_uppers(b: &[u8], from: usize, to: usize) -> (r: bool)
    requires
        from <= to <= b@.len(),
    ensures
        r == uppers_between(b@, from as int, to as int),
{
    let mut i: usize = from;
    while i < to
        invariant
            from <= i <= to <= b@.len(),
            uppers_between(b@, from as int, i as int),
        decreases to - i,
    {
        if !(65u8 <= b[i] && b[i] <= 90u8) {
            assert(!is_upper(b@[i as int]));
            return false;
        }
        i += 1;
    }
    true
}

/// Whether every byte of `b` in `[from, to)` is an uppercase letter or digit.
fn all_upper_alnums(b: &[u8], from: usize, to: usize) -> (r: bool)
    requires
        from <= to <= b@.len(),
    ensures
        r == upper_alnums_between(b@, from as int, to as int),
{
    let mut i: usize = from;
    while i < to
        invariant
            from <= i <= to <= b@.len(),
            upper_alnums_between(b@, from as int, i as int),
        decreases to - i,
    {
        let c = b[i];
        if !((65u8 <= c && c <= 90u8) || (48u8 <= c && c <= 57u8)) {
            assert(!(is_upper(b@[i as int]) || is_digit(b@[i as int])));
            return false;
        }
        i += 1;
    }
    true
}

/// Validates the structure of an [`Iswc`]: `T` followed by 10 decimal digits.
/// Errors: `OutOfBounds` on a wrong length, `InvalidIdentifierStructure` on a
/// missing `T` prefix, `InvalidCharset` on a non-digit payload.
pub fn validate_iswc_format(b: &[u8]) -> (r: Result<(), MiddsFormatError>)
    ensures
        r == iswc_format(b@),
{
    if b.len() != 11 {
        return Err(MiddsFormatError::OutOfBounds);
    }
    if b[0] != 84u8 {
        return Err(MiddsFormatError::InvalidIdentifierStructure);
    }
    if !all_digits(b, 1, 11) {
        return Err(MiddsFormatError::InvalidCharset);
    }
    Ok(())
}

/// Validates the structure of an [`Isni`]: 15 decimal digits plus a final
/// digit or `X`. Errors: `OutOfBounds` on a wrong length, `InvalidCharset` on
/// any other malformed byte.
pub fn validate_isni_format(b: &[u8]) -> (r: Result<(), MiddsFormatError>)
    ensures
        r == isni_format(b@),
{
    if b.len() != 16 {
        return Err(MiddsFormatError::OutOfBounds);
    }
    if !all_digits(b, 0, 15) {
        return Err(MiddsFormatError::InvalidCharset);
    }
    let last = b[15];
    if !(48u8 <= last && last <= 57u8) && last != 88u8 {
        return Err(MiddsFormatError::InvalidCharset);
    }
    Ok(())
}

/// Validates the structure of an [`Ipi`]: 9 to 11 decimal digits.
/// Errors: `OutOfBounds` on a wrong length, `InvalidCharset` on a non-digit.
pub fn validate_ipi_format(b: &[u8]) -> (r: Result<(), MiddsFormatError>)
    ensures
        r == ipi_format(b@),
{
    if b.len() < 9 || b.len() > 11 {
        return Err(MiddsFormatError::OutOfBounds);
    }
    if !all_digits(b, 0, b.len()) {
        return Err(MiddsFormatError::InvalidCharset);
    }
    Ok(())
}

/// Validates the structure of an [`Ipn`]: exactly 8 decimal digits.
/// Errors: `OutOfBounds` on a wrong length, `InvalidCharset` on a non-digit.
pub fn validate_ipn_format(b: &[u8]) -> (r: Result<(), MiddsFormatError>)
    ensures
        r == ipn_format(b@),
{
    if b.len() != 8 {
        return Err(MiddsFormatError::OutOfBounds);
    }
    if !all_digits(b, 0, 8) {
        return Err(MiddsFormatError::InvalidCharset);
    }
    Ok(())
}

/// Validates the structure of an [`Isrc`]: 2 uppercase country letters, 3
/// alphanumeric registrant characters, then 7 decimal digits.
/// Errors: `OutOfBounds` on a wrong length, `InvalidCharset` on any malformed
/// segment.
pub fn validate_isrc_format(b: &[u8]) -> (r: Result<(), MiddsFormatError>)
    ensures
        r == isrc_format(b@),
{
    if b.len() != 12 {
        return Err(MiddsFormatError::OutOfBounds);
    }
    if !all_uppers(b, 0, 2) {
        return Err(MiddsFormatError::InvalidCharset);
    }
    if !all_upper_alnums(b, 2, 5) {
        return Err(MiddsFormatError::InvalidCharset);
    }
    if !all_digits(b, 5, 12) {
        return Err(MiddsFormatError::InvalidCharset);
    }
    Ok(())
}

/// Validates the structure of a [`Upc`]: UPC-A (12 digits) or EAN-13 (13
/// digits). The check digit is not verified here.
/// Errors: `OutOfBounds` on a wrong length, `InvalidCharset` on a non-digit.
pub fn validate_upc_format(b: &[u8]) -> (r: Result<(), MiddsFormatError>)
    ensures
        r == upc_format(b@),
{
    if b.len() != 12 && b.len() != 13 {
        return Err(MiddsFormatError::OutOfBounds);
    }
    if !all_digits(b, 0, b.len()) {
        return Err(MiddsFormatError::InvalidCharset);
    }
    Ok(())
}

/// Validates a present off-chain extension hash: it must be non-empty.
/// Errors: `EmptyMandatoryField` on an empty hash.
pub fn validate_offchain_hash(b: &[u8]) -> (r: Result<(), MiddsFormatError>)
    ensures
        r == offchain_hash_format(b@),
{
    if b.len() == 0 {
        return Err(MiddsFormatError::EmptyMandatoryField);
    }
    Ok(())
}

} // verus!
