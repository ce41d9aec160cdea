//! Warning-only check-digit verifiers for canonical industry identifiers.
//!
//! Real-world data published by collection societies regularly carries bad
//! check digits, so these never gate anything: they return a [`CheckResult`]
//! for tooling (CLI lint, client-side warnings).
use vstd::prelude::*;

use crate::identifier::{
    digits_between, is_digit, isrc_format, validate_isrc_format, Ipi, Isni, Isrc, Iswc, Upc,
};

verus! {

/// Outcome of a checksum verification. Always advisory.
#[derive(Debug, Clone, Copy, PartialEq, Eq, Structural)]
pub enum CheckResult {
    /// Check digit matches.
    Pass,
    /// Check digit does not match.
    Fail,
    /// Identifier shape is malformed; running the algorithm makes no sense.
    NotApplicable,
}

/// Numeric value of an ASCII digit byte.
pub open spec fn digit_value(b: u8) -> int {
    b as int - 48
}

/// `sum_{i < k} value(s[from + i]) * (i + 1)`: the CISAC weighting.
pub open spec fn ascending_weighted_sum(s: Seq<u8>, from: int, k: int) -> int
    decreases k,
{
    if k <= 0 {
        0
    } else {
        ascending_weighted_sum(s, from, k - 1) + digit_value(s[from + k - 1]) * k
    }
}

/// `(10 - sum mod 10) mod 10`: the mod-10 check digit of a weighted sum.
pub open spec fn mod10_check_digit(sum: int) -> int {
    (10 - sum % 10) % 10
}

/// ISO 7064 MOD 11,2 running remainder over the first `k` digits of `s`.
pub open spec fn mod11_2_remainder(s: Seq<u8>, k: int) -> int
    decreases k,
{
    if k <= 0 {
        0
    } else {
        ((mod11_2_remainder(s, k - 1) + digit_value(s[k - 1])) * 2) % 11
    }
}

/// GS1 weight of position `j` among `len` data digits: 3 for the rightmost
/// data digit, then alternating 1, 3, … towards the left.
pub open spec fn gs1_weight(len: int, j: int) -> int {
    if (len - 1 - j) % 2 == 0 {
        3
    } else {
        1
    }
}

/// GS1 weighted sum of the first `k` of `len` data digits of `s`.
pub open spec fn gs1_sum(s: Seq<u8>, len: int, k: int) -> int
    decreases k,
{
    if k <= 0 {
        0
    } else {
        gs1_sum(s, len, k - 1) + digit_value(s[k - 1]) * gs1_weight(len, k - 1)
    }
}

/// Expected verdict of the ISWC check (CISAC weighted mod 10).
pub open spec fn iswc_checksum_spec(s: Seq<u8>) -> CheckResult {
    if s.len() != 11 || s[0] != 84u8 || !digits_between(s, 1, 11) {
        CheckResult::NotApplicable
    } else if mod10_check_digit(ascending_weighted_sum(s, 1, 9)) == digit_value(s[10]) {
        CheckResult::Pass
    } else {
        CheckResult::Fail
    }
}

/// Value of the ISNI check character (`X` stands for 10).
pub open spec fn isni_check_value(b: u8) -> int {
    if b == 88u8 {
        10
    } else {
        digit_value(b)
    }
}

/// Expected verdict of the ISNI check (ISO 7064 MOD 11,2).
pub open spec fn isni_checksum_spec(s: Seq<u8>) -> CheckResult {
    if s.len() != 16 || !digits_between(s, 0, 15) || !(is_digit(s[15]) || s[15] == 88u8) {
        CheckResult::NotApplicable
    } else if (12 - mod11_2_remainder(s, 15)) % 11 == isni_check_value(s[15]) {
        CheckResult::Pass
    } else {
        CheckResult::Fail
    }
}

/// Expected verdict of the ISRC "check": structure only (ISO 3901 defines no
/// check digit).
pub open spec fn isrc_checksum_spec(s: Seq<u8>) -> CheckResult {
    if isrc_format(s) is Ok {
        CheckResult::Pass
    } else {
        CheckResult::NotApplicable
    }
}

/// Expected verdict of the best-effort IPI check (weighted mod 10 over all
/// but the last digit).
pub open spec fn ipi_checksum_spec(s: Seq<u8>) -> CheckResult {
    if s.len() < 9 || s.len() > 11 || !digits_between(s, 0, s.len() as int) {
        CheckResult::NotApplicable
    } else if mod10_check_digit(ascending_weighted_sum(s, 0, s.len() - 1)) == digit_value(
        s[s.len() - 1],
    ) {
        CheckResult::Pass
    } else {
        CheckResult::Fail
    }
}

/// Expected verdict of the UPC / EAN check (GS1 mod 10).
pub open spec fn upc_checksum_spec(s: Seq<u8>) -> CheckResult {
    if (s.len() != 12 && s.len() != 13) || !digits_between(s, 0, s.len() as int) {
        CheckResult::NotApplicable
    } else if mod10_check_digit(gs1_sum(s, s.len() - 1, s.len() - 1)) == digit_value(
        s[s.len() - 1],
    ) {
        CheckResult::Pass
    } else {
        CheckResult::Fail
    }
}

/// `ascending_weighted_sum` of `k` digits at `from`, computed exactly.
pub(crate) fn ascending_sum(b: &[u8], from: usize, k: usize) -> (r: u32)
    requires
        from + k <= b@.len(),
        k <= 11,
        digits_between(b@, from as int, from + k),
    ensures
        r == ascending_weighted_sum(b@, from as int, k as int),
{
    let mut sum: u32 = 0;
    let mut i: usize = 0;
    while i < k
        invariant
            from + k <= b.len(),
            k <= 11,
            digits_between(b@, from as int, from + k),
            i <= k,
            sum == ascending_weighted_sum(b@, from as int, i as int),
            sum <= 9 * i * (i + 1) / 2,
        decreases k - i,
    {
        let idx: usize = from + i;
        assert(is_digit(b@[idx as int]));
        let d = (b[idx] - 48) as u32;
        assert(d * (i + 1) <= 9 * (i + 1)) by (nonlinear_arith)
            requires
                d <= 9,
        ;
        assert(9 * i * (i + 1) / 2 + 9 * (i + 1) == 9 * (i + 1) * (i + 2) / 2) by (nonlinear_arith);
        assert(9 * i * (i + 1) / 2 <= 9 * 11 * 12 / 2) by (nonlinear_arith)
            requires
                i <= 11,
        ;
        sum = sum + d * (i as u32 + 1);
        i += 1;
    }
    sum
}

/// Verifies the ISWC check digit with the CISAC weighted mod-10 algorithm:
/// weights `1..=9` over the 9-digit work code, expected check digit
/// `(10 − sum mod 10) mod 10`.
pub fn verify_iswc_checksum(iswc: &Iswc) -> (r: CheckResult)
    ensures
        r == iswc_checksum_spec(iswc@),
{
    let b = iswc.as_slice();
    if b.len() != 11 || b[0] != 84 || !crate::identifier::all_digits(b, 1, 11) {
        return CheckResult::NotApplicable;
    }
    let sum = ascending_sum(b, 1, 9);
    let expected = (10 - sum % 10) % 10;
    assert(is_digit(b@[10]));
    if expected == (b[10] - 48) as u32 {
        CheckResult::Pass
    } else {
        CheckResult::Fail
    }
}

/// Verifies the ISNI check character with ISO 7064 MOD 11,2 over the 15
/// leading digits; the trailing char may be a digit or `X` (10).
pub fn verify_isni_checksum(isni: &Isni) -> (r: CheckResult)
    ensures
        r == isni_checksum_spec(isni@),
{
    let b = isni.as_slice();
    if b.len() != 16 || !crate::identifier::all_digits(b, 0, 15) {
        return CheckResult::NotApplicable;
    }
    let last = b[15];
    let parsed: u32 = if last == 88 {
        10
    } else if 48 <= last && last <= 57 {
        (last - 48) as u32
    } else {
        return CheckResult::NotApplicable;
    };
    let mut r: u32 = 0;
    let mut i: usize = 0;
    while i < 15
        invariant
            b@.len() == 16,
            digits_between(b@, 0, 15),
            i <= 15,
            r == mod11_2_remainder(b@, i as int),
            r < 11,
        decreases 15 - i,
    {
        assert(is_digit(b@[i as int]));
        let d = (b[i] - 48) as u32;
        r = ((r + d) * 2) % 11;
        i += 1;
    }
    let expected = (12 - r) % 11;
    if expected == parsed {
        CheckResult::Pass
    } else {
        CheckResult::Fail
    }
}

/// Verifies an ISRC's structure. ISO 3901 defines no check digit, so `Pass`
/// means "well-formed" and `NotApplicable` means "malformed"; never `Fail`.
pub fn verify_isrc_checksum(isrc: &Isrc) -> (r: CheckResult)
    ensures
        r == isrc_checksum_spec(isrc@),
{
    match validate_isrc_format(isrc.as_slice()) {
        Ok(()) => CheckResult::Pass,
        Err(_) => CheckResult::NotApplicable,
    }
}

/// Best-effort weighted mod-10 sanity check on an IPI Name Number (weights
/// `1, 2, …` over all digits but the last, which is the check digit).
pub fn verify_ipi_checksum(ipi: &Ipi) -> (r: CheckResult)
    ensures
        r == ipi_checksum_spec(ipi@),
{
    let b = ipi.as_slice();
    let len = b.len();
    if len < 9 || len > 11 || !crate::identifier::all_digits(b, 0, len) {
        return CheckResult::NotApplicable;
    }
    let sum = ascending_sum(b, 0, len - 1);
    let expected = (10 - sum % 10) % 10;
    assert(is_digit(b@[len - 1]));
    if expected == (b[len - 1] - 48) as u32 {
        CheckResult::Pass
    } else {
        CheckResult::Fail
    }
}

/// GS1 weighted sum of the `len` data digits of `b`.
pub(crate) fn gs1_weighted_sum(b: &[u8], len: usize) -> (r: u32)
    requires
        len <= b@.len(),
        len <= 13,
        digits_between(b@, 0, len as int),
    ensures
        r == gs1_sum(b@, len as int, len as int),
{
    let mut sum: u32 = 0;
    let mut i: usize = 0;
    while i < len
        invariant
            len <= b@.len(),
            len <= 13,
            digits_between(b@, 0, len as int),
            i <= len,
            sum == gs1_sum(b@, len as int, i as int),
            sum <= 27 * i,
        decreases len - i,
    {
        assert(is_digit(b@[i as int]));
        let d = (b[i] - 48) as u32;
        let w: u32 = if (len - 1 - i) % 2 == 0 {
            3
        } else {
            1
        };
        sum = sum + d * w;
        i += 1;
    }
    sum
}

/// Verifies the UPC / EAN check digit with the GS1 mod-10 algorithm: from
/// the rightmost data digit, weights alternate `3, 1, 3, …`; the expected
/// check digit is `(10 − sum mod 10) mod 10`. Works for 12 and 13 digits.
pub fn verify_upc_checksum(upc: &Upc) -> (r: CheckResult)
    ensures
        r == upc_checksum_spec(upc@),
{
    let b = upc.as_slice();
    let len = b.len();
    if (len != 12 && len != 13) || !crate::identifier::all_digits(b, 0, len) {
        return CheckResult::NotApplicable;
    }
    let sum = gs1_weighted_sum(b, len - 1);
    let expected = (10 - sum % 10) % 10;
    assert(is_digit(b@[len - 1]));
    if expected == (b[len - 1] - 48) as u32 {
        CheckResult::Pass
    } else {
        CheckResult::Fail
    }
}

} // verus!
