//! Synthetic, checksum-correct identifier generators.
//!
//! These produce identifiers whose check digits actually verify (CISAC
//! mod-10 for ISWC / IPI, ISO 7064 MOD 11,2 for ISNI, GS1 mod-10 for UPC).
//! On-chain validation is structural only and accepts broken check digits,
//! but the warning-only verifiers flag them, so generating valid ones keeps
//! test corpora clean and exercises the verifiers' success path.
//!
//! The `_for_index` variants derive an identifier from a sequence number
//! and are injective over the ranges stated on their laws, so a batch built
//! from indices `0..N` has unique canonical identifiers.
use vstd::prelude::*;

use crate::bounded::Bounded;
use crate::checksum::{
    ascending_sum, ascending_weighted_sum, digit_value, gs1_sum, gs1_weight, ipi_checksum_spec,
    isni_checksum_spec, iswc_checksum_spec, mod10_check_digit, mod11_2_remainder,
    upc_checksum_spec, CheckResult,
};
use crate::fixtures::draws::{
    alnum_byte, alnum_draw, digit_byte_draw, digit_draw, ipi_draw, isni_draw, isrc_country,
    isrc_draw,
};
use crate::fixtures::rng::{draw_u64, repeat, rng_draw, rng_word, FixtureRng};
use crate::identifier::{
    digits_between, ipi_format, ipn_format, is_digit, is_upper, isni_format, isrc_format,
    iswc_format, upc_format, Ipi, Ipn, Isni, Isrc, Iswc, Upc,
};

verus! {

/// `10^w`.
pub open spec fn pow10(w: nat) -> nat
    decreases w,
{
    if w == 0 {
        1
    } else {
        10 * pow10((w - 1) as nat)
    }
}

/// The `w` low decimal digits of `n` as ASCII bytes, most significant
/// first, zero-padded.
pub open spec fn fixed_digits(n: nat, w: nat) -> Seq<u8>
    decreases w,
{
    if w == 0 {
        seq![]
    } else {
        fixed_digits(n / 10, (w - 1) as nat).push((48 + n % 10) as u8)
    }
}

/// The ASCII byte of digit value `d`.
pub open spec fn digit_byte(d: nat) -> u8 {
    (48 + d) as u8
}

/// The ISWC built from a work code: `T`, the nine digits of
/// `code % 10^9`, and the CISAC mod-10 check digit.
pub open spec fn iswc_for_code(code: nat) -> Seq<u8> {
    let t = seq![84u8] + fixed_digits(code % 1_000_000_000, 9);
    t.push(digit_byte(mod10_check_digit(ascending_weighted_sum(t, 1, 9)) as nat))
}

/// The IPI built from a stem: the `len` low digits of `stem`, the last one
/// replaced by the CISAC mod-10 check digit of the others.
pub open spec fn ipi_for_stem(stem: nat, len: nat) -> Seq<u8> {
    let d = fixed_digits(stem % pow10(len), len);
    d.update(
        len - 1,
        digit_byte(mod10_check_digit(ascending_weighted_sum(d, 0, len - 1)) as nat),
    )
}

/// The ISNI check character for a MOD 11,2 remainder: `X` for 10.
pub open spec fn isni_check_char(r: int) -> u8 {
    let c = (12 - r) % 11;
    if c == 10 {
        88u8
    } else {
        digit_byte(c as nat)
    }
}

/// The ISNI built from fifteen raw digits (each taken modulo 10) and its
/// MOD 11,2 check character.
pub open spec fn isni_for_body(body: Seq<u8>) -> Seq<u8> {
    let d = body.map_values(|b: u8| digit_byte((b % 10) as nat));
    d.push(isni_check_char(mod11_2_remainder(d, 15)))
}

/// The ISRC built from an index: `USRC`, the registrant digit
/// `(index / 10^5) % 10`, the year `(index / 10^6) % 100` and the
/// designation `index % 10^5`.
pub open spec fn isrc_for(index: nat) -> Seq<u8> {
    seq![85u8, 83u8, 82u8, 67u8, digit_byte((index / 100_000) % 10)] + fixed_digits(
        (index / 1_000_000) % 100,
        2,
    ) + fixed_digits(index % 100_000, 5)
}

/// Left-to-right GTIN weighted sum of the first `k` digit values of `data`
/// (weights `1, 3, 1, 3, …`).
pub open spec fn gtin_sum(data: Seq<u8>, k: int) -> int
    decreases k,
{
    if k <= 0 {
        0
    } else {
        gtin_sum(data, k - 1) + data[k - 1] * (if (k - 1) % 2 == 0 {
            1int
        } else {
            3int
        })
    }
}

/// The UPC built from an index: the twelve low digits of the index as an
/// EAN-13 body, and the GS1 check digit.
pub open spec fn upc_for(index: nat) -> Seq<u8> {
    let d = fixed_digits(index % 1_000_000_000_000, 12);
    d.push(digit_byte(mod10_check_digit(gs1_sum(d, 12, 12)) as nat))
}

/// The `w` low decimal digits of `n`.
fn digits_of(n: u64, w: usize) -> (r: Vec<u8>)
    ensures
        r@ == fixed_digits(n as nat, w as nat),
    decreases w,
{
    if w == 0 {
        Vec::new()
    } else {
        let mut v = digits_of(n / 10, w - 1);
        v.push(48 + (n % 10) as u8);
        v
    }
}

/// Fixed-width digits are ASCII digits.
proof fn lemma_fixed_digits(n: nat, w: nat)
    ensures
        fixed_digits(n, w).len() == w,
        digits_between(fixed_digits(n, w), 0, w as int),
    decreases w,
{
    if w > 0 {
        lemma_fixed_digits(n / 10, (w - 1) as nat);
    }
}

/// A weighted sum only reads its own window.
proof fn lemma_ascending_window(s1: Seq<u8>, s2: Seq<u8>, from: int, k: int)
    requires
        0 <= from,
        from + k <= s1.len(),
        from + k <= s2.len(),
        forall|i: int| from <= i < from + k ==> s1[i] == s2[i],
    ensures
        ascending_weighted_sum(s1, from, k) == ascending_weighted_sum(s2, from, k),
    decreases k,
{
    if k > 0 {
        lemma_ascending_window(s1, s2, from, k - 1);
    }
}

/// The MOD 11,2 remainder only reads its prefix.
proof fn lemma_mod11_window(s1: Seq<u8>, s2: Seq<u8>, k: int)
    requires
        k <= s1.len(),
        k <= s2.len(),
        forall|i: int| 0 <= i < k ==> s1[i] == s2[i],
    ensures
        mod11_2_remainder(s1, k) == mod11_2_remainder(s2, k),
    decreases k,
{
    if k > 0 {
        lemma_mod11_window(s1, s2, k - 1);
    }
}

/// The GS1 sum only reads its prefix.
proof fn lemma_gs1_window(s1: Seq<u8>, s2: Seq<u8>, len: int, k: int)
    requires
        k <= s1.len(),
        k <= s2.len(),
        forall|i: int| 0 <= i < k ==> s1[i] == s2[i],
    ensures
        gs1_sum(s1, len, k) == gs1_sum(s2, len, k),
    decreases k,
{
    if k > 0 {
        lemma_gs1_window(s1, s2, len, k - 1);
    }
}

/// Builds an ISWC from a nine-digit work code (taken modulo `10^9`) with
/// the correct CISAC mod-10 check digit. It passes the on-chain rule and
/// the check-digit verifier.
pub fn iswc_from_work_code(work_code: u32) -> (r: Iswc)
    ensures
        r@ == iswc_for_code(work_code as nat),
        iswc_format(r@) is Ok,
        iswc_checksum_spec(r@) == CheckResult::Pass,
{
    let body = work_code % 1_000_000_000;
    let mut bytes: Vec<u8> = Vec::new();
    bytes.push(84);
    let digits = digits_of(body as u64, 9);
    let mut k: usize = 0;
    proof {
        lemma_fixed_digits(body as nat, 9);
    }
    while k < 9
        invariant
            k <= 9,
            digits@ == fixed_digits(body as nat, 9),
            digits@.len() == 9,
            bytes@ =~= seq![84u8] + digits@.subrange(0, k as int),
        decreases 9 - k,
    {
        bytes.push(digits[k]);
        k += 1;
    }
    let ghost t = bytes@;
    assert(t =~= seq![84u8] + fixed_digits(work_code as nat % 1_000_000_000, 9));
    assert(digits_between(t, 1, 10));
    let sum = ascending_sum(bytes.as_slice(), 1, 9);
    let check: u8 = ((10 - sum % 10) % 10) as u8;
    bytes.push(48 + check);
    proof {
        lemma_ascending_window(t, bytes@, 1, 9);
        assert(is_digit(bytes@[10]));
        assert(digits_between(bytes@, 1, 11));
    }
    match Bounded::try_new(bytes) {
        Ok(v) => v,
        Err(_) => Bounded::new(),
    }
}

/// Maps an index to an ISWC (the work code is the index modulo `10^9`).
pub fn iswc_for_index(index: u32) -> (r: Iswc)
    ensures
        r@ == iswc_for_code(index as nat),
        iswc_format(r@) is Ok,
        iswc_checksum_spec(r@) == CheckResult::Pass,
{
    iswc_from_work_code(index)
}

/// `10^w` for `w <= 11`.
fn pow10_exec(w: usize) -> (r: u64)
    requires
        w <= 11,
    ensures
        r == pow10(w as nat),
        r > 0,
{
    let mut m: u64 = 1;
    let mut k: usize = 0;
    while k < w
        invariant
            k <= w <= 11,
            m == pow10(k as nat),
            m <= 100_000_000_000,
            m > 0,
        decreases w - k,
    {
        proof {
            lemma_pow10_bound(k as nat);
        }
        m = m * 10;
        k += 1;
    }
    m
}

/// `10^k` is positive and grows with `k`; `10^10` is ten billion.
proof fn lemma_pow10_bound(k: nat)
    ensures
        k < 11 ==> pow10(k) <= 10_000_000_000,
        pow10(k) > 0,
{
    lemma_pow10_monotone(k, 10);
    lemma_pow10_monotone(0, k);
    assert(pow10(10) == 10_000_000_000) by {
        reveal_with_fuel(pow10, 11);
    }
}

/// `10^a <= 10^b` for `a <= b`.
proof fn lemma_pow10_monotone(a: nat, b: nat)
    ensures
        a <= b ==> pow10(a) <= pow10(b),
        pow10(b) >= 1,
    decreases b,
{
    if b > 0 {
        lemma_pow10_monotone(a, (b - 1) as nat);
    }
}

/// Builds an IPI of `len` digits (9 to 11) from a numeric stem, the last
/// digit replaced by the CISAC mod-10 check digit of the others. It passes
/// the on-chain rule and the check-digit verifier.
pub fn ipi_from_stem(stem: u64, len: usize) -> (r: Ipi)
    requires
        9 <= len <= 11,
    ensures
        r@ == ipi_for_stem(stem as nat, len as nat),
        r@.len() == len,
        ipi_format(r@) is Ok,
        ipi_checksum_spec(r@) == CheckResult::Pass,
{
    let modulus = pow10_exec(len);
    let body = stem % modulus;
    let mut digits = digits_of(body, len);
    proof {
        lemma_fixed_digits(body as nat, len as nat);
    }
    let ghost d = digits@;
    let sum = ascending_sum(digits.as_slice(), 0, len - 1);
    let check: u8 = ((10 - sum % 10) % 10) as u8;
    digits.set(len - 1, 48 + check);
    proof {
        lemma_ascending_window(d, digits@, 0, len - 1);
        assert(digits_between(digits@, 0, len as int));
    }
    match Bounded::try_new(digits) {
        Ok(v) => v,
        Err(_) => Bounded::new(),
    }
}

/// A random IPI with a correct check digit; its length is uniform in 9 to
/// 11.
pub fn ipi_random(rng: &mut FixtureRng) -> (r: Ipi)
    ensures
        ipi_format(r@) is Ok,
        ipi_checksum_spec(r@) == CheckResult::Pass,
        (r@, final(rng)@) == ipi_draw(old(rng)@),
{
    let len = rng_draw(rng, 9, 11);
    let stem = rng_word(rng);
    ipi_from_stem(stem, len as usize)
}

/// Builds an IPN (exactly 8 decimal digits) from the low digits of a stem.
/// IPN has no public check-digit specification, so the digits are emitted
/// as they are.
pub fn ipn_from_stem(stem: u64) -> (r: Ipn)
    ensures
        r@ == fixed_digits(stem as nat % 100_000_000, 8),
        ipn_format(r@) is Ok,
{
    let body = stem % 100_000_000;
    let digits = digits_of(body, 8);
    proof {
        lemma_fixed_digits(body as nat, 8);
    }
    match Bounded::try_new(digits) {
        Ok(v) => v,
        Err(_) => Bounded::new(),
    }
}

/// A random 8-digit IPN.
pub fn ipn_random(rng: &mut FixtureRng) -> (r: Ipn)
    ensures
        ipn_format(r@) is Ok,
        r@ == fixed_digits(draw_u64(old(rng)@).0 as nat % 100_000_000, 8),
        final(rng)@ == draw_u64(old(rng)@).1,
{
    let stem = rng_word(rng);
    ipn_from_stem(stem)
}

/// Builds an ISNI from fifteen raw digits (each taken modulo 10) and its
/// ISO 7064 MOD 11,2 check character (a digit or `X`). It passes the
/// on-chain rule and the check-digit verifier.
pub fn isni_from_body(digits: [u8; 15]) -> (r: Isni)
    ensures
        r@ == isni_for_body(digits@),
        isni_format(r@) is Ok,
        isni_checksum_spec(r@) == CheckResult::Pass,
{
    let mut bytes: Vec<u8> = Vec::new();
    let mut k: usize = 0;
    while k < 15
        invariant
            k <= 15,
            digits@.len() == 15,
            bytes@ =~= digits@.subrange(0, k as int).map_values(
                |b: u8| digit_byte((b % 10) as nat),
            ),
        decreases 15 - k,
    {
        bytes.push(48 + digits[k] % 10);
        k += 1;
    }
    let ghost d = bytes@;
    assert(d =~= digits@.map_values(|b: u8| digit_byte((b % 10) as nat)));
    let mut r: u32 = 0;
    let mut i: usize = 0;
    while i < 15
        invariant
            bytes@ == d,
            d.len() == 15,
            digits_between(d, 0, 15),
            i <= 15,
            r == mod11_2_remainder(d, i as int),
            r < 11,
        decreases 15 - i,
    {
        assert(is_digit(d[i as int]));
        let v = (bytes[i] - 48) as u32;
        r = ((r + v) * 2) % 11;
        i += 1;
    }
    let check = (12 - r) % 11;
    let last: u8 = if check == 10 {
        88
    } else {
        48 + check as u8
    };
    bytes.push(last);
    proof {
        lemma_mod11_window(d, bytes@, 15);
        assert(digits_between(bytes@, 0, 15));
    }
    match Bounded::try_new(bytes) {
        Ok(v) => v,
        Err(_) => Bounded::new(),
    }
}

/// A random ISNI with a correct MOD 11,2 check character.
pub fn isni_random(rng: &mut FixtureRng) -> (r: Isni)
    ensures
        isni_format(r@) is Ok,
        isni_checksum_spec(r@) == CheckResult::Pass,
        (r@, final(rng)@) == isni_draw(old(rng)@),
{
    let ghost s0 = rng@;
    let mut ds: Vec<u8> = Vec::new();
    let mut k: usize = 0;
    while k < 15
        invariant
            k <= 15,
            ds@.len() == k,
            (ds@, rng@) == repeat(s0, k as nat, |x: (u64, nat)| digit_draw(x)),
        decreases 15 - k,
    {
        let d = rng_draw(rng, 0, 9);
        ds.push(d as u8);
        k += 1;
    }
    let body: [u8; 15] = [
        ds[0], ds[1], ds[2], ds[3], ds[4], ds[5], ds[6], ds[7], ds[8], ds[9], ds[10], ds[11],
        ds[12], ds[13], ds[14],
    ];
    assert(body@ =~= ds@);
    isni_from_body(body)
}

/// Builds a structurally valid ISRC from an index: country `US`,
/// registrant `RC` + `(index / 10^5) % 10`, year `(index / 10^6) % 100`,
/// designation the last five digits. ISRC has no check digit (ISO 3901).
pub fn isrc_for_index(index: u32) -> (r: Isrc)
    ensures
        r@ == isrc_for(index as nat),
        isrc_format(r@) is Ok,
{
    let registrant = (index / 100_000) % 10;
    let year = (index / 1_000_000) % 100;
    let designation = index % 100_000;
    let mut bytes: Vec<u8> = Vec::new();
    bytes.push(85);
    bytes.push(83);
    bytes.push(82);
    bytes.push(67);
    bytes.push(48 + registrant as u8);
    let ghost head = bytes@;
    let y = digits_of(year as u64, 2);
    let tail = digits_of(designation as u64, 5);
    proof {
        lemma_fixed_digits(year as nat, 2);
        lemma_fixed_digits(designation as nat, 5);
    }
    bytes.push(y[0]);
    bytes.push(y[1]);
    let mut k: usize = 0;
    while k < 5
        invariant
            k <= 5,
            tail@.len() == 5,
            bytes@ =~= head + y@ + tail@.subrange(0, k as int),
        decreases 5 - k,
    {
        bytes.push(tail[k]);
        k += 1;
    }
    assert(bytes@ =~= isrc_for(index as nat));
    proof {
        assert(forall|i: int| 0 <= i < 2 ==> #[trigger] is_upper(bytes@[i]));
        assert forall|i: int| 5 <= i < 12 implies #[trigger] is_digit(bytes@[i]) by {
            if i < 7 {
                assert(bytes@[i] == y@[i - 5]);
            } else {
                assert(bytes@[i] == tail@[i - 7]);
            }
        }
        assert(forall|i: int| 2 <= i < 5 ==> is_upper(#[trigger] bytes@[i]) || is_digit(bytes@[i]));
    }
    match Bounded::try_new(bytes) {
        Ok(v) => v,
        Err(_) => Bounded::new(),
    }
}

/// A random structurally valid ISRC: a country from a fixed pool of real
/// ISO 3166 codes, three random uppercase alphanumerics, then seven random
/// digits.
pub fn isrc_random(rng: &mut FixtureRng) -> (r: Isrc)
    ensures
        isrc_format(r@) is Ok,
        (r@, final(rng)@) == isrc_draw(old(rng)@),
{
    let ghost s0 = rng@;
    let c = rng_draw(rng, 0, 9);
    let (c0, c1) = isrc_country_bytes(c);
    let ghost s1 = rng@;
    let mut al: Vec<u8> = Vec::new();
    let mut k: usize = 0;
    while k < 3
        invariant
            k <= 3,
            al@.len() == k,
            (al@, rng@) == repeat(s1, k as nat, |x: (u64, nat)| alnum_draw(x)),
            forall|i: int| 0 <= i < k ==> is_upper(#[trigger] al@[i]) || is_digit(al@[i]),
        decreases 3 - k,
    {
        let a = rng_draw(rng, 0, 35);
        let b: u8 = if a < 26 {
            65 + a as u8
        } else {
            48 + (a - 26) as u8
        };
        assert(b == alnum_byte(a));
        al.push(b);
        k += 1;
    }
    let ghost s2 = rng@;
    let mut ds: Vec<u8> = Vec::new();
    let mut k: usize = 0;
    while k < 7
        invariant
            k <= 7,
            ds@.len() == k,
            (ds@, rng@) == repeat(s2, k as nat, |x: (u64, nat)| digit_byte_draw(x)),
            forall|i: int| 0 <= i < k ==> #[trigger] is_digit(ds@[i]),
        decreases 7 - k,
    {
        let d = rng_draw(rng, 0, 9);
        ds.push(48 + d as u8);
        k += 1;
    }
    let ghost a_s = al@;
    let ghost d_s = ds@;
    let mut bytes: Vec<u8> = Vec::new();
    bytes.push(c0);
    bytes.push(c1);
    bytes.append(&mut al);
    bytes.append(&mut ds);
    proof {
        assert(bytes@ =~= isrc_country(c) + a_s + d_s);
        assert forall|i: int| 5 <= i < 12 implies #[trigger] is_digit(bytes@[i]) by {
            assert(bytes@[i] == d_s[i - 5]);
        }
        assert forall|i: int| 2 <= i < 5 implies is_upper(#[trigger] bytes@[i]) || is_digit(
            bytes@[i],
        ) by {
            assert(bytes@[i] == a_s[i - 2]);
        }
        assert(forall|i: int| 0 <= i < 2 ==> #[trigger] is_upper(bytes@[i]));
    }
    match Bounded::try_new(bytes) {
        Ok(v) => v,
        Err(_) => Bounded::new(),
    }
}

/// The two letters of ISRC country pool position `c`.
fn isrc_country_bytes(c: u32) -> (r: (u8, u8))
    ensures
        seq![r.0, r.1] == isrc_country(c),
        is_upper(r.0) && is_upper(r.1),
{
    if c == 0 {
        (85, 83)
    } else if c == 1 {
        (71, 66)
    } else if c == 2 {
        (70, 82)
    } else if c == 3 {
        (68, 69)
    } else if c == 4 {
        (74, 80)
    } else if c == 5 {
        (66, 82)
    } else if c == 6 {
        (78, 76)
    } else if c == 7 {
        (67, 65)
    } else if c == 8 {
        (65, 85)
    } else {
        (83, 69)
    }
}

/// The GTIN mod-10 check digit of digit values `data`: weights `1, 3, 1,
/// 3, …` from the leftmost data digit.
pub fn gtin_check_digit(data: &[u8]) -> (r: u8)
    requires
        data@.len() <= 12,
        forall|i: int| 0 <= i < data@.len() ==> data@[i] < 10,
    ensures
        r == mod10_check_digit(gtin_sum(data@, data@.len() as int)),
{
    let mut sum: u32 = 0;
    let mut i: usize = 0;
    while i < data.len()
        invariant
            data@.len() <= 12,
            forall|j: int| 0 <= j < data@.len() ==> data@[j] < 10,
            i <= data@.len(),
            sum == gtin_sum(data@, i as int),
            sum <= 27 * i,
        decreases data@.len() - i,
    {
        let w: u32 = if i % 2 == 0 {
            1
        } else {
            3
        };
        sum = sum + data[i] as u32 * w;
        i += 1;
    }
    ((10 - sum % 10) % 10) as u8
}

/// `bytes` starts with the ASCII digits of the twelve values `vals`.
pub open spec fn spells_digits(vals: Seq<u8>, bytes: Seq<u8>) -> bool {
    &&& vals.len() == 12
    &&& bytes.len() >= 12
    &&& forall|i: int| 0 <= i < 12 ==> #[trigger] bytes[i] == digit_byte(vals[i] as nat) && vals[i] < 10
}

/// GS1 weighting of an even-length body read right to left equals GTIN
/// weighting read left to right.
proof fn lemma_gtin_is_gs1(vals: Seq<u8>, bytes: Seq<u8>, k: int)
    requires
        0 <= k <= 12,
        spells_digits(vals, bytes),
    ensures
        gs1_sum(bytes, 12, k) == gtin_sum(vals, k),
    decreases k,
{
    if k > 0 {
        lemma_gtin_is_gs1(vals, bytes, k - 1);
        assert(digit_value(bytes[k - 1]) == vals[k - 1]);
        assert(gs1_weight(12, k - 1) == (if (k - 1) % 2 == 0 {
            1int
        } else {
            3int
        }));
    }
}

/// The ASCII digits of the digit values `vals`.
pub open spec fn spelled(vals: Seq<u8>) -> Seq<u8> {
    Seq::new(vals.len(), |i: int| digit_byte(vals[i] as nat))
}

/// The twelve data digits `vals`, spelled in ASCII and followed by the check
/// digit that `gtin_check_digit` computes for them, form a 13-digit code that
/// the GS1 verifier `verify_upc_checksum` accepts.
pub proof fn lemma_gtin_check_digit_passes(vals: Seq<u8>)
    requires
        vals.len() == 12,
        forall|i: int| 0 <= i < 12 ==> vals[i] < 10,
    ensures
        upc_checksum_spec(
            spelled(vals).push(digit_byte(mod10_check_digit(gtin_sum(vals, 12)) as nat)),
        ) == CheckResult::Pass,
{
    let check = mod10_check_digit(gtin_sum(vals, 12));
    let bytes = spelled(vals).push(digit_byte(check as nat));
    assert(spells_digits(vals, bytes));
    lemma_gtin_is_gs1(vals, bytes, 12);
    assert(digits_between(bytes, 0, 13));
}

/// Builds a 13-digit EAN-13 from an index (its twelve low digits) with the
/// correct GS1 check digit. It passes the on-chain rule and the check-digit
/// verifier.
pub fn upc_for_index(index: u32) -> (r: Upc)
    ensures
        r@ == upc_for(index as nat),
        r@.len() == 13,
        upc_format(r@) is Ok,
        upc_checksum_spec(r@) == CheckResult::Pass,
{
    let body = index as u64 % 1_000_000_000_000;
    let digits = digits_of(body, 12);
    proof {
        lemma_fixed_digits(body as nat, 12);
    }
    let mut vals: Vec<u8> = Vec::new();
    let mut k: usize = 0;
    while k < 12
        invariant
            k <= 12,
            digits@.len() == 12,
            digits_between(digits@, 0, 12),
            vals@.len() == k,
            forall|i: int| 0 <= i < k ==> digits@[i] == digit_byte(#[trigger] vals@[i] as nat) && vals@[i] < 10,
        decreases 12 - k,
    {
        assert(is_digit(digits@[k as int]));
        vals.push(digits[k] - 48);
        k += 1;
    }
    let check = gtin_check_digit(vals.as_slice());
    let mut bytes = digits;
    bytes.push(48 + check);
    proof {
        assert(spells_digits(vals@, bytes@));
        assert(spells_digits(vals@, digits@));
        lemma_gtin_is_gs1(vals@, bytes@, 12);
        lemma_gtin_is_gs1(vals@, digits@, 12);
        assert(digits_between(bytes@, 0, 13));
    }
    match Bounded::try_new(bytes) {
        Ok(v) => v,
        Err(_) => Bounded::new(),
    }
}

/// A random 13-digit EAN-13 with a correct GS1 check digit.
pub fn upc_random(rng: &mut FixtureRng) -> (r: Upc)
    ensures
        upc_format(r@) is Ok,
        upc_checksum_spec(r@) == CheckResult::Pass,
        ({
            let (vals, t) = repeat(old(rng)@, 12, |x: (u64, nat)| digit_draw(x));
            &&& r@ == spelled(vals).push(digit_byte(mod10_check_digit(gtin_sum(vals, 12)) as nat))
            &&& final(rng)@ == t
        }),
{
    let ghost s0 = rng@;
    let mut vals: Vec<u8> = Vec::new();
    let mut k: usize = 0;
    while k < 12
        invariant
            k <= 12,
            vals@.len() == k,
            (vals@, rng@) == repeat(s0, k as nat, |x: (u64, nat)| digit_draw(x)),
            forall|i: int| 0 <= i < k ==> #[trigger] vals@[i] < 10,
        decreases 12 - k,
    {
        let d = rng_draw(rng, 0, 9);
        vals.push(d as u8);
        k += 1;
    }
    let check = gtin_check_digit(vals.as_slice());
    let mut bytes: Vec<u8> = Vec::new();
    let mut k: usize = 0;
    while k < 12
        invariant
            k <= 12,
            vals@.len() == 12,
            forall|i: int| 0 <= i < 12 ==> #[trigger] vals@[i] < 10,
            bytes@.len() == k,
            forall|i: int| 0 <= i < k ==> #[trigger] bytes@[i] == digit_byte(vals@[i] as nat),
        decreases 12 - k,
    {
        bytes.push(48 + vals[k]);
        k += 1;
    }
    bytes.push(48 + check);
    proof {
        assert(spells_digits(vals@, bytes@));
        lemma_gtin_is_gs1(vals@, bytes@, 12);
        assert(digits_between(bytes@, 0, 13));
        assert(bytes@ =~= spelled(vals@).push(digit_byte(check as nat)));
    }
    match Bounded::try_new(bytes) {
        Ok(v) => v,
        Err(_) => Bounded::new(),
    }
}

/// Fixed-width digits determine a number below `10^w`.
proof fn lemma_fixed_digits_injective(a: nat, b: nat, w: nat)
    requires
        a < pow10(w),
        b < pow10(w),
        fixed_digits(a, w) == fixed_digits(b, w),
    ensures
        a == b,
    decreases w,
{
    if w > 0 {
        let da = fixed_digits(a, w);
        let db = fixed_digits(b, w);
        assert(da.last() == db.last());
        assert(a % 10 == b % 10);
        assert(da.drop_last() =~= fixed_digits(a / 10, (w - 1) as nat));
        assert(db.drop_last() =~= fixed_digits(b / 10, (w - 1) as nat));
        let p = pow10((w - 1) as nat);
        assert(a / 10 < p && b / 10 < p) by (nonlinear_arith)
            requires
                a < 10 * p,
                b < 10 * p,
        ;
        lemma_fixed_digits_injective(a / 10, b / 10, (w - 1) as nat);
        assert(a == 10 * (a / 10) + a % 10 && b == 10 * (b / 10) + b % 10) by (nonlinear_arith);
    }
}

/// Distinct indices below `10^9` map to distinct ISWCs.
pub proof fn lemma_iswc_for_index_injective(a: u32, b: u32)
    requires
        a < 1_000_000_000,
        b < 1_000_000_000,
        a != b,
    ensures
        iswc_for_code(a as nat) != iswc_for_code(b as nat),
{
    assert(pow10(9) == 1_000_000_000) by {
        reveal_with_fuel(pow10, 10);
    }
    lemma_fixed_digits(a as nat, 9);
    lemma_fixed_digits(b as nat, 9);
    if iswc_for_code(a as nat) == iswc_for_code(b as nat) {
        assert(iswc_for_code(a as nat).subrange(1, 10) =~= fixed_digits(a as nat, 9));
        assert(iswc_for_code(b as nat).subrange(1, 10) =~= fixed_digits(b as nat, 9));
        lemma_fixed_digits_injective(a as nat, b as nat, 9);
    }
}

/// Distinct indices map to distinct UPCs (every `u32` is below `10^12`).
pub proof fn lemma_upc_for_index_injective(a: u32, b: u32)
    requires
        a != b,
    ensures
        upc_for(a as nat) != upc_for(b as nat),
{
    assert(pow10(12) == 1_000_000_000_000) by {
        reveal_with_fuel(pow10, 13);
    }
    lemma_fixed_digits(a as nat, 12);
    lemma_fixed_digits(b as nat, 12);
    if upc_for(a as nat) == upc_for(b as nat) {
        assert(upc_for(a as nat).subrange(0, 12) =~= fixed_digits(a as nat, 12));
        assert(upc_for(b as nat).subrange(0, 12) =~= fixed_digits(b as nat, 12));
        lemma_fixed_digits_injective(a as nat, b as nat, 12);
    }
}

/// Distinct indices below `10^8` map to distinct ISRCs.
pub proof fn lemma_isrc_for_index_injective(a: u32, b: u32)
    requires
        a < 100_000_000,
        b < 100_000_000,
        a != b,
    ensures
        isrc_for(a as nat) != isrc_for(b as nat),
{
    assert(pow10(2) == 100 && pow10(5) == 100_000) by {
        reveal_with_fuel(pow10, 6);
    }
    lemma_fixed_digits(((a as nat) / 1_000_000) % 100, 2);
    lemma_fixed_digits(((b as nat) / 1_000_000) % 100, 2);
    lemma_fixed_digits((a as nat) % 100_000, 5);
    lemma_fixed_digits((b as nat) % 100_000, 5);
    if isrc_for(a as nat) == isrc_for(b as nat) {
        let x = isrc_for(a as nat);
        let y = isrc_for(b as nat);
        assert(x[4] == y[4]);
        assert(((a as nat) / 100_000) % 10 == ((b as nat) / 100_000) % 10);
        assert(x.subrange(5, 7) =~= fixed_digits(((a as nat) / 1_000_000) % 100, 2));
        assert(y.subrange(5, 7) =~= fixed_digits(((b as nat) / 1_000_000) % 100, 2));
        lemma_fixed_digits_injective(
            ((a as nat) / 1_000_000) % 100,
            ((b as nat) / 1_000_000) % 100,
            2,
        );
        assert(x.subrange(7, 12) =~= fixed_digits((a as nat) % 100_000, 5));
        assert(y.subrange(7, 12) =~= fixed_digits((b as nat) % 100_000, 5));
        lemma_fixed_digits_injective((a as nat) % 100_000, (b as nat) % 100_000, 5);
        lemma_index_digits(a as nat);
        lemma_index_digits(b as nat);
    }
}

/// An index below `10^8` is its year, registrant and designation parts.
proof fn lemma_index_digits(i: nat)
    requires
        i < 100_000_000,
    ensures
        i == (i / 1_000_000) % 100 * 1_000_000 + (i / 100_000) % 10 * 100_000 + i % 100_000,
{
    assert(i == (i / 1_000_000) % 100 * 1_000_000 + (i / 100_000) % 10 * 100_000 + i % 100_000)
        by (nonlinear_arith)
        requires
            i < 100_000_000,
    ;
}

/// Every work code gives a well-formed ISWC.
pub proof fn lemma_iswc_for_code_valid(code: nat)
    ensures
        iswc_format(iswc_for_code(code)) is Ok,
{
    lemma_fixed_digits(code % 1_000_000_000, 9);
    let t = seq![84u8] + fixed_digits(code % 1_000_000_000, 9);
    let s = iswc_for_code(code);
    assert forall|i: int| 1 <= i < 11 implies #[trigger] is_digit(s[i]) by {
        if i < 10 {
            assert(s[i] == fixed_digits(code % 1_000_000_000, 9)[i - 1]);
        }
    }
}

/// Every index gives a well-formed ISRC.
pub proof fn lemma_isrc_for_valid(index: nat)
    ensures
        isrc_format(isrc_for(index)) is Ok,
{
    lemma_fixed_digits((index / 1_000_000) % 100, 2);
    lemma_fixed_digits(index % 100_000, 5);
    let s = isrc_for(index);
    let y = fixed_digits((index / 1_000_000) % 100, 2);
    let d = fixed_digits(index % 100_000, 5);
    assert forall|i: int| 5 <= i < 12 implies #[trigger] is_digit(s[i]) by {
        if i < 7 {
            assert(s[i] == y[i - 5]);
        } else {
            assert(s[i] == d[i - 7]);
        }
    }
    assert(forall|i: int| 0 <= i < 2 ==> #[trigger] is_upper(s[i]));
    assert(forall|i: int| 2 <= i < 5 ==> is_upper(#[trigger] s[i]) || is_digit(s[i]));
}

} // verus!
