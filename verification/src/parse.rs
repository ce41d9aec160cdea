//! Tolerant parsers for canonical industry identifiers.
//!
//! Real-world inputs come in many shapes: ISWCs are quoted as
//! `T-034.524.680-1` or `T0345246801`, ISNIs are usually space-grouped, IPIs
//! are sometimes prefixed with `I-`. These parsers accept the common
//! variants, strip separators, uppercase ASCII letters and emit the strict
//! canonical form that the on-chain `validate_*_format` rules expect.
//!
//! Every textual grammar reads its input as a sequence of
//! [`ClassifiedChar`]s: a character together with the Unicode classes the
//! grammar needs. Surrounding `White_Space` (std's `char::is_whitespace`)
//! is trimmed, ASCII letters are uppercased, and the rest is matched
//! against the identifier's pattern, where `\d` (any Unicode decimal digit)
//! and `\s` (Unicode white space) are the `regex` crate's classes; the IPI
//! grammar alone takes ASCII digits only. The canonical characters are then
//! UTF-8 encoded; an encoding longer than the identifier's capacity is
//! `OutOfBounds`.
use vstd::prelude::*;
use vstd::string::StringSliceAdditionalSpecFns;
use vstd::utf8::{encode_utf8, encode_scalar, is_ascii_chars, is_ascii_chars_encode_utf8};

use crate::bounded::{Bounded, MiddsString};
use crate::error::ParseError;
use crate::identifier::{
    digits_between, ipi_format, ipn_format, is_digit, is_upper, isni_format, isrc_format,
    iswc_format, upc_format, Ipi, Ipn, Isni, Isrc, Iswc, Upc,
};
use crate::text::push_char;

verus! {

/// The Unicode `White_Space` property (PropList.txt): TAB to CR, SPACE,
/// NEXT LINE, NO-BREAK SPACE, OGHAM SPACE MARK, EN QUAD to HAIR SPACE, LINE
/// and PARAGRAPH SEPARATOR, NARROW NO-BREAK SPACE, MEDIUM MATHEMATICAL SPACE
/// and IDEOGRAPHIC SPACE.
pub closed spec fn white_space_property(c: char) -> bool {
    let x = c as u32;
    ||| 0x9 <= x <= 0xD
    ||| x == 0x20 || x == 0x85 || x == 0xA0 || x == 0x1680
    ||| 0x2000 <= x <= 0x200A
    ||| x == 0x2028 || x == 0x2029 || x == 0x202F || x == 0x205F || x == 0x3000
}

/// The `regex` crate's `\d` class (Unicode `Nd`) on a single character.
pub uninterp spec fn regex_decimal_digit(c: char) -> bool;

/// Whether `c` has the Unicode `White_Space` property, the test std's
/// `char::is_whitespace` documents.
pub(crate) fn char_is_whitespace(c: char) -> (r: bool)
    ensures
        r == white_space_property(c),
{
    let x = c as u32;
    (0x9 <= x && x <= 0xD) || x == 0x20 || x == 0x85 || x == 0xA0 || x == 0x1680 || (0x2000 <= x
        && x <= 0x200A) || x == 0x2028 || x == 0x2029 || x == 0x202F || x == 0x205F || x == 0x3000
}

/// Whether `c` alone matches the `regex` crate's `\d`. The crate documents
/// `\d` as Unicode `Nd`, whose ASCII members are `0` to `9`; for other
/// characters nothing is stated beyond the name.
#[verifier::external_body]
fn regex_matches_decimal_digit(c: char) -> (r: bool)
    ensures
        r == regex_decimal_digit(c),
        (c as u32) < 128 ==> (r <==> ('0' <= c && c <= '9')),
{
    let mut buf = [0u8; 4];
    match regex::Regex::new(r"\A\d\z") {
        Ok(re) => re.is_match(c.encode_utf8(&mut buf)),
        Err(_) => false,
    }
}

/// Whether `c` alone matches the `regex` crate's `\s`, which the crate
/// documents as the Unicode `White_Space` property.
#[verifier::external_body]
fn regex_matches_white_space(c: char) -> (r: bool)
    ensures
        r == white_space_property(c),
{
    let mut buf = [0u8; 4];
    match regex::Regex::new(r"\A\s\z") {
        Ok(re) => re.is_match(c.encode_utf8(&mut buf)),
        Err(_) => false,
    }
}

/// One input character with the classes the identifier grammars read.
#[derive(Debug, Clone, Copy, PartialEq, Eq, Structural)]
pub struct ClassifiedChar {
    /// The character as typed.
    pub ch: char,
    /// `White_Space`: trimmed from both ends of the input.
    pub white_space: bool,
    /// The uppercased character is a decimal digit (`\d`).
    pub digit: bool,
    /// The uppercased character is white space (`\s`), an accepted ISNI
    /// group separator.
    pub separator_space: bool,
}

/// `c` with ASCII `a`..`z` mapped to `A`..`Z`; every other character kept.
pub open spec fn ascii_upper(c: char) -> char {
    if 'a' <= c && c <= 'z' {
        (c as int - 32) as char
    } else {
        c
    }
}

/// The classes of `c`, as [`classify`] computes them.
pub open spec fn classified(c: char) -> ClassifiedChar {
    ClassifiedChar {
        ch: c,
        white_space: white_space_property(c),
        digit: regex_decimal_digit(ascii_upper(c)),
        separator_space: white_space_property(ascii_upper(c)),
    }
}

/// Every character of `s`, classified.
pub open spec fn classified_text(s: Seq<char>) -> Seq<ClassifiedChar> {
    s.map_values(|c: char| classified(c))
}

/// What the classes are known to be on ASCII characters.
pub open spec fn ascii_classes_hold(x: ClassifiedChar) -> bool {
    let u = ascii_upper(x.ch);
    (x.ch as u32) < 128 ==> {
        &&& (x.white_space <==> (x.ch == ' ' || ('\t' <= x.ch && x.ch <= '\r')))
        &&& (x.digit <==> ('0' <= u && u <= '9'))
        &&& (x.separator_space <==> (u == ' ' || ('\t' <= u && u <= '\r')))
    }
}

/// Drops leading `White_Space` characters.
pub open spec fn trim_start(cs: Seq<ClassifiedChar>) -> Seq<ClassifiedChar>
    decreases cs.len(),
{
    if cs.len() > 0 && cs[0].white_space {
        trim_start(cs.drop_first())
    } else {
        cs
    }
}

/// Drops trailing `White_Space` characters.
pub open spec fn trim_end(cs: Seq<ClassifiedChar>) -> Seq<ClassifiedChar>
    decreases cs.len(),
{
    if cs.len() > 0 && cs.last().white_space {
        trim_end(cs.drop_last())
    } else {
        cs
    }
}

/// The input as the grammars read it: trimmed, then ASCII-uppercased.
pub open spec fn normalized(cs: Seq<ClassifiedChar>) -> Seq<ClassifiedChar> {
    trim_end(trim_start(cs)).map_values(
        |x: ClassifiedChar| ClassifiedChar { ch: ascii_upper(x.ch), ..x },
    )
}

/// Character classes used by the identifier patterns.
#[derive(Debug, Clone, Copy, PartialEq, Eq, Structural)]
pub enum CharClass {
    /// `\d`: a Unicode decimal digit.
    Digit,
    /// `[A-Z]`: an ASCII uppercase letter.
    Upper,
    /// `[A-Z0-9]`: an ASCII uppercase letter or ASCII digit.
    UpperOrAsciiDigit,
    /// `[\dX]`: a Unicode decimal digit or `X`.
    DigitOrX,
    /// `[0-9]`: an ASCII decimal digit.
    AsciiDigit,
}

/// Whether `x` belongs to `class`.
pub open spec fn in_class(class: CharClass, x: ClassifiedChar) -> bool {
    match class {
        CharClass::Digit => x.digit,
        CharClass::Upper => 'A' <= x.ch && x.ch <= 'Z',
        CharClass::UpperOrAsciiDigit => ('A' <= x.ch && x.ch <= 'Z') || ('0' <= x.ch && x.ch
            <= '9'),
        CharClass::DigitOrX => x.digit || x.ch == 'X',
        CharClass::AsciiDigit => '0' <= x.ch && x.ch <= '9',
    }
}

/// `u[i..i + n]` exists and lies entirely in `class`.
pub open spec fn run_at(u: Seq<ClassifiedChar>, i: int, n: int, class: CharClass) -> bool {
    &&& 0 <= i
    &&& 0 <= n
    &&& i + n <= u.len()
    &&& forall|k: int| i <= k < i + n ==> #[trigger] in_class(class, u[k])
}

/// The characters of `u[i..i + n]`.
pub open spec fn chars_of(u: Seq<ClassifiedChar>, i: int, n: int) -> Seq<char> {
    u.subrange(i, i + n).map_values(|x: ClassifiedChar| x.ch)
}

/// `i` moved past `c` when `c` stands at `i` (an optional literal).
pub open spec fn skip_char(u: Seq<ClassifiedChar>, i: int, c: char) -> int {
    if 0 <= i < u.len() && u[i].ch == c {
        i + 1
    } else {
        i
    }
}

/// `i` moved past an optional `[\s-]` separator.
pub open spec fn skip_separator(u: Seq<ClassifiedChar>, i: int) -> int {
    if 0 <= i < u.len() && (u[i].separator_space || u[i].ch == '-') {
        i + 1
    } else {
        i
    }
}

/// `T-?(\d{3})\.?(\d{3})\.?(\d{3})-?(\d)`, the whole input: the canonical
/// characters `T` + the ten digits, or `None`.
pub open spec fn iswc_canonical(u: Seq<ClassifiedChar>) -> Option<Seq<char>> {
    if u.len() == 0 || u[0].ch != 'T' {
        None
    } else {
        let a = skip_char(u, 1, '-');
        let b = skip_char(u, a + 3, '.');
        let c = skip_char(u, b + 3, '.');
        let d = skip_char(u, c + 3, '-');
        if run_at(u, a, 3, CharClass::Digit) && run_at(u, b, 3, CharClass::Digit) && run_at(
            u,
            c,
            3,
            CharClass::Digit,
        ) && run_at(u, d, 1, CharClass::Digit) && d + 1 == u.len() {
            Some(
                seq!['T'] + chars_of(u, a, 3) + chars_of(u, b, 3) + chars_of(u, c, 3) + chars_of(
                    u,
                    d,
                    1,
                ),
            )
        } else {
            None
        }
    }
}

/// `(\d{4})[\s-]?(\d{4})[\s-]?(\d{4})[\s-]?(\d{3}[\dX])`, the whole input:
/// the sixteen canonical characters, or `None`.
pub open spec fn isni_canonical(u: Seq<ClassifiedChar>) -> Option<Seq<char>> {
    let b = skip_separator(u, 4);
    let c = skip_separator(u, b + 4);
    let d = skip_separator(u, c + 4);
    if run_at(u, 0, 4, CharClass::Digit) && run_at(u, b, 4, CharClass::Digit) && run_at(
        u,
        c,
        4,
        CharClass::Digit,
    ) && run_at(u, d, 3, CharClass::Digit) && run_at(u, d + 3, 1, CharClass::DigitOrX) && d + 4
        == u.len() {
        Some(chars_of(u, 0, 4) + chars_of(u, b, 4) + chars_of(u, c, 4) + chars_of(u, d, 4))
    } else {
        None
    }
}

/// Where the digits of an IPI start: after an `I-` prefix, if any.
pub open spec fn ipi_start(u: Seq<ClassifiedChar>) -> int {
    if u.len() >= 2 && u[0].ch == 'I' && u[1].ch == '-' {
        2
    } else {
        0
    }
}

/// `(?:I-)?([0-9]{9,11})`, the whole input: the digits, or `None`. The
/// digits are ASCII ones, so the canonical form is always an IPI.
pub open spec fn ipi_canonical(u: Seq<ClassifiedChar>) -> Option<Seq<char>> {
    let s = ipi_start(u);
    let n = u.len() - s;
    if 9 <= n <= 11 && run_at(u, s, n, CharClass::AsciiDigit) {
        Some(chars_of(u, s, n))
    } else {
        None
    }
}

/// `(\d{8})`, the whole input: the digits, or `None`.
pub open spec fn ipn_canonical(u: Seq<ClassifiedChar>) -> Option<Seq<char>> {
    if u.len() == 8 && run_at(u, 0, 8, CharClass::Digit) {
        Some(chars_of(u, 0, 8))
    } else {
        None
    }
}

/// `([A-Z]{2})-?([A-Z0-9]{3})-?(\d{2})-?(\d{5})`, the whole input: the
/// twelve canonical characters, or `None`.
pub open spec fn isrc_canonical(u: Seq<ClassifiedChar>) -> Option<Seq<char>> {
    let a = skip_char(u, 2, '-');
    let b = skip_char(u, a + 3, '-');
    let c = skip_char(u, b + 2, '-');
    if run_at(u, 0, 2, CharClass::Upper) && run_at(u, a, 3, CharClass::UpperOrAsciiDigit)
        && run_at(u, b, 2, CharClass::Digit) && run_at(u, c, 5, CharClass::Digit) && c + 5
        == u.len() {
        Some(chars_of(u, 0, 2) + chars_of(u, a, 3) + chars_of(u, b, 2) + chars_of(u, c, 5))
    } else {
        None
    }
}

/// The UTF-8 encoding of `canon` when it fits `cap` bytes.
pub open spec fn encoded_within(canon: Seq<char>, cap: nat) -> Result<Seq<u8>, ParseError> {
    if encode_utf8(canon).len() <= cap {
        Ok(encode_utf8(canon))
    } else {
        Err(ParseError::OutOfBounds)
    }
}

/// A match's canonical characters, encoded within `cap`; a miss is
/// `PatternMismatch`.
pub open spec fn parse_outcome(m: Option<Seq<char>>, cap: nat) -> Result<Seq<u8>, ParseError> {
    match m {
        None => Err(ParseError::PatternMismatch),
        Some(canon) => encoded_within(canon, cap),
    }
}

/// `r` is the parse outcome `o`, the value taken by its bytes.
pub open spec fn parsed_as<const N: u32>(
    r: Result<MiddsString<N>, ParseError>,
    o: Result<Seq<u8>, ParseError>,
) -> bool {
    match o {
        Ok(bytes) => r matches Ok(v) && v@ == bytes,
        Err(e) => r matches Err(f) && f == e,
    }
}

/// Classifies every character of `s` (one call per class and character
/// into std and the `regex` crate).
pub fn classify(s: &str) -> (r: Vec<ClassifiedChar>)
    ensures
        r@ == classified_text(s@),
        forall|i: int| 0 <= i < r@.len() ==> ascii_classes_hold(#[trigger] r@[i]),
{
    broadcast use vstd::string::group_string_axioms;

    let mut out: Vec<ClassifiedChar> = Vec::new();
    for c in it: s.chars()
        invariant
            it.seq() == s@,
            out@ == classified_text(it.seq().take(it.index() as int)),
            forall|i: int| 0 <= i < out@.len() ==> ascii_classes_hold(#[trigger] out@[i]),
    {
        let u = to_ascii_upper(c);
        let x = ClassifiedChar {
            ch: c,
            white_space: char_is_whitespace(c),
            digit: regex_matches_decimal_digit(u),
            separator_space: regex_matches_white_space(u),
        };
        proof {
            assert(it.seq().take(it.index() as int + 1) =~= it.seq().take(it.index() as int).push(
                c,
            ));
        }
        out.push(x);
        proof {
            assert(classified_text(it.seq().take(it.index() as int + 1)) =~= classified_text(
                it.seq().take(it.index() as int),
            ).push(x));
        }
    }
    proof {
        assert(s@.take(s@.len() as int) =~= s@);
    }
    out
}

/// ASCII uppercase of one character.
fn to_ascii_upper(c: char) -> (r: char)
    ensures
        r == ascii_upper(c),
{
    if 'a' <= c && c <= 'z' {
        ((c as u8) - 32) as char
    } else {
        c
    }
}

/// Trims `cs` and uppercases its ASCII letters.
pub fn normalize(cs: &[ClassifiedChar]) -> (r: Vec<ClassifiedChar>)
    ensures
        r@ == normalized(cs@),
{
    let n = cs.len();
    let mut i: usize = 0;
    assert(cs@.subrange(0, n as int) =~= cs@);
    while i < n && cs[i].white_space
        invariant
            n == cs@.len(),
            i <= n,
            trim_start(cs@) == trim_start(cs@.subrange(i as int, n as int)),
        decreases n - i,
    {
        assert(cs@.subrange(i as int, n as int).drop_first() =~= cs@.subrange(
            i as int + 1,
            n as int,
        ));
        i += 1;
    }
    assert(trim_start(cs@) == cs@.subrange(i as int, n as int));
    let mut j: usize = n;
    while j > i && cs[j - 1].white_space
        invariant
            n == cs@.len(),
            i <= j <= n,
            trim_end(cs@.subrange(i as int, n as int)) == trim_end(
                cs@.subrange(i as int, j as int),
            ),
        decreases j - i,
    {
        assert(cs@.subrange(i as int, j as int).drop_last() =~= cs@.subrange(
            i as int,
            j as int - 1,
        ));
        j -= 1;
    }
    assert(trim_end(cs@.subrange(i as int, j as int)) == cs@.subrange(i as int, j as int));
    let mut out: Vec<ClassifiedChar> = Vec::new();
    let mut k: usize = i;
    while k < j
        invariant
            n == cs@.len(),
            i <= k <= j <= n,
            out@ =~= cs@.subrange(i as int, k as int).map_values(
                |x: ClassifiedChar| ClassifiedChar { ch: ascii_upper(x.ch), ..x },
            ),
        decreases j - k,
    {
        let x = cs[k];
        out.push(ClassifiedChar { ch: to_ascii_upper(x.ch), ..x });
        k += 1;
    }
    out
}

/// `i` moved past `c` when `c` stands at `i`.
fn skip_char_at(u: &[ClassifiedChar], i: usize, c: char) -> (r: usize)
    requires
        i <= u@.len(),
    ensures
        r == skip_char(u@, i as int, c),
        r <= u@.len(),
{
    if i < u.len() && u[i].ch == c {
        i + 1
    } else {
        i
    }
}

/// `i` moved past an optional `[\s-]` separator.
fn skip_separator_at(u: &[ClassifiedChar], i: usize) -> (r: usize)
    requires
        i <= u@.len(),
    ensures
        r == skip_separator(u@, i as int),
        r <= u@.len(),
{
    if i < u.len() && (u[i].separator_space || u[i].ch == '-') {
        i + 1
    } else {
        i
    }
}

/// Whether `x` is in `class`.
fn class_contains(class: CharClass, x: ClassifiedChar) -> (r: bool)
    ensures
        r == in_class(class, x),
{
    match class {
        CharClass::Digit => x.digit,
        CharClass::Upper => 'A' <= x.ch && x.ch <= 'Z',
        CharClass::UpperOrAsciiDigit => ('A' <= x.ch && x.ch <= 'Z') || ('0' <= x.ch && x.ch
            <= '9'),
        CharClass::DigitOrX => x.digit || x.ch == 'X',
        CharClass::AsciiDigit => '0' <= x.ch && x.ch <= '9',
    }
}

/// Checks `run_at(u, i, n, class)`; on success appends the run's characters
/// to `out`.
fn take_run(
    u: &[ClassifiedChar],
    i: usize,
    n: usize,
    class: CharClass,
    out: &mut Vec<char>,
) -> (r: bool)
    ensures
        r == run_at(u@, i as int, n as int, class),
        r ==> final(out)@ == old(out)@ + chars_of(u@, i as int, n as int),
{
    if i > u.len() || n > u.len() - i {
        return false;
    }
    let mut k: usize = 0;
    while k < n
        invariant
            i + n <= u.len(),
            k <= n,
            forall|m: int| i <= m < i + k ==> #[trigger] in_class(class, u@[m]),
        decreases n - k,
    {
        if !class_contains(class, u[i + k]) {
            return false;
        }
        k += 1;
    }
    let ghost start = out@;
    let mut k: usize = 0;
    while k < n
        invariant
            i + n <= u.len(),
            k <= n,
            out@ =~= start + u@.subrange(i as int, i + k).map_values(|x: ClassifiedChar| x.ch),
        decreases n - k,
    {
        out.push(u[i + k].ch);
        k += 1;
    }
    true
}

/// UTF-8 encodes `canon` into a bounded byte string of capacity `N`.
fn encode_within<const N: u32>(canon: &Vec<char>) -> (r: Result<MiddsString<N>, ParseError>)
    ensures
        parsed_as(r, encoded_within(canon@, N as nat)),
{
    let mut text = String::new();
    let mut k: usize = 0;
    while k < canon.len()
        invariant
            k <= canon@.len(),
            text@ =~= canon@.subrange(0, k as int),
        decreases canon@.len() - k,
    {
        push_char(&mut text, canon[k]);
        k += 1;
    }
    assert(text@ =~= canon@);
    let view = text.as_str();
    let bytes = view.as_bytes_vec();
    assert(bytes@ == encode_utf8(canon@));
    match Bounded::try_new(bytes) {
        Ok(b) => Ok(b),
        Err(_) => Err(ParseError::OutOfBounds),
    }
}

/// Matches a normalised input against the ISWC pattern.
fn match_iswc(u: &[ClassifiedChar]) -> (r: Option<Vec<char>>)
    ensures
        match iswc_canonical(u@) {
            None => r is None,
            Some(c) => r matches Some(v) && v@ == c,
        },
{
    if u.len() == 0 || u[0].ch != 'T' {
        return None;
    }
    let mut out: Vec<char> = Vec::new();
    out.push('T');
    let a = skip_char_at(u, 1, '-');
    if !take_run(u, a, 3, CharClass::Digit, &mut out) {
        return None;
    }
    let b = skip_char_at(u, a + 3, '.');
    if !take_run(u, b, 3, CharClass::Digit, &mut out) {
        return None;
    }
    let c = skip_char_at(u, b + 3, '.');
    if !take_run(u, c, 3, CharClass::Digit, &mut out) {
        return None;
    }
    let d = skip_char_at(u, c + 3, '-');
    if !take_run(u, d, 1, CharClass::Digit, &mut out) {
        return None;
    }
    if d + 1 != u.len() {
        return None;
    }
    Some(out)
}

/// Matches a normalised input against the ISNI pattern.
fn match_isni(u: &[ClassifiedChar]) -> (r: Option<Vec<char>>)
    ensures
        match isni_canonical(u@) {
            None => r is None,
            Some(c) => r matches Some(v) && v@ == c,
        },
{
    let mut out: Vec<char> = Vec::new();
    if !take_run(u, 0, 4, CharClass::Digit, &mut out) {
        return None;
    }
    let b = skip_separator_at(u, 4);
    if !take_run(u, b, 4, CharClass::Digit, &mut out) {
        return None;
    }
    let c = skip_separator_at(u, b + 4);
    if !take_run(u, c, 4, CharClass::Digit, &mut out) {
        return None;
    }
    let d = skip_separator_at(u, c + 4);
    let ghost before = out@;
    if !take_run(u, d, 3, CharClass::Digit, &mut out) {
        return None;
    }
    if !take_run(u, d + 3, 1, CharClass::DigitOrX, &mut out) {
        return None;
    }
    if d + 4 != u.len() {
        return None;
    }
    assert(chars_of(u@, d as int, 3) + chars_of(u@, d + 3, 1) =~= chars_of(u@, d as int, 4));
    Some(out)
}

/// Matches a normalised input against the IPI pattern.
fn match_ipi(u: &[ClassifiedChar]) -> (r: Option<Vec<char>>)
    ensures
        match ipi_canonical(u@) {
            None => r is None,
            Some(c) => r matches Some(v) && v@ == c,
        },
{
    let s: usize = if u.len() >= 2 && u[0].ch == 'I' && u[1].ch == '-' {
        2
    } else {
        0
    };
    let n = u.len() - s;
    if n < 9 || n > 11 {
        return None;
    }
    let mut out: Vec<char> = Vec::new();
    if !take_run(u, s, n, CharClass::AsciiDigit, &mut out) {
        return None;
    }
    Some(out)
}

/// Matches a normalised input against the IPN pattern.
fn match_ipn(u: &[ClassifiedChar]) -> (r: Option<Vec<char>>)
    ensures
        match ipn_canonical(u@) {
            None => r is None,
            Some(c) => r matches Some(v) && v@ == c,
        },
{
    if u.len() != 8 {
        return None;
    }
    let mut out: Vec<char> = Vec::new();
    if !take_run(u, 0, 8, CharClass::Digit, &mut out) {
        return None;
    }
    Some(out)
}

/// Matches a normalised input against the ISRC pattern.
fn match_isrc(u: &[ClassifiedChar]) -> (r: Option<Vec<char>>)
    ensures
        match isrc_canonical(u@) {
            None => r is None,
            Some(c) => r matches Some(v) && v@ == c,
        },
{
    let mut out: Vec<char> = Vec::new();
    if !take_run(u, 0, 2, CharClass::Upper, &mut out) {
        return None;
    }
    let a = skip_char_at(u, 2, '-');
    if !take_run(u, a, 3, CharClass::UpperOrAsciiDigit, &mut out) {
        return None;
    }
    let b = skip_char_at(u, a + 3, '-');
    if !take_run(u, b, 2, CharClass::Digit, &mut out) {
        return None;
    }
    let c = skip_char_at(u, b + 2, '-');
    if !take_run(u, c, 5, CharClass::Digit, &mut out) {
        return None;
    }
    if c + 5 != u.len() {
        return None;
    }
    Some(out)
}

/// Outcome of the ISWC parser on a classified input.
pub open spec fn iswc_outcome(cs: Seq<ClassifiedChar>) -> Result<Seq<u8>, ParseError> {
    parse_outcome(iswc_canonical(normalized(cs)), 11)
}

/// The bytes of an ASCII character sequence.
pub open spec fn ascii_bytes(t: Seq<char>) -> Seq<u8> {
    t.map_values(|c: char| c as u8)
}

/// A UTF-8 encoding is at least as long as the text, and exactly as long
/// only when the text is ASCII.
pub proof fn lemma_encode_utf8_len(cs: Seq<char>)
    ensures
        encode_utf8(cs).len() >= cs.len(),
        encode_utf8(cs).len() == cs.len() ==> is_ascii_chars(cs),
    decreases cs.len(),
{
    if cs.len() > 0 {
        lemma_encode_utf8_len(cs.drop_first());
        let x = cs[0] as u32;
        assert(encode_utf8(cs) == encode_scalar(x) + encode_utf8(cs.drop_first()));
        if encode_utf8(cs).len() == cs.len() {
            assert(encode_scalar(x).len() == 1);
            assert(x <= 0x7f);
            lemma_char_code(cs[0]);
            assert('\0' <= cs[0] <= '\u{7f}');
            assert forall|i| 0 <= i < cs.len() implies '\0' <= #[trigger] cs[i] <= '\u{7f}' by {
                if i > 0 {
                    assert(cs[i] == cs.drop_first()[i - 1]);
                }
            }
        }
    }
}

/// An ASCII text's encoding is its bytes.
pub proof fn lemma_ascii_encoding(t: Seq<char>)
    requires
        is_ascii_chars(t),
    ensures
        encode_utf8(t) == ascii_bytes(t),
{
    is_ascii_chars_encode_utf8(t);
    assert(encode_utf8(t) =~= ascii_bytes(t));
}

/// Parses an ISWC from already classified characters. Accepts the common
/// variants (`T0345246801`, `T-034.524.680-1`, lowercase `t`, padding) and
/// emits the canonical 11-byte form `T` + 10 digits.
pub fn parse_iswc_chars(cs: &[ClassifiedChar]) -> (r: Result<Iswc, ParseError>)
    ensures
        parsed_as(r, iswc_outcome(cs@)),
{
    let u = normalize(cs);
    match match_iswc(u.as_slice()) {
        None => Err(ParseError::PatternMismatch),
        Some(canon) => encode_within::<11>(&canon),
    }
}

/// Parses a tolerant ISWC string into the canonical 11-byte form `T` + 10
/// digits.
///
/// Whatever it returns passes the on-chain ISWC rule, and an input already
/// in canonical form comes back unchanged.
pub fn parse_iswc(s: &str) -> (r: Result<Iswc, ParseError>)
    ensures
        parsed_as(r, iswc_outcome(classified_text(s@))),
        r matches Ok(v) ==> iswc_format(v@) is Ok,
        is_ascii_chars(s@) && iswc_format(ascii_bytes(s@)) is Ok ==> (r matches Ok(v) && v@
            == ascii_bytes(s@)),
{
    let cs = classify(s);
    proof {
        assert(cs@.map_values(|x: ClassifiedChar| x.ch) =~= s@);
        lemma_iswc_outcome_valid(cs@);
        if is_ascii_chars(s@) && iswc_format(ascii_bytes(s@)) is Ok {
            lemma_iswc_round_trip(cs@);
        }
    }
    parse_iswc_chars(cs.as_slice())
}

/// Classes of a normalised character, from those of the input character.
proof fn lemma_normalized_classes(cs: Seq<ClassifiedChar>)
    requires
        forall|i: int| 0 <= i < cs.len() ==> ascii_classes_hold(#[trigger] cs[i]),
    ensures
        forall|i: int|
            0 <= i < normalized(cs).len() ==> {
                let x = #[trigger] normalized(cs)[i];
                (x.ch as u32) < 128 ==> (x.digit <==> ('0' <= x.ch && x.ch <= '9'))
            },
{
    let t = trim_end(trim_start(cs));
    lemma_trim_is_subrange(cs);
    assert forall|i: int| 0 <= i < normalized(cs).len() implies {
        let x = #[trigger] normalized(cs)[i];
        (x.ch as u32) < 128 ==> (x.digit <==> ('0' <= x.ch && x.ch <= '9'))
    } by {
        let y = t[i];
        assert(exists|j: int| 0 <= j < cs.len() && cs[j] == y);
        let j = choose|j: int| 0 <= j < cs.len() && cs[j] == y;
        assert(ascii_classes_hold(cs[j]));
    }
}

/// Trimming keeps a contiguous part of the input.
proof fn lemma_trim_is_subrange(cs: Seq<ClassifiedChar>)
    ensures
        forall|i: int|
            0 <= i < trim_end(trim_start(cs)).len() ==> exists|j: int|
                0 <= j < cs.len() && cs[j] == #[trigger] trim_end(trim_start(cs))[i],
{
    lemma_trim_start_subrange(cs);
    lemma_trim_end_subrange(trim_start(cs));
    assert forall|i: int| 0 <= i < trim_end(trim_start(cs)).len() implies exists|j: int|
        0 <= j < cs.len() && cs[j] == #[trigger] trim_end(trim_start(cs))[i] by {
        let a = choose|a: int|
            0 <= a <= cs.len() && trim_start(cs) =~= cs.subrange(a, cs.len() as int);
        let b = choose|b: int|
            0 <= b <= trim_start(cs).len() && trim_end(trim_start(cs)) =~= trim_start(
                cs,
            ).subrange(0, b);
        assert(cs[a + i] == trim_end(trim_start(cs))[i]);
    }
}

/// `trim_start` drops a prefix.
proof fn lemma_trim_start_subrange(cs: Seq<ClassifiedChar>)
    ensures
        exists|a: int| 0 <= a <= cs.len() && trim_start(cs) =~= cs.subrange(a, cs.len() as int),
    decreases cs.len(),
{
    if cs.len() > 0 && cs[0].white_space {
        lemma_trim_start_subrange(cs.drop_first());
        let a = choose|a: int|
            0 <= a <= cs.drop_first().len() && trim_start(cs.drop_first()) =~= cs.drop_first().subrange(
                a,
                cs.drop_first().len() as int,
            );
        assert(trim_start(cs) =~= cs.subrange(a + 1, cs.len() as int));
    } else {
        assert(trim_start(cs) =~= cs.subrange(0, cs.len() as int));
    }
}

/// `trim_end` drops a suffix.
proof fn lemma_trim_end_subrange(cs: Seq<ClassifiedChar>)
    ensures
        exists|b: int| 0 <= b <= cs.len() && trim_end(cs) =~= cs.subrange(0, b),
    decreases cs.len(),
{
    if cs.len() > 0 && cs.last().white_space {
        lemma_trim_end_subrange(cs.drop_last());
        let b = choose|b: int|
            0 <= b <= cs.drop_last().len() && trim_end(cs.drop_last()) =~= cs.drop_last().subrange(
                0,
                b,
            );
        assert(trim_end(cs) =~= cs.subrange(0, b));
    } else {
        assert(trim_end(cs) =~= cs.subrange(0, cs.len() as int));
    }
}

/// A character's `u32` code is its value.
proof fn lemma_char_code(c: char)
    ensures
        c as u32 == c as int,
{
}

/// An ASCII character's byte is its code.
proof fn lemma_ascii_char_byte(c: char)
    requires
        '\0' <= c <= '\u{7f}',
    ensures
        (c as u8) as int == c as int,
        (c as u32) < 128,
{
}

/// A canonical match of `n` characters that fits `n` bytes is ASCII, and
/// its bytes are the characters.
proof fn lemma_fitting_encoding_is_ascii(canon: Seq<char>, cap: nat)
    requires
        canon.len() == cap,
        encode_utf8(canon).len() <= cap,
    ensures
        is_ascii_chars(canon),
        encode_utf8(canon) == ascii_bytes(canon),
{
    lemma_encode_utf8_len(canon);
    lemma_ascii_encoding(canon);
}

/// Whatever the ISWC parser accepts passes the on-chain ISWC rule.
pub proof fn lemma_iswc_outcome_valid(cs: Seq<ClassifiedChar>)
    requires
        forall|i: int| 0 <= i < cs.len() ==> ascii_classes_hold(#[trigger] cs[i]),
    ensures
        iswc_outcome(cs) matches Ok(b) ==> iswc_format(b) is Ok,
{
    let u = normalized(cs);
    lemma_normalized_classes(cs);
    if let Some(canon) = iswc_canonical(u) {
        if encode_utf8(canon).len() <= 11 {
            let a = skip_char(u, 1, '-');
            let b = skip_char(u, a + 3, '.');
            let c = skip_char(u, b + 3, '.');
            let d = skip_char(u, c + 3, '-');
            assert(canon.len() == 11);
            lemma_fitting_encoding_is_ascii(canon, 11);
            let bytes = encode_utf8(canon);
            assert forall|k: int| 1 <= k < 11 implies #[trigger] is_digit(bytes[k]) by {
                let m = if k < 4 {
                    a + k - 1
                } else if k < 7 {
                    b + k - 4
                } else if k < 10 {
                    c + k - 7
                } else {
                    d
                };
                assert(canon[k] == u[m].ch);
                assert(in_class(CharClass::Digit, u[m]));
            }
        }
    }
}

/// An ISWC already in canonical ASCII form parses to itself.
pub proof fn lemma_iswc_round_trip(cs: Seq<ClassifiedChar>)
    requires
        forall|i: int| 0 <= i < cs.len() ==> ascii_classes_hold(#[trigger] cs[i]),
        is_ascii_chars(cs.map_values(|x: ClassifiedChar| x.ch)),
        iswc_format(ascii_bytes(cs.map_values(|x: ClassifiedChar| x.ch))) is Ok,
    ensures
        iswc_outcome(cs) == Ok::<Seq<u8>, ParseError>(
            ascii_bytes(cs.map_values(|x: ClassifiedChar| x.ch)),
        ),
{
    let t = cs.map_values(|x: ClassifiedChar| x.ch);
    let bytes = ascii_bytes(t);
    assert(cs.len() == 11);
    assert forall|i: int| 1 <= i < 11 implies '0' <= (#[trigger] cs[i]).ch <= '9' by {
        assert(is_digit(bytes[i]));
        lemma_ascii_char_byte(t[i]);
    }
    lemma_ascii_char_byte(t[0]);
    assert(t[0] == 'T');
    assert(!cs[0].white_space);
    assert(ascii_classes_hold(cs[10]));
    assert(!cs[10].white_space);
    assert(trim_start(cs) == cs);
    assert(trim_end(cs) == cs);
    let u = normalized(cs);
    assert(u =~= cs) by {
        assert forall|i: int| 0 <= i < 11 implies u[i] == cs[i] by {
            assert(is_digit(ascii_bytes(t)[i]) || i == 0);
        }
    }
    assert(skip_char(u, 1, '-') == 1);
    assert(skip_char(u, 4, '.') == 4);
    assert(skip_char(u, 7, '.') == 7);
    assert(skip_char(u, 10, '-') == 10);
    let canon = iswc_canonical(u)->0;
    assert(iswc_canonical(u) is Some);
    assert(canon =~= t);
    lemma_ascii_encoding(t);
}

/// The bytes `b` read back as ASCII characters.
pub open spec fn ascii_chars(b: Seq<u8>) -> Seq<char> {
    b.map_values(|x: u8| x as char)
}

/// What the ISWC parser accepts parses again to itself: the accepted bytes,
/// read back as text and classified, give the same ISWC. A match whose
/// canonical characters are not all ASCII (a non-ASCII decimal digit) is
/// `OutOfBounds`, never accepted. Both hold of classified characters whose
/// classes are right on ASCII, as `classify` ensures.
pub proof fn lemma_iswc_reparse(cs: Seq<ClassifiedChar>, again: Seq<ClassifiedChar>)
    requires
        forall|i: int| 0 <= i < cs.len() ==> ascii_classes_hold(#[trigger] cs[i]),
        forall|i: int| 0 <= i < again.len() ==> ascii_classes_hold(#[trigger] again[i]),
    ensures
        iswc_outcome(cs) matches Ok(b) && text_of(again) == ascii_chars(b) ==> iswc_outcome(again)
            == iswc_outcome(cs),
        iswc_canonical(normalized(cs)) matches Some(canon) && !is_ascii_chars(canon)
            ==> iswc_outcome(cs) == Err::<Seq<u8>, ParseError>(ParseError::OutOfBounds),
{
    lemma_iswc_outcome_valid(cs);
    let u = normalized(cs);
    if let Some(canon) = iswc_canonical(u) {
        let a = skip_char(u, 1, '-');
        let b = skip_char(u, a + 3, '.');
        let c = skip_char(u, b + 3, '.');
        let d = skip_char(u, c + 3, '-');
        assert(canon.len() == 11);
        lemma_encode_utf8_len(canon);
        if let Ok(bytes) = iswc_outcome(cs) {
            if text_of(again) == ascii_chars(bytes) {
                let t = text_of(again);
                assert(iswc_format(bytes) is Ok);
                assert forall|i: int| 0 <= i < t.len() implies '\0' <= #[trigger] t[i] <= '\u{7f}'
                    && (t[i] as u8) == bytes[i] by {
                    assert(bytes[i] == 84u8 || is_digit(bytes[i]));
                    assert(t[i] == bytes[i] as char);
                }
                assert(is_ascii_chars(t));
                assert(ascii_bytes(t) =~= bytes);
                assert(t == again.map_values(|x: ClassifiedChar| x.ch));
                lemma_iswc_round_trip(again);
            }
        }
    }
}

/// Characters of `cs`, as typed.
pub open spec fn text_of(cs: Seq<ClassifiedChar>) -> Seq<char> {
    cs.map_values(|x: ClassifiedChar| x.ch)
}

/// An ASCII letter-or-digit text with correctly classified characters is
/// left as it is by normalisation, and none of its characters is a
/// separator.
proof fn lemma_canonical_text(cs: Seq<ClassifiedChar>)
    requires
        cs.len() > 0,
        forall|i: int| 0 <= i < cs.len() ==> ascii_classes_hold(#[trigger] cs[i]),
        forall|i: int|
            0 <= i < cs.len() ==> ('0' <= (#[trigger] cs[i]).ch <= '9') || ('A' <= cs[i].ch
                <= 'Z'),
    ensures
        normalized(cs) == cs,
        forall|i: int|
            0 <= i < cs.len() ==> !(#[trigger] cs[i]).separator_space && (cs[i].digit <==> (
            '0' <= cs[i].ch <= '9')) && cs[i].ch != '-',
{
    assert forall|i: int| 0 <= i < cs.len() implies !(#[trigger] cs[i]).white_space && !cs[i].separator_space
        && (cs[i].digit <==> ('0' <= cs[i].ch <= '9')) && ascii_upper(cs[i].ch) == cs[i].ch by {
        lemma_char_code(cs[i].ch);
        assert(ascii_classes_hold(cs[i]));
    }
    assert(!cs.last().white_space);
    assert(trim_start(cs) == cs);
    assert(trim_end(cs) == cs);
    assert(normalized(cs) =~= cs);
}

/// Facts on a classified ASCII text whose bytes a format rule inspects.
proof fn lemma_ascii_text(cs: Seq<ClassifiedChar>)
    requires
        is_ascii_chars(text_of(cs)),
    ensures
        forall|i: int|
            0 <= i < cs.len() ==> (#[trigger] ascii_bytes(text_of(cs))[i]) as int == cs[i].ch as int,
        ascii_bytes(text_of(cs)).len() == cs.len(),
{
    let t = text_of(cs);
    assert forall|i: int| 0 <= i < cs.len() implies (#[trigger] ascii_bytes(t)[i]) as int
        == cs[i].ch as int by {
        assert(t[i] == cs[i].ch);
        lemma_ascii_char_byte(t[i]);
    }
}

/// Outcome of the ISNI parser on a classified input.
pub open spec fn isni_outcome(cs: Seq<ClassifiedChar>) -> Result<Seq<u8>, ParseError> {
    parse_outcome(isni_canonical(normalized(cs)), 16)
}

/// Outcome of the IPI parser on a classified input.
pub open spec fn ipi_outcome(cs: Seq<ClassifiedChar>) -> Result<Seq<u8>, ParseError> {
    parse_outcome(ipi_canonical(normalized(cs)), 11)
}

/// Outcome of the IPN parser on a classified input.
pub open spec fn ipn_outcome(cs: Seq<ClassifiedChar>) -> Result<Seq<u8>, ParseError> {
    parse_outcome(ipn_canonical(normalized(cs)), 8)
}

/// Outcome of the ISRC parser on a classified input.
pub open spec fn isrc_outcome(cs: Seq<ClassifiedChar>) -> Result<Seq<u8>, ParseError> {
    parse_outcome(isrc_canonical(normalized(cs)), 12)
}

/// Parses an ISNI from already classified characters: four groups of four
/// separated by optional white space or `-`, the last character a digit or
/// `X` (either case).
pub fn parse_isni_chars(cs: &[ClassifiedChar]) -> (r: Result<Isni, ParseError>)
    ensures
        parsed_as(r, isni_outcome(cs@)),
{
    let u = normalize(cs);
    match match_isni(u.as_slice()) {
        None => Err(ParseError::PatternMismatch),
        Some(canon) => encode_within::<16>(&canon),
    }
}

/// Parses a tolerant ISNI string into the canonical 16-byte form (15 digits
/// and a final digit or `X`).
///
/// Whatever it returns passes the on-chain ISNI rule, and an input already
/// in canonical form comes back unchanged.
pub fn parse_isni(s: &str) -> (r: Result<Isni, ParseError>)
    ensures
        parsed_as(r, isni_outcome(classified_text(s@))),
        r matches Ok(v) ==> isni_format(v@) is Ok,
        is_ascii_chars(s@) && isni_format(ascii_bytes(s@)) is Ok ==> (r matches Ok(v) && v@
            == ascii_bytes(s@)),
{
    let cs = classify(s);
    proof {
        assert(text_of(cs@) =~= s@);
        lemma_isni_outcome_valid(cs@);
        if is_ascii_chars(s@) && isni_format(ascii_bytes(s@)) is Ok {
            lemma_isni_round_trip(cs@);
        }
    }
    parse_isni_chars(cs.as_slice())
}

/// Whatever the ISNI parser accepts passes the on-chain ISNI rule.
pub proof fn lemma_isni_outcome_valid(cs: Seq<ClassifiedChar>)
    requires
        forall|i: int| 0 <= i < cs.len() ==> ascii_classes_hold(#[trigger] cs[i]),
    ensures
        isni_outcome(cs) matches Ok(b) ==> isni_format(b) is Ok,
{
    let u = normalized(cs);
    lemma_normalized_classes(cs);
    if let Some(canon) = isni_canonical(u) {
        if encode_utf8(canon).len() <= 16 {
            let b = skip_separator(u, 4);
            let c = skip_separator(u, b + 4);
            let d = skip_separator(u, c + 4);
            assert(canon.len() == 16);
            lemma_fitting_encoding_is_ascii(canon, 16);
            let bytes = encode_utf8(canon);
            assert forall|k: int| 0 <= k < 15 implies #[trigger] is_digit(bytes[k]) by {
                let m = if k < 4 {
                    k
                } else if k < 8 {
                    b + k - 4
                } else if k < 12 {
                    c + k - 8
                } else {
                    d + k - 12
                };
                assert(canon[k] == u[m].ch);
                assert(in_class(CharClass::Digit, u[m]));
                lemma_ascii_char_byte(canon[k]);
            }
            assert(canon[15] == u[d + 3].ch);
            assert(in_class(CharClass::DigitOrX, u[d + 3]));
            lemma_ascii_char_byte(canon[15]);
        }
    }
}

/// An ISNI already in canonical ASCII form parses to itself.
pub proof fn lemma_isni_round_trip(cs: Seq<ClassifiedChar>)
    requires
        forall|i: int| 0 <= i < cs.len() ==> ascii_classes_hold(#[trigger] cs[i]),
        is_ascii_chars(text_of(cs)),
        isni_format(ascii_bytes(text_of(cs))) is Ok,
    ensures
        isni_outcome(cs) == Ok::<Seq<u8>, ParseError>(ascii_bytes(text_of(cs))),
{
    let t = text_of(cs);
    let bytes = ascii_bytes(t);
    lemma_ascii_text(cs);
    assert(cs.len() == 16);
    assert forall|i: int| 0 <= i < 16 implies ('0' <= (#[trigger] cs[i]).ch <= '9') || (i == 15
        && cs[i].ch == 'X') by {
        if i < 15 {
            assert(is_digit(bytes[i]));
        }
    }
    lemma_canonical_text(cs);
    let u = normalized(cs);
    assert(skip_separator(u, 4) == 4);
    assert(skip_separator(u, 8) == 8);
    assert(skip_separator(u, 12) == 12);
    assert(isni_canonical(u) is Some);
    assert(isni_canonical(u)->0 =~= t);
    lemma_ascii_encoding(t);
}

/// Parses an IPI Name Number from already classified characters: an
/// optional `I-` prefix (either case), then 9 to 11 digits.
pub fn parse_ipi_chars(cs: &[ClassifiedChar]) -> (r: Result<Ipi, ParseError>)
    ensures
        parsed_as(r, ipi_outcome(cs@)),
{
    let u = normalize(cs);
    match match_ipi(u.as_slice()) {
        None => Err(ParseError::PatternMismatch),
        Some(canon) => encode_within::<11>(&canon),
    }
}

/// Parses a tolerant IPI Name Number into 9 to 11 ASCII digits.
///
/// Whatever it returns passes the on-chain IPI rule, and an input already in
/// canonical form comes back unchanged.
pub fn parse_ipi(s: &str) -> (r: Result<Ipi, ParseError>)
    ensures
        parsed_as(r, ipi_outcome(classified_text(s@))),
        r matches Ok(v) ==> ipi_format(v@) is Ok,
        is_ascii_chars(s@) && ipi_format(ascii_bytes(s@)) is Ok ==> (r matches Ok(v) && v@
            == ascii_bytes(s@)),
{
    let cs = classify(s);
    proof {
        assert(text_of(cs@) =~= s@);
        lemma_ipi_outcome_valid(cs@);
        if is_ascii_chars(s@) && ipi_format(ascii_bytes(s@)) is Ok {
            lemma_ipi_round_trip(cs@);
        }
    }
    parse_ipi_chars(cs.as_slice())
}

/// Whatever the IPI parser accepts passes the on-chain IPI rule.
pub proof fn lemma_ipi_outcome_valid(cs: Seq<ClassifiedChar>)
    ensures
        ipi_outcome(cs) matches Ok(b) ==> ipi_format(b) is Ok,
{
    let u = normalized(cs);
    if let Some(canon) = ipi_canonical(u) {
        let st = ipi_start(u);
        let n = u.len() - st;
        assert forall|k: int| 0 <= k < n implies '0' <= #[trigger] canon[k] <= '9' by {
            assert(canon[k] == u[st + k].ch);
            assert(in_class(CharClass::AsciiDigit, u[st + k]));
        }
        assert forall|k: int| 0 <= k < n implies '\0' <= #[trigger] canon[k] <= '\u{7f}' by {
            assert('0' <= canon[k] <= '9');
        }
        assert(is_ascii_chars(canon));
        lemma_ascii_encoding(canon);
        let bytes = encode_utf8(canon);
        assert forall|k: int| 0 <= k < n implies #[trigger] is_digit(bytes[k]) by {
            assert('0' <= canon[k] <= '9');
            lemma_ascii_char_byte(canon[k]);
        }
    }
}

/// An IPI already in canonical ASCII form parses to itself.
pub proof fn lemma_ipi_round_trip(cs: Seq<ClassifiedChar>)
    requires
        forall|i: int| 0 <= i < cs.len() ==> ascii_classes_hold(#[trigger] cs[i]),
        is_ascii_chars(text_of(cs)),
        ipi_format(ascii_bytes(text_of(cs))) is Ok,
    ensures
        ipi_outcome(cs) == Ok::<Seq<u8>, ParseError>(ascii_bytes(text_of(cs))),
{
    let t = text_of(cs);
    let bytes = ascii_bytes(t);
    lemma_ascii_text(cs);
    assert forall|i: int| 0 <= i < cs.len() implies '0' <= (#[trigger] cs[i]).ch <= '9' by {
        assert(is_digit(bytes[i]));
    }
    lemma_canonical_text(cs);
    let u = normalized(cs);
    assert(ipi_start(u) == 0);
    assert(ipi_canonical(u) is Some);
    assert(ipi_canonical(u)->0 =~= t);
    lemma_ascii_encoding(t);
}

/// Parses an IPN from already classified characters: exactly 8 digits.
pub fn parse_ipn_chars(cs: &[ClassifiedChar]) -> (r: Result<Ipn, ParseError>)
    ensures
        parsed_as(r, ipn_outcome(cs@)),
{
    let u = normalize(cs);
    match match_ipn(u.as_slice()) {
        None => Err(ParseError::PatternMismatch),
        Some(canon) => encode_within::<8>(&canon),
    }
}

/// Parses a tolerant International Performer Number (surrounding white
/// space allowed) into its canonical 8 digits.
///
/// Whatever it returns passes the on-chain IPN rule, and an input already
/// in canonical form comes back unchanged.
pub fn parse_ipn(s: &str) -> (r: Result<Ipn, ParseError>)
    ensures
        parsed_as(r, ipn_outcome(classified_text(s@))),
        r matches Ok(v) ==> ipn_format(v@) is Ok,
        is_ascii_chars(s@) && ipn_format(ascii_bytes(s@)) is Ok ==> (r matches Ok(v) && v@
            == ascii_bytes(s@)),
{
    let cs = classify(s);
    proof {
        assert(text_of(cs@) =~= s@);
        lemma_ipn_outcome_valid(cs@);
        if is_ascii_chars(s@) && ipn_format(ascii_bytes(s@)) is Ok {
            lemma_ipn_round_trip(cs@);
        }
    }
    parse_ipn_chars(cs.as_slice())
}

/// Whatever the IPN parser accepts passes the on-chain IPN rule.
pub proof fn lemma_ipn_outcome_valid(cs: Seq<ClassifiedChar>)
    requires
        forall|i: int| 0 <= i < cs.len() ==> ascii_classes_hold(#[trigger] cs[i]),
    ensures
        ipn_outcome(cs) matches Ok(b) ==> ipn_format(b) is Ok,
{
    let u = normalized(cs);
    lemma_normalized_classes(cs);
    if let Some(canon) = ipn_canonical(u) {
        if encode_utf8(canon).len() <= 8 {
            lemma_fitting_encoding_is_ascii(canon, 8);
            let bytes = encode_utf8(canon);
            assert forall|k: int| 0 <= k < 8 implies #[trigger] is_digit(bytes[k]) by {
                assert(canon[k] == u[k].ch);
                assert(in_class(CharClass::Digit, u[k]));
                lemma_ascii_char_byte(canon[k]);
            }
        }
    }
}

/// An IPN already in canonical ASCII form parses to itself.
pub proof fn lemma_ipn_round_trip(cs: Seq<ClassifiedChar>)
    requires
        forall|i: int| 0 <= i < cs.len() ==> ascii_classes_hold(#[trigger] cs[i]),
        is_ascii_chars(text_of(cs)),
        ipn_format(ascii_bytes(text_of(cs))) is Ok,
    ensures
        ipn_outcome(cs) == Ok::<Seq<u8>, ParseError>(ascii_bytes(text_of(cs))),
{
    let t = text_of(cs);
    let bytes = ascii_bytes(t);
    lemma_ascii_text(cs);
    assert forall|i: int| 0 <= i < cs.len() implies '0' <= (#[trigger] cs[i]).ch <= '9' by {
        assert(is_digit(bytes[i]));
    }
    lemma_canonical_text(cs);
    let u = normalized(cs);
    assert(ipn_canonical(u) is Some);
    assert(ipn_canonical(u)->0 =~= t);
    lemma_ascii_encoding(t);
}

/// Parses an ISRC from already classified characters: country, registrant,
/// year and designation, with optional `-` between segments, either case.
pub fn parse_isrc_chars(cs: &[ClassifiedChar]) -> (r: Result<Isrc, ParseError>)
    ensures
        parsed_as(r, isrc_outcome(cs@)),
{
    let u = normalize(cs);
    match match_isrc(u.as_slice()) {
        None => Err(ParseError::PatternMismatch),
        Some(canon) => encode_within::<12>(&canon),
    }
}

/// Parses a tolerant ISRC string into the canonical 12-byte form (country +
/// registrant + year + designation, no separators).
///
/// Accepted shapes (case-insensitive): `USRC17607839`, `US-RC1-76-07839`,
/// partial separators such as `USRC1-76-07839`, and surrounding white
/// space. Whatever it returns passes the on-chain ISRC rule, and an input
/// already in canonical form comes back unchanged.
pub fn parse_isrc(s: &str) -> (r: Result<Isrc, ParseError>)
    ensures
        parsed_as(r, isrc_outcome(classified_text(s@))),
        r matches Ok(v) ==> isrc_format(v@) is Ok,
        is_ascii_chars(s@) && isrc_format(ascii_bytes(s@)) is Ok ==> (r matches Ok(v) && v@
            == ascii_bytes(s@)),
{
    let cs = classify(s);
    proof {
        assert(text_of(cs@) =~= s@);
        lemma_isrc_outcome_valid(cs@);
        if is_ascii_chars(s@) && isrc_format(ascii_bytes(s@)) is Ok {
            lemma_isrc_round_trip(cs@);
        }
    }
    parse_isrc_chars(cs.as_slice())
}

/// Whatever the ISRC parser accepts passes the on-chain ISRC rule.
pub proof fn lemma_isrc_outcome_valid(cs: Seq<ClassifiedChar>)
    requires
        forall|i: int| 0 <= i < cs.len() ==> ascii_classes_hold(#[trigger] cs[i]),
    ensures
        isrc_outcome(cs) matches Ok(b) ==> isrc_format(b) is Ok,
{
    let u = normalized(cs);
    lemma_normalized_classes(cs);
    if let Some(canon) = isrc_canonical(u) {
        if encode_utf8(canon).len() <= 12 {
            let a = skip_char(u, 2, '-');
            let b = skip_char(u, a + 3, '-');
            let c = skip_char(u, b + 2, '-');
            assert(canon.len() == 12);
            lemma_fitting_encoding_is_ascii(canon, 12);
            let bytes = encode_utf8(canon);
            assert forall|k: int| 0 <= k < 2 implies #[trigger] is_upper(bytes[k]) by {
                assert(canon[k] == u[k].ch);
                assert(in_class(CharClass::Upper, u[k]));
                lemma_ascii_char_byte(canon[k]);
            }
            assert forall|k: int| 2 <= k < 5 implies is_upper(#[trigger] bytes[k]) || is_digit(
                bytes[k],
            ) by {
                assert(canon[k] == u[a + k - 2].ch);
                assert(in_class(CharClass::UpperOrAsciiDigit, u[a + k - 2]));
                lemma_ascii_char_byte(canon[k]);
            }
            assert forall|k: int| 5 <= k < 12 implies #[trigger] is_digit(bytes[k]) by {
                let m = if k < 7 {
                    b + k - 5
                } else {
                    c + k - 7
                };
                assert(canon[k] == u[m].ch);
                assert(in_class(CharClass::Digit, u[m]));
                lemma_ascii_char_byte(canon[k]);
            }
        }
    }
}

/// An ISRC already in canonical ASCII form parses to itself.
pub proof fn lemma_isrc_round_trip(cs: Seq<ClassifiedChar>)
    requires
        forall|i: int| 0 <= i < cs.len() ==> ascii_classes_hold(#[trigger] cs[i]),
        is_ascii_chars(text_of(cs)),
        isrc_format(ascii_bytes(text_of(cs))) is Ok,
    ensures
        isrc_outcome(cs) == Ok::<Seq<u8>, ParseError>(ascii_bytes(text_of(cs))),
{
    let t = text_of(cs);
    let bytes = ascii_bytes(t);
    lemma_ascii_text(cs);
    assert(cs.len() == 12);
    assert forall|i: int| 0 <= i < 12 implies ('0' <= (#[trigger] cs[i]).ch <= '9') || ('A'
        <= cs[i].ch <= 'Z') by {
        if i < 2 {
            assert(is_upper(bytes[i]));
        } else if i < 5 {
            assert(is_upper(bytes[i]) || is_digit(bytes[i]));
        } else {
            assert(is_digit(bytes[i]));
        }
    }
    lemma_canonical_text(cs);
    let u = normalized(cs);
    assert(skip_char(u, 2, '-') == 2);
    assert(skip_char(u, 5, '-') == 5);
    assert(skip_char(u, 7, '-') == 7);
    assert forall|i: int| 5 <= i < 12 implies #[trigger] in_class(CharClass::Digit, u[i]) by {
        assert(is_digit(bytes[i]));
    }
    assert forall|i: int| 0 <= i < 2 implies #[trigger] in_class(CharClass::Upper, u[i]) by {
        assert(is_upper(bytes[i]));
    }
    assert forall|i: int| 2 <= i < 5 implies #[trigger] in_class(
        CharClass::UpperOrAsciiDigit,
        u[i],
    ) by {
        assert(is_upper(bytes[i]) || is_digit(bytes[i]));
    }
    assert(run_at(u, 0, 2, CharClass::Upper));
    assert(run_at(u, 2, 3, CharClass::UpperOrAsciiDigit));
    assert(run_at(u, 5, 2, CharClass::Digit));
    assert(run_at(u, 7, 5, CharClass::Digit));
    assert(isrc_canonical(u) is Some);
    assert(isrc_canonical(u)->0 =~= t);
    lemma_ascii_encoding(t);
}

/// `u8::is_ascii_whitespace`: SPACE, TAB, LF, FF or CR.
pub open spec fn ascii_whitespace_byte(b: u8) -> bool {
    b == 32 || b == 9 || b == 10 || b == 12 || b == 13
}

/// Bytes a barcode keeps: everything but ASCII white space and `-`.
pub open spec fn upc_kept(b: u8) -> bool {
    !ascii_whitespace_byte(b) && b != 45
}

/// The input bytes with every ASCII white space and `-` removed.
pub open spec fn upc_cleaned(bytes: Seq<u8>) -> Seq<u8> {
    bytes.filter(|b: u8| upc_kept(b))
}

/// Outcome of the UPC parser on the input's bytes.
pub open spec fn upc_outcome(bytes: Seq<u8>) -> Result<Seq<u8>, ParseError> {
    let c = upc_cleaned(bytes);
    if (c.len() != 12 && c.len() != 13) || !digits_between(c, 0, c.len() as int) {
        Err(ParseError::PatternMismatch)
    } else {
        Ok(c)
    }
}

/// Parses a tolerant UPC / EAN string into the canonical digits-only form
/// (12 digits for UPC-A, 13 for EAN-13 / GTIN-13).
///
/// Every ASCII white space and `-` is stripped (`4 006381 333931`,
/// `0-36000-29145-2`) before the digit / length check. The check digit is
/// not verified here: that is the warning-only `verify_upc_checksum`.
/// Whatever it returns passes the on-chain UPC rule, and a canonical input
/// comes back unchanged.
pub fn parse_upc(s: &str) -> (r: Result<Upc, ParseError>)
    ensures
        parsed_as(r, upc_outcome(s.spec_bytes())),
        r matches Ok(v) ==> upc_format(v@) is Ok,
        upc_format(s.spec_bytes()) is Ok ==> (r matches Ok(v) && v@ == s.spec_bytes()),
{
    let bytes = s.as_bytes();
    let mut cleaned: Vec<u8> = Vec::new();
    let mut i: usize = 0;
    while i < bytes.len()
        invariant
            i <= bytes@.len(),
            cleaned@ == bytes@.subrange(0, i as int).filter(|b: u8| upc_kept(b)),
        decreases bytes@.len() - i,
    {
        let b = bytes[i];
        proof {
            let pre = bytes@.subrange(0, i as int + 1);
            assert(pre.drop_last() =~= bytes@.subrange(0, i as int));
            assert(pre.last() == b);
            reveal(Seq::filter);
        }
        if !(b == 32 || b == 9 || b == 10 || b == 12 || b == 13) && b != 45 {
            cleaned.push(b);
        }
        i += 1;
    }
    assert(bytes@.subrange(0, bytes@.len() as int) =~= bytes@);
    proof {
        if upc_format(s.spec_bytes()) is Ok {
            lemma_filter_keeps_all(bytes@);
        }
    }
    let n = cleaned.len();
    if n != 12 && n != 13 {
        return Err(ParseError::PatternMismatch);
    }
    if !crate::identifier::all_digits(cleaned.as_slice(), 0, n) {
        return Err(ParseError::PatternMismatch);
    }
    match Bounded::try_new(cleaned) {
        Ok(v) => Ok(v),
        Err(_) => Err(ParseError::OutOfBounds),
    }
}

/// Cleaning keeps a digits-only input as it is.
proof fn lemma_filter_keeps_all(bytes: Seq<u8>)
    requires
        digits_between(bytes, 0, bytes.len() as int),
    ensures
        upc_cleaned(bytes) == bytes,
    decreases bytes.len(),
{
    reveal(Seq::filter);
    if bytes.len() > 0 {
        let rest = bytes.drop_last();
        assert(forall|i: int| 0 <= i < rest.len() ==> rest[i] == bytes[i]);
        lemma_filter_keeps_all(rest);
        assert(is_digit(bytes[bytes.len() - 1]));
        assert(upc_kept(bytes.last()));
        assert(bytes =~= rest.push(bytes.last()));
    }
}

} // verus!
