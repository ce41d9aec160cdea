//! Parser-tolerant builders that aggregate per-field errors.
//!
//! Distinct from the test-ergonomic builders in `fixtures`, which take
//! already-bounded bytes and panic on overflow. These builders accept
//! free-form `&str` inputs (anything the `parse_*` functions accept),
//! normalise them through the tolerant parsers, and surface every per-field
//! failure at once via [`BuildError::Fields`]: a user who typed several bad
//! fields gets every problem flagged in one pass.
//!
//! Each builder has a spec-level model (its view) of the raw inputs it
//! holds; `build` is specified over that model: which mandatory input is
//! missing, the exact list of field diagnostics, and otherwise the payload.
use vstd::prelude::*;
use vstd::string::StringExecFns;
use vstd::utf8::encode_utf8;

use crate::bounded::{Bounded, MiddsString};
use crate::error::{field_error_view, parse_error_message, FieldError, ParseError};
use crate::identifier::{Ipi, Isni};
use crate::parse::{
    char_is_whitespace, classified_text, ipi_outcome, ipn_outcome, isni_outcome, isrc_outcome,
    iswc_outcome, parse_ipi, parse_isni, white_space_property, upc_outcome,
};
use crate::shared::{PartyId, Title};
use crate::text::{decimal_chars, decimal_string};

pub mod musical_work;
pub mod recording;
pub mod release;

pub use musical_work::MusicalWorkBuilder;

verus! {

/// Outcome of the tolerant ISWC parser on raw text.
pub open spec fn iswc_text(raw: Seq<char>) -> Result<Seq<u8>, ParseError> {
    iswc_outcome(classified_text(raw))
}

/// Outcome of the tolerant IPI parser on raw text.
pub open spec fn ipi_text(raw: Seq<char>) -> Result<Seq<u8>, ParseError> {
    ipi_outcome(classified_text(raw))
}

/// Outcome of the tolerant ISNI parser on raw text.
pub open spec fn isni_text(raw: Seq<char>) -> Result<Seq<u8>, ParseError> {
    isni_outcome(classified_text(raw))
}

/// Outcome of the tolerant IPN parser on raw text.
pub open spec fn ipn_text(raw: Seq<char>) -> Result<Seq<u8>, ParseError> {
    ipn_outcome(classified_text(raw))
}

/// Outcome of the tolerant ISRC parser on raw text.
pub open spec fn isrc_text(raw: Seq<char>) -> Result<Seq<u8>, ParseError> {
    isrc_outcome(classified_text(raw))
}

/// Outcome of the tolerant UPC parser on raw text.
pub open spec fn upc_text(raw: Seq<char>) -> Result<Seq<u8>, ParseError> {
    upc_outcome(encode_utf8(raw))
}

/// The text of an optional string.
pub open spec fn opt_text(s: Option<String>) -> Option<Seq<char>> {
    match s {
        Some(t) => Some(t@),
        None => None,
    }
}

/// A field diagnostic as the contracts see it: field name and message.
pub type FieldErrorView = (Seq<char>, Seq<char>);

/// The diagnostics of `errors`, in order.
pub open spec fn errors_view(errors: Seq<FieldError>) -> Seq<FieldErrorView> {
    errors.map_values(|e: FieldError| field_error_view(e))
}

/// `errors` grew from `before` by exactly `added`.
pub open spec fn appended(
    before: Seq<FieldError>,
    after: Seq<FieldError>,
    added: Seq<FieldErrorView>,
) -> bool {
    errors_view(after) == errors_view(before) + added
}

/// Drops leading `White_Space` characters.
pub open spec fn trim_text_start(s: Seq<char>) -> Seq<char>
    decreases s.len(),
{
    if s.len() > 0 && white_space_property(s[0]) {
        trim_text_start(s.drop_first())
    } else {
        s
    }
}

/// Drops trailing `White_Space` characters.
pub open spec fn trim_text_end(s: Seq<char>) -> Seq<char>
    decreases s.len(),
{
    if s.len() > 0 && white_space_property(s.last()) {
        trim_text_end(s.drop_last())
    } else {
        s
    }
}

/// `s` without leading and trailing `White_Space` (std's `str::trim`).
pub open spec fn trimmed_text(s: Seq<char>) -> Seq<char> {
    trim_text_end(trim_text_start(s))
}

/// `s` trimmed of leading and trailing `White_Space`.
pub fn trim(s: &str) -> (r: String)
    ensures
        r@ == trimmed_text(s@),
{
    broadcast use vstd::string::group_string_axioms;

    let mut chars: Vec<char> = Vec::new();
    let mut ws: Vec<bool> = Vec::new();
    for c in it: s.chars()
        invariant
            it.seq() == s@,
            chars@ == it.seq().take(it.index() as int),
            ws@.len() == chars@.len(),
            forall|k: int| 0 <= k < ws@.len() ==> ws@[k] == white_space_property(#[trigger] chars@[k]),
    {
        chars.push(c);
        ws.push(char_is_whitespace(c));
    }
    assert(chars@ =~= s@);
    let n = chars.len();
    let mut i: usize = 0;
    assert(chars@.subrange(0, n as int) =~= chars@);
    while i < n && ws[i]
        invariant
            n == chars@.len(),
            n == ws@.len(),
            forall|k: int| 0 <= k < n ==> ws@[k] == white_space_property(#[trigger] chars@[k]),
            i <= n,
            trim_text_start(chars@) == trim_text_start(chars@.subrange(i as int, n as int)),
        decreases n - i,
    {
        assert(chars@.subrange(i as int, n as int).drop_first() =~= chars@.subrange(
            i as int + 1,
            n as int,
        ));
        i += 1;
    }
    assert(trim_text_start(chars@) == chars@.subrange(i as int, n as int));
    let mut j: usize = n;
    while j > i && ws[j - 1]
        invariant
            n == chars@.len(),
            n == ws@.len(),
            forall|k: int| 0 <= k < n ==> ws@[k] == white_space_property(#[trigger] chars@[k]),
            i <= j <= n,
            trim_text_end(chars@.subrange(i as int, n as int)) == trim_text_end(
                chars@.subrange(i as int, j as int),
            ),
        decreases j - i,
    {
        assert(chars@.subrange(i as int, j as int).drop_last() =~= chars@.subrange(
            i as int,
            j as int - 1,
        ));
        j -= 1;
    }
    assert(trim_text_end(chars@.subrange(i as int, j as int)) == chars@.subrange(
        i as int,
        j as int,
    ));
    let mut out = String::new();
    let mut k: usize = i;
    while k < j
        invariant
            n == chars@.len(),
            i <= k <= j <= n,
            out@ =~= chars@.subrange(i as int, k as int),
        decreases j - k,
    {
        crate::text::push_char(&mut out, chars[k]);
        k += 1;
    }
    out
}

/// The UTF-8 bytes of `s`.
pub fn utf8_bytes(s: &String) -> (r: Vec<u8>)
    ensures
        r@ == encode_utf8(s@),
{
    let v = s.as_str();
    v.as_bytes_vec()
}

/// `"#i "`: the position prefix of a list entry's message.
pub open spec fn index_prefix(i: nat) -> Seq<char> {
    "#"@ + decimal_chars(i) + " "@
}

/// Diagnostic of a free-text input bounded to `cap` bytes: empty after
/// trimming, too long, or none.
pub open spec fn text_errors(
    field: Seq<char>,
    subject: Seq<char>,
    raw: Seq<char>,
    cap: nat,
) -> Seq<FieldErrorView> {
    let t = trimmed_text(raw);
    if t.len() == 0 {
        seq![(field, subject + " is empty after trimming"@)]
    } else if encode_utf8(t).len() > cap {
        seq![
            (
                field,
                subject + " is "@ + decimal_chars(encode_utf8(t).len()) + " bytes, exceeds "@
                    + decimal_chars(cap) + "-byte bound"@,
            ),
        ]
    } else {
        seq![]
    }
}

/// Diagnostic of a failed parse of `raw`.
pub open spec fn parse_errors(
    field: Seq<char>,
    prefix: Seq<char>,
    raw: Seq<char>,
    o: Result<Seq<u8>, ParseError>,
) -> Seq<FieldErrorView> {
    match o {
        Ok(_) => seq![],
        Err(e) => seq![(field, prefix + "`"@ + raw + "`: "@ + parse_error_message(e))],
    }
}

/// Diagnostic of a list holding `n` accepted entries where at most `max`
/// fit.
pub open spec fn count_errors(
    field: Seq<char>,
    noun: Seq<char>,
    n: nat,
    max: nat,
) -> Seq<FieldErrorView> {
    if n > max {
        seq![
            (
                field,
                decimal_chars(n) + " "@ + noun + "provided, exceeds "@ + decimal_chars(max)
                    + " max"@,
            ),
        ]
    } else {
        seq![]
    }
}

/// Diagnostic of an off-chain extension input: empty or above 64 bytes.
pub open spec fn offchain_errors(raw: Option<Seq<char>>) -> Seq<FieldErrorView> {
    match raw {
        Some(r) => if encode_utf8(r).len() == 0 || encode_utf8(r).len() > 64 {
            seq![("offchain_extension"@, "empty or larger than 64-byte bound"@)]
        } else {
            seq![]
        },
        None => seq![],
    }
}

/// Appends one diagnostic.
pub(crate) fn push_error(errors: &mut Vec<FieldError>, field: &'static str, message: String)
    ensures
        appended(old(errors)@, final(errors)@, seq![(field@, message@)]),
{
    let ghost before = errors@;
    errors.push(FieldError { field, message });
    assert(errors_view(errors@) =~= errors_view(before) + seq![(field@, message@)]);
}

/// `"#i "` for position `i`.
pub(crate) fn index_prefix_string(i: usize) -> (r: String)
    ensures
        r@ == index_prefix(i as nat),
{
    let mut s = String::from_str("#");
    let d = decimal_string(i as u64);
    s.append(d.as_str());
    s.append(" ");
    s
}

/// Trims `raw` and bounds its bytes to `N`; on failure records why under
/// `field`, naming the input `subject` in the message.
pub(crate) fn bounded_text<const N: u32>(
    raw: &str,
    field: &'static str,
    subject: &String,
    errors: &mut Vec<FieldError>,
) -> (r: Option<MiddsString<N>>)
    ensures
        appended(old(errors)@, final(errors)@, text_errors(field@, subject@, raw@, N as nat)),
        r is Some <==> text_errors(field@, subject@, raw@, N as nat).len() == 0,
        r matches Some(v) ==> v@ == encode_utf8(trimmed_text(raw@)),
{
    let t = trim(raw);
    if t.as_str().unicode_len() == 0 {
        let mut m = String::from_str(subject.as_str());
        m.append(" is empty after trimming");
        push_error(errors, field, m);
        return None;
    }
    let bytes = utf8_bytes(&t);
    let n = bytes.len();
    match Bounded::<u8, N>::try_new(bytes) {
        Ok(v) => Some(v),
        Err(_) => {
            let mut m = String::from_str(subject.as_str());
            m.append(" is ");
            let len_text = decimal_string(n as u64);
            m.append(len_text.as_str());
            m.append(" bytes, exceeds ");
            let cap_text = decimal_string(N as u64);
            m.append(cap_text.as_str());
            m.append("-byte bound");
            push_error(errors, field, m);
            None
        },
    }
}

/// Records a failed parse of `raw` under `field`.
pub(crate) fn push_parse_error(
    errors: &mut Vec<FieldError>,
    field: &'static str,
    prefix: &String,
    raw: &str,
    e: ParseError,
)
    ensures
        appended(
            old(errors)@,
            final(errors)@,
            parse_errors(field@, prefix@, raw@, Err::<Seq<u8>, ParseError>(e)),
        ),
{
    let mut m = String::from_str(prefix.as_str());
    m.append("`");
    m.append(raw);
    m.append("`: ");
    m.append(e.message());
    push_error(errors, field, m);
}

/// Records, under `field`, that `n` accepted entries exceed `max`.
pub(crate) fn check_count(
    errors: &mut Vec<FieldError>,
    field: &'static str,
    noun: &str,
    n: usize,
    max: u32,
) -> (r: bool)
    ensures
        appended(old(errors)@, final(errors)@, count_errors(field@, noun@, n as nat, max as nat)),
        r == (n <= max),
{
    if n > max as usize {
        let mut m = decimal_string(n as u64);
        m.append(" ");
        m.append(noun);
        m.append("provided, exceeds ");
        let max_text = decimal_string(max as u64);
        m.append(max_text.as_str());
        m.append(" max");
        push_error(errors, field, m);
        false
    } else {
        let ghost before = errors@;
        assert(errors_view(errors@) =~= errors_view(before) + seq![]);
        true
    }
}

/// Bounds an off-chain extension input to a non-empty hash of at most 64
/// bytes; records an `offchain_extension` diagnostic otherwise.
pub(crate) fn offchain_hash(raw: &Option<String>, errors: &mut Vec<FieldError>) -> (r: Option<
    Option<crate::identifier::OffchainHash>,
>)
    ensures
        appended(
            old(errors)@,
            final(errors)@,
            offchain_errors(
                match raw {
                    Some(s) => Some(s@),
                    None => None,
                },
            ),
        ),
        r is Some <==> offchain_errors(
            match raw {
                Some(s) => Some(s@),
                None => None,
            },
        ).len() == 0,
        r matches Some(h) ==> (match raw {
            Some(s) => h matches Some(v) && v@ == encode_utf8(s@),
            None => h is None,
        }),
{
    match raw {
        Some(s) => {
            let bytes = utf8_bytes(s);
            match Bounded::<u8, 64>::try_new(bytes) {
                Ok(h) => {
                    if h.is_empty() {
                        push_error(
                            errors,
                            "offchain_extension",
                            String::from_str("empty or larger than 64-byte bound"),
                        );
                        None
                    } else {
                        let ghost before = errors@;
                        assert(errors_view(errors@) =~= errors_view(before) + seq![]);
                        Some(Some(h))
                    }
                },
                Err(_) => {
                    push_error(
                        errors,
                        "offchain_extension",
                        String::from_str("empty or larger than 64-byte bound"),
                    );
                    None
                },
            }
        },
        None => {
            let ghost before = errors@;
            assert(errors_view(errors@) =~= errors_view(before) + seq![]);
            Some(None)
        },
    }
}

/// Registry a raw party identifier is read against.
#[derive(Debug, Clone, Copy, PartialEq, Eq, Structural)]
pub enum PartyKind {
    /// An IPI Name Number.
    Ipi,
    /// An ISNI.
    Isni,
}

/// Model of a party input: the raw text and how to read it.
pub struct PartyDraft {
    pub raw: Seq<char>,
    pub kind: PartyKind,
}

/// A raw party identifier typed by the user.
#[derive(Debug, Clone)]
pub(crate) struct PartyInput {
    pub(crate) raw: String,
    pub(crate) kind: PartyKind,
}

impl View for PartyInput {
    type V = PartyDraft;

    closed spec fn view(&self) -> PartyDraft {
        PartyDraft { raw: self.raw@, kind: self.kind }
    }
}

impl PartyInput {
    /// A party input with the given text and registry.
    pub(crate) fn new(raw: &str, kind: PartyKind) -> (r: Self)
        ensures
            r@ == (PartyDraft { raw: raw@, kind }),
    {
        PartyInput { raw: String::from_str(raw), kind }
    }
}

/// Parse outcome of a party input.
pub open spec fn party_outcome(d: PartyDraft) -> Result<Seq<u8>, ParseError> {
    match d.kind {
        PartyKind::Ipi => ipi_text(d.raw),
        PartyKind::Isni => isni_text(d.raw),
    }
}

/// `p` is the party a valid party input parses to.
pub open spec fn party_built(d: PartyDraft, p: PartyId) -> bool {
    match d.kind {
        PartyKind::Ipi => p matches PartyId::Ipi(v) && v@ == ipi_text(d.raw)->Ok_0,
        PartyKind::Isni => p matches PartyId::Isni(v) && v@ == isni_text(d.raw)->Ok_0,
    }
}

/// Parses a party input; on failure records it under `field` with the
/// message prefix `prefix`.
pub(crate) fn parse_party(
    input: &PartyInput,
    field: &'static str,
    prefix: &String,
    errors: &mut Vec<FieldError>,
) -> (r: Option<PartyId>)
    ensures
        appended(
            old(errors)@,
            final(errors)@,
            parse_errors(field@, prefix@, input@.raw, party_outcome(input@)),
        ),
        r is Some <==> party_outcome(input@) is Ok,
        r matches Some(p) ==> party_built(input@, p),
{
    let ghost before = errors@;
    let parsed: Result<PartyId, ParseError> = match input.kind {
        PartyKind::Ipi => match parse_ipi(input.raw.as_str()) {
            Ok(v) => Ok(PartyId::Ipi(v)),
            Err(e) => Err(e),
        },
        PartyKind::Isni => match parse_isni(input.raw.as_str()) {
            Ok(v) => Ok(PartyId::Isni(v)),
            Err(e) => Err(e),
        },
    };
    match parsed {
        Ok(p) => {
            assert(errors_view(errors@) =~= errors_view(before) + seq![]);
            Some(p)
        },
        Err(e) => {
            push_parse_error(errors, field, prefix, input.raw.as_str(), e);
            None
        },
    }
}

/// Diagnostics of a list of party inputs, in order.
pub open spec fn party_list_errors(field: Seq<char>, ds: Seq<PartyDraft>) -> Seq<FieldErrorView>
    decreases ds.len(),
{
    if ds.len() == 0 {
        seq![]
    } else {
        party_list_errors(field, ds.drop_last()) + parse_errors(
            field,
            index_prefix((ds.len() - 1) as nat),
            ds.last().raw,
            party_outcome(ds.last()),
        )
    }
}

/// The party inputs that parse, in order.
pub open spec fn valid_parties(ds: Seq<PartyDraft>) -> Seq<PartyDraft> {
    ds.filter(|d: PartyDraft| party_outcome(d) is Ok)
}

/// Parses every party input of a list bounded to `N` entries; `None` when
/// the parsed entries exceed the bound (diagnostic `"{n} provided, exceeds
/// {N} max"`).
pub(crate) fn parse_party_list<const N: u32>(
    inputs: &Vec<PartyInput>,
    field: &'static str,
    errors: &mut Vec<FieldError>,
) -> (r: Option<Bounded<PartyId, N>>)
    ensures
        appended(
            old(errors)@,
            final(errors)@,
            party_list_errors(field@, inputs@.map_values(|p: PartyInput| p@)) + count_errors(
                field@,
                seq![],
                valid_parties(inputs@.map_values(|p: PartyInput| p@)).len(),
                N as nat,
            ),
        ),
        r is Some <==> valid_parties(inputs@.map_values(|p: PartyInput| p@)).len() <= N,
        r matches Some(ps) ==> ({
            let valid = valid_parties(inputs@.map_values(|p: PartyInput| p@));
            &&& ps@.len() == valid.len()
            &&& forall|k: int| 0 <= k < valid.len() ==> party_built(valid[k], #[trigger] ps@[k])
        }),
{
    let ghost ds = inputs@.map_values(|p: PartyInput| p@);
    let ghost e0 = errors@;
    let mut out: Vec<PartyId> = Vec::new();
    let mut i: usize = 0;
    while i < inputs.len()
        invariant
            i <= inputs@.len(),
            ds == inputs@.map_values(|p: PartyInput| p@),
            appended(e0, errors@, party_list_errors(field@, ds.subrange(0, i as int))),
            out@.len() == valid_parties(ds.subrange(0, i as int)).len(),
            forall|k: int|
                0 <= k < out@.len() ==> party_built(
                    valid_parties(ds.subrange(0, i as int))[k],
                    #[trigger] out@[k],
                ),
        decreases inputs@.len() - i,
    {
        let prefix = index_prefix_string(i);
        let one = parse_party(&inputs[i], field, &prefix, errors);
        proof {
            let pre = ds.subrange(0, i as int);
            let post = ds.subrange(0, i as int + 1);
            assert(post.drop_last() =~= pre);
            assert(post.last() == inputs@[i as int]@);
            reveal(Seq::filter);
            assert(errors_view(errors@) =~= errors_view(e0) + party_list_errors(field@, post));
        }
        match one {
            Some(p) => {
                out.push(p);
            },
            None => {},
        }
        i += 1;
    }
    assert(ds.subrange(0, inputs@.len() as int) =~= ds);
    let fits = check_count(errors, field, "", out.len(), N);
    assert(""@ =~= Seq::<char>::empty()) by {
        reveal_strlit("");
    }
    assert(errors_view(errors@) =~= errors_view(e0) + (party_list_errors(field@, ds)
        + count_errors(field@, seq![], valid_parties(ds).len(), N as nat)));
    if fits {
        match Bounded::try_new(out) {
            Ok(b) => Some(b),
            Err(_) => None,
        }
    } else {
        None
    }
}

/// Diagnostics of title-alias inputs, in order.
pub open spec fn alias_errors(ds: Seq<Seq<char>>) -> Seq<FieldErrorView>
    decreases ds.len(),
{
    if ds.len() == 0 {
        seq![]
    } else {
        alias_errors(ds.drop_last()) + text_errors(
            "title_aliases"@,
            "alias #"@ + decimal_chars((ds.len() - 1) as nat),
            ds.last(),
            256,
        )
    }
}

/// A title-alias input is non-empty after trimming and fits a title.
pub open spec fn alias_valid(raw: Seq<char>) -> bool {
    trimmed_text(raw).len() > 0 && encode_utf8(trimmed_text(raw)).len() <= 256
}

/// The alias inputs that yield an alias, in order.
pub open spec fn valid_aliases(ds: Seq<Seq<char>>) -> Seq<Seq<char>> {
    ds.filter(|raw: Seq<char>| alias_valid(raw))
}

/// Builds the title aliases (at most 8), recording every diagnostic.
pub(crate) fn build_title_aliases(raws: &Vec<String>, errors: &mut Vec<FieldError>) -> (r: Option<
    Bounded<Title, 8>,
>)
    ensures
        appended(
            old(errors)@,
            final(errors)@,
            alias_errors(raws@.map_values(|s: String| s@)) + count_errors(
                "title_aliases"@,
                "aliases "@,
                valid_aliases(raws@.map_values(|s: String| s@)).len(),
                8,
            ),
        ),
        r is Some <==> valid_aliases(raws@.map_values(|s: String| s@)).len() <= 8,
        r matches Some(ts) ==> ({
            let valid = valid_aliases(raws@.map_values(|s: String| s@));
            &&& ts@.len() == valid.len()
            &&& forall|k: int|
                0 <= k < valid.len() ==> (#[trigger] ts@[k])@ == encode_utf8(
                    trimmed_text(valid[k]),
                )
        }),
{
    let ghost ds = raws@.map_values(|s: String| s@);
    let ghost e0 = errors@;
    let mut out: Vec<Title> = Vec::new();
    let mut i: usize = 0;
    while i < raws.len()
        invariant
            i <= raws@.len(),
            ds == raws@.map_values(|s: String| s@),
            appended(e0, errors@, alias_errors(ds.subrange(0, i as int))),
            out@.len() == valid_aliases(ds.subrange(0, i as int)).len(),
            forall|k: int|
                0 <= k < out@.len() ==> (#[trigger] out@[k])@ == encode_utf8(
                    trimmed_text(valid_aliases(ds.subrange(0, i as int))[k]),
                ),
        decreases raws@.len() - i,
    {
        let mut subject = String::from_str("alias #");
        let num = decimal_string(i as u64);
        subject.append(num.as_str());
        let one = bounded_text::<256>(raws[i].as_str(), "title_aliases", &subject, errors);
        proof {
            let pre = ds.subrange(0, i as int);
            let post = ds.subrange(0, i as int + 1);
            assert(post.drop_last() =~= pre);
            assert(post.last() == raws@[i as int]@);
            reveal(Seq::filter);
            assert(errors_view(errors@) =~= errors_view(e0) + alias_errors(post));
        }
        match one {
            Some(t) => {
                out.push(t);
            },
            None => {},
        }
        i += 1;
    }
    assert(ds.subrange(0, raws@.len() as int) =~= ds);
    let fits = check_count(errors, "title_aliases", "aliases ", out.len(), 8);
    assert(errors_view(errors@) =~= errors_view(e0) + (alias_errors(ds) + count_errors(
        "title_aliases"@,
        "aliases "@,
        valid_aliases(ds).len(),
        8,
    )));
    if fits {
        match Bounded::try_new(out) {
            Ok(b) => Some(b),
            Err(_) => None,
        }
    } else {
        None
    }
}

} // verus!
