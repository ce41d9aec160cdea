//! Committed corpora of real identifiers, language codes and titles.
//!
//! Each corpus is a JSON array of strings; the functions here take its
//! text, parse it and turn the entries into library values. The `iter_*`
//! readers require a well-formed corpus; each has a `try_iter_*` companion
//! that checks the text first and gives `None` when it is not a JSON array
//! of strings or an entry does not fit (an unknown language code, an
//! identifier longer than its bound).
use vstd::prelude::*;
use vstd::string::StringSliceAdditionalSpecFns;
use vstd::utf8::encode_utf8;

use crate::bounded::{Bounded, MiddsString};
use crate::builder::utf8_bytes;
use crate::identifier::{Ipi, Isni, Iswc};
use crate::language::{language_from_code_spec, Language};

verus! {

/// What `serde_json` parses a JSON text into when the text is an array of
/// strings, or `None` when it is not.
pub uninterp spec fn json_string_array(raw: Seq<char>) -> Option<Seq<Seq<char>>>;

/// Parses `raw` as a JSON array of strings (`serde_json::from_str`).
#[verifier::external_body]
fn parse_string_array(raw: &str) -> (r: Option<Vec<String>>)
    ensures
        r is Some <==> json_string_array(raw@) is Some,
        r matches Some(v) ==> v@.map_values(|s: String| s@) == json_string_array(raw@)->0,
{
    serde_json::from_str::<Vec<String>>(raw).ok()
}

/// The languages the corpus codes name, or `None` if one names none.
pub open spec fn languages_of(codes: Seq<Seq<char>>) -> Option<Seq<Language>>
    decreases codes.len(),
{
    if codes.len() == 0 {
        Some(seq![])
    } else {
        match (languages_of(codes.drop_last()), language_from_code_spec(encode_utf8(codes.last()))) {
            (Some(init), Some(l)) => Some(init.push(l)),
            _ => None,
        }
    }
}

/// The UTF-8 bytes of each corpus entry bounded to `cap`, or `None` if one
/// does not fit.
pub open spec fn entries_within(entries: Seq<Seq<char>>, cap: nat) -> Option<Seq<Seq<u8>>>
    decreases entries.len(),
{
    if entries.len() == 0 {
        Some(seq![])
    } else {
        match entries_within(entries.drop_last(), cap) {
            Some(init) => if encode_utf8(entries.last()).len() <= cap {
                Some(init.push(encode_utf8(entries.last())))
            } else {
                None
            },
            None => None,
        }
    }
}

/// The languages named by a list of ISO 639-1 codes, in order; `None` when
/// a code names no language.
pub fn languages_from_codes(codes: &Vec<String>) -> (r: Option<Vec<Language>>)
    ensures
        match languages_of(codes@.map_values(|s: String| s@)) {
            Some(ls) => r matches Some(v) && v@ == ls,
            None => r is None,
        },
{
    let ghost cs = codes@.map_values(|s: String| s@);
    let mut out: Vec<Language> = Vec::new();
    let mut i: usize = 0;
    while i < codes.len()
        invariant
            i <= codes@.len(),
            cs == codes@.map_values(|s: String| s@),
            languages_of(cs.subrange(0, i as int)) == Some(out@),
        decreases codes@.len() - i,
    {
        let bytes = utf8_bytes(&codes[i]);
        let found = Language::from_code(bytes.as_slice());
        proof {
            assert(cs.subrange(0, i as int + 1).drop_last() =~= cs.subrange(0, i as int));
        }
        match found {
            Some(l) => out.push(l),
            None => {
                proof {
                    lemma_languages_of_none(cs, i as int);
                }
                return None;
            },
        }
        i += 1;
    }
    assert(cs.subrange(0, codes@.len() as int) =~= cs);
    Some(out)
}

/// A code naming no language makes every longer prefix name none.
proof fn lemma_languages_of_none(cs: Seq<Seq<char>>, i: int)
    requires
        0 <= i < cs.len(),
        language_from_code_spec(encode_utf8(cs[i])) is None,
    ensures
        languages_of(cs) is None,
    decreases cs.len(),
{
    if i < cs.len() - 1 {
        lemma_languages_of_none(cs.drop_last(), i);
    }
}

/// An entry longer than the bound makes every longer prefix `None`.
proof fn lemma_entries_within_none(es: Seq<Seq<char>>, i: int, cap: nat)
    requires
        0 <= i < es.len(),
        encode_utf8(es[i]).len() > cap,
    ensures
        entries_within(es, cap) is None,
    decreases es.len(),
{
    if i < es.len() - 1 {
        lemma_entries_within_none(es.drop_last(), i, cap);
    }
}

/// The corpus entries as bounded byte strings of capacity `N`.
fn bounded_entries<const N: u32>(entries: &Vec<String>) -> (r: Option<Vec<MiddsString<N>>>)
    ensures
        match entries_within(entries@.map_values(|s: String| s@), N as nat) {
            Some(bs) => r matches Some(v) && v@.len() == bs.len() && forall|k: int|
                0 <= k < bs.len() ==> (#[trigger] v@[k])@ == bs[k],
            None => r is None,
        },
{
    let ghost es = entries@.map_values(|s: String| s@);
    let mut out: Vec<MiddsString<N>> = Vec::new();
    let mut i: usize = 0;
    while i < entries.len()
        invariant
            i <= entries@.len(),
            es == entries@.map_values(|s: String| s@),
            entries_within(es.subrange(0, i as int), N as nat) matches Some(bs) && out@.len()
                == bs.len() && forall|k: int| 0 <= k < bs.len() ==> (#[trigger] out@[k])@ == bs[k],
        decreases entries@.len() - i,
    {
        let bytes = utf8_bytes(&entries[i]);
        proof {
            assert(es.subrange(0, i as int + 1).drop_last() =~= es.subrange(0, i as int));
        }
        match Bounded::try_new(bytes) {
            Ok(b) => out.push(b),
            Err(_) => {
                proof {
                    lemma_entries_within_none(es, i as int, N as nat);
                }
                return None;
            },
        }
        i += 1;
    }
    assert(es.subrange(0, entries@.len() as int) =~= es);
    Some(out)
}

/// The committed language-code corpus, parsed. The text must be a JSON
/// array of strings each naming a language.
pub fn iter_languages(raw_json: &str) -> (r: Vec<Language>)
    requires
        json_string_array(raw_json@) matches Some(codes) && languages_of(codes) is Some,
    ensures
        r@ == languages_of(json_string_array(raw_json@)->0)->0,
{
    match parse_string_array(raw_json) {
        Some(codes) => match languages_from_codes(&codes) {
            Some(ls) => ls,
            None => Vec::new(),
        },
        None => Vec::new(),
    }
}

/// The language-code corpus, or `None` when the text is not a JSON array of
/// strings or a code names no language.
pub fn try_iter_languages(raw_json: &str) -> (r: Option<Vec<Language>>)
    ensures
        match json_string_array(raw_json@) {
            Some(codes) => match languages_of(codes) {
                Some(ls) => r matches Some(v) && v@ == ls,
                None => r is None,
            },
            None => r is None,
        },
{
    match parse_string_array(raw_json) {
        Some(codes) => match languages_from_codes(&codes) {
            Some(_) => Some(iter_languages(raw_json)),
            None => None,
        },
        None => None,
    }
}

/// The committed title corpus, parsed. The text must be a JSON array of
/// strings.
pub fn iter_titles(raw_json: &str) -> (r: Vec<String>)
    requires
        json_string_array(raw_json@) is Some,
    ensures
        r@.map_values(|s: String| s@) == json_string_array(raw_json@)->0,
{
    match parse_string_array(raw_json) {
        Some(ts) => ts,
        None => Vec::new(),
    }
}

/// The title corpus, or `None` when the text is not a JSON array of
/// strings.
pub fn try_iter_titles(raw_json: &str) -> (r: Option<Vec<String>>)
    ensures
        match json_string_array(raw_json@) {
            Some(ts) => r matches Some(v) && v@.map_values(|s: String| s@) == ts,
            None => r is None,
        },
{
    match parse_string_array(raw_json) {
        Some(_) => Some(iter_titles(raw_json)),
        None => None,
    }
}

/// `v` holds the byte strings `bs`, in order.
pub open spec fn corpus_entries<const N: u32>(v: Seq<MiddsString<N>>, bs: Seq<Seq<u8>>) -> bool {
    v.len() == bs.len() && forall|k: int| 0 <= k < bs.len() ==> (#[trigger] v[k])@ == bs[k]
}

/// The committed ISWC corpus. The text must be a JSON array of strings
/// of at most 11 bytes each.
pub fn iter_real_iswcs(raw_json: &str) -> (r: Vec<Iswc>)
    requires
        json_string_array(raw_json@) matches Some(es) && entries_within(es, 11) is Some,
    ensures
        corpus_entries(r@, entries_within(json_string_array(raw_json@)->0, 11)->0),
{
    match parse_string_array(raw_json) {
        Some(es) => match bounded_entries::<11>(&es) {
            Some(v) => v,
            None => Vec::new(),
        },
        None => Vec::new(),
    }
}

/// The ISWC corpus, or `None` when the text is not a JSON array of
/// strings or an entry exceeds 11 bytes.
pub fn try_iter_real_iswcs(raw_json: &str) -> (r: Option<Vec<Iswc>>)
    ensures
        match json_string_array(raw_json@) {
            Some(es) => match entries_within(es, 11) {
                Some(bs) => r matches Some(v) && corpus_entries(v@, bs),
                None => r is None,
            },
            None => r is None,
        },
{
    match parse_string_array(raw_json) {
        Some(es) => match bounded_entries::<11>(&es) {
            Some(_) => Some(iter_real_iswcs(raw_json)),
            None => None,
        },
        None => None,
    }
}

/// The committed IPI corpus. The text must be a JSON array of strings
/// of at most 11 bytes each.
pub fn iter_real_ipis(raw_json: &str) -> (r: Vec<Ipi>)
    requires
        json_string_array(raw_json@) matches Some(es) && entries_within(es, 11) is Some,
    ensures
        corpus_entries(r@, entries_within(json_string_array(raw_json@)->0, 11)->0),
{
    match parse_string_array(raw_json) {
        Some(es) => match bounded_entries::<11>(&es) {
            Some(v) => v,
            None => Vec::new(),
        },
        None => Vec::new(),
    }
}

/// The IPI corpus, or `None` when the text is not a JSON array of
/// strings or an entry exceeds 11 bytes.
pub fn try_iter_real_ipis(raw_json: &str) -> (r: Option<Vec<Ipi>>)
    ensures
        match json_string_array(raw_json@) {
            Some(es) => match entries_within(es, 11) {
                Some(bs) => r matches Some(v) && corpus_entries(v@, bs),
                None => r is None,
            },
            None => r is None,
        },
{
    match parse_string_array(raw_json) {
        Some(es) => match bounded_entries::<11>(&es) {
            Some(_) => Some(iter_real_ipis(raw_json)),
            None => None,
        },
        None => None,
    }
}

/// The committed ISNI corpus. The text must be a JSON array of strings
/// of at most 16 bytes each.
pub fn iter_real_isnis(raw_json: &str) -> (r: Vec<Isni>)
    requires
        json_string_array(raw_json@) matches Some(es) && entries_within(es, 16) is Some,
    ensures
        corpus_entries(r@, entries_within(json_string_array(raw_json@)->0, 16)->0),
{
    match parse_string_array(raw_json) {
        Some(es) => match bounded_entries::<16>(&es) {
            Some(v) => v,
            None => Vec::new(),
        },
        None => Vec::new(),
    }
}

/// The ISNI corpus, or `None` when the text is not a JSON array of
/// strings or an entry exceeds 16 bytes.
pub fn try_iter_real_isnis(raw_json: &str) -> (r: Option<Vec<Isni>>)
    ensures
        match json_string_array(raw_json@) {
            Some(es) => match entries_within(es, 16) {
                Some(bs) => r matches Some(v) && corpus_entries(v@, bs),
                None => r is None,
            },
            None => r is None,
        },
{
    match parse_string_array(raw_json) {
        Some(es) => match bounded_entries::<16>(&es) {
            Some(_) => Some(iter_real_isnis(raw_json)),
            None => None,
        },
        None => None,
    }
}

} // verus!
