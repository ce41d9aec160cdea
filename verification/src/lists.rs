//! Rules applied to every element of a bounded list, in order.
use vstd::prelude::*;

use crate::bounded::{Bounded, MiddsString};
use crate::format_error::MiddsFormatError;
use crate::identifier::{isni_format, validate_isni_format, Isni};
use crate::scan::{first_failure, lemma_first_failure_all_ok, lemma_first_failure_at};
use crate::shared::{non_empty_check, party_id_check, require_non_empty, PartyId};

verus! {

/// Non-empty rule of each text of a list.
pub open spec fn text_rule<const L: u32>(s: Seq<MiddsString<L>>) -> spec_fn(int) -> Result<(), MiddsFormatError> {
    |i: int| non_empty_check(s[i]@)
}

/// Outcome of requiring every text of a list to be non-empty.
pub open spec fn texts_check<const L: u32>(s: Seq<MiddsString<L>>) -> Result<(), MiddsFormatError> {
    first_failure(0, s.len() as int, text_rule(s))
}

/// Party rule of each element of a list.
pub open spec fn party_rule(s: Seq<PartyId>) -> spec_fn(int) -> Result<(), MiddsFormatError> {
    |i: int| party_id_check(s[i])
}

/// Outcome of validating every party of a list in order.
pub open spec fn parties_check(s: Seq<PartyId>) -> Result<(), MiddsFormatError> {
    first_failure(0, s.len() as int, party_rule(s))
}

/// ISNI rule of each element of a list.
pub open spec fn isni_rule(s: Seq<Isni>) -> spec_fn(int) -> Result<(), MiddsFormatError> {
    |i: int| isni_format(s[i]@)
}

/// Outcome of validating every ISNI of a list in order.
pub open spec fn isnis_check(s: Seq<Isni>) -> Result<(), MiddsFormatError> {
    first_failure(0, s.len() as int, isni_rule(s))
}

/// Requires every text of `list` to be non-empty; reports the first failure.
pub fn validate_texts<const L: u32, const M: u32>(list: &Bounded<MiddsString<L>, M>) -> (r: Result<(), MiddsFormatError>)
    ensures
        r == texts_check(list@),
{
    let n = list.len();
    let ghost f = text_rule(list@);
    let mut i: usize = 0;
    while i < n
        invariant
            n == list@.len(),
            i <= n,
            f == text_rule(list@),
            forall|j: int| 0 <= j < i ==> #[trigger] f(j) is Ok,
        decreases n - i,
    {
        let r = require_non_empty(list.get(i).as_slice());
        if r.is_err() {
            proof {
                lemma_first_failure_at(0, n as int, i as int, f);
            }
            return r;
        }
        i += 1;
    }
    proof {
        lemma_first_failure_all_ok(0, n as int, f);
    }
    Ok(())
}

/// Validates every party of `list`; reports the first failure.
pub fn validate_parties<const M: u32>(list: &Bounded<PartyId, M>) -> (r: Result<(), MiddsFormatError>)
    ensures
        r == parties_check(list@),
{
    let n = list.len();
    let ghost f = party_rule(list@);
    let mut i: usize = 0;
    while i < n
        invariant
            n == list@.len(),
            i <= n,
            f == party_rule(list@),
            forall|j: int| 0 <= j < i ==> #[trigger] f(j) is Ok,
        decreases n - i,
    {
        let r = list.get(i).validate_format();
        if r.is_err() {
            proof {
                lemma_first_failure_at(0, n as int, i as int, f);
            }
            return r;
        }
        i += 1;
    }
    proof {
        lemma_first_failure_all_ok(0, n as int, f);
    }
    Ok(())
}

/// Validates every ISNI of `list`; reports the first failure.
pub fn validate_isnis<const M: u32>(list: &Bounded<Isni, M>) -> (r: Result<(), MiddsFormatError>)
    ensures
        r == isnis_check(list@),
{
    let n = list.len();
    let ghost f = isni_rule(list@);
    let mut i: usize = 0;
    while i < n
        invariant
            n == list@.len(),
            i <= n,
            f == isni_rule(list@),
            forall|j: int| 0 <= j < i ==> #[trigger] f(j) is Ok,
        decreases n - i,
    {
        let r = validate_isni_format(list.get(i).as_slice());
        if r.is_err() {
            proof {
                lemma_first_failure_at(0, n as int, i as int, f);
            }
            return r;
        }
        i += 1;
    }
    proof {
        lemma_first_failure_all_ok(0, n as int, f);
    }
    Ok(())
}

} // verus!
