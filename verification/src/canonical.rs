//! Every identifier a structurally valid payload carries is well-formed on
//! its own, so it is a canonical input of the matching tolerant parser:
//! `parse_iswc`, `parse_ipi`, `parse_isni`, `parse_isrc` and `parse_upc`
//! give such bytes back unchanged (their own contracts). Together these say
//! that whatever the on-chain rules accept, the off-chain parsers accept.
use vstd::prelude::*;

use crate::format_error::MiddsFormatError;
use crate::identifier::{ipi_format, isni_format, isrc_format, iswc_format, upc_format};
use crate::lists::{isni_rule, party_rule};
use crate::musical_work::{
    creator_rule, musical_work_v1_check, ref_structure_rule, sample_rule, MusicalWorkV1,
    WorkType,
};
use crate::recording::{performer_rule, recording_v1_check, RecordingV1};
use crate::release::{producer_rule, release_v1_check, track_rule, ReleaseV1};
use crate::scan::lemma_first_failure_ok_iff;
use crate::shared::{PartyId, PerformerId, RecordingRef, WorkRef};

verus! {

/// Every identifier of the party passes its own format rule.
pub open spec fn party_well_formed(p: PartyId) -> bool {
    match p {
        PartyId::Ipi(x) => ipi_format(x@) is Ok,
        PartyId::Isni(x) => isni_format(x@) is Ok,
        PartyId::Both { ipi, isni } => ipi_format(ipi@) is Ok && isni_format(isni@) is Ok,
    }
}

/// The work reference, when it is an ISWC, passes the ISWC rule.
pub open spec fn work_ref_well_formed(w: WorkRef) -> bool {
    w matches WorkRef::Iswc(x) ==> iswc_format(x@) is Ok
}

/// The recording reference, when it is an ISRC, passes the ISRC rule.
pub open spec fn recording_ref_well_formed(r: RecordingRef) -> bool {
    r matches RecordingRef::Isrc(x) ==> isrc_format(x@) is Ok
}

/// The performer identifier passes its own format rule.
pub open spec fn performer_well_formed(p: PerformerId) -> bool {
    match p {
        PerformerId::Ipn(x) => crate::identifier::ipn_format(x@) is Ok,
        PerformerId::Ipi(x) => ipi_format(x@) is Ok,
        PerformerId::Isni(x) => isni_format(x@) is Ok,
    }
}

/// The sources a work type references pass the ISWC rule.
pub open spec fn work_type_sources_well_formed(t: WorkType) -> bool {
    match t {
        WorkType::Original => true,
        WorkType::Medley(refs) => forall|k: int| 0 <= k < refs@.len() ==> iswc_format((#[trigger] refs@[k])@) is Ok,
        WorkType::Mashup(refs) => forall|k: int| 0 <= k < refs@.len() ==> iswc_format((#[trigger] refs@[k])@) is Ok,
        WorkType::Adaptation(src) => iswc_format(src@) is Ok,
        WorkType::Rearrangement(src) => iswc_format(src@) is Ok,
    }
}

/// A valid musical work carries only well-formed identifiers: its ISWC,
/// every creator's IPI / ISNI, every referenced source work and every
/// sampled ISWC.
pub proof fn lemma_valid_work_identifiers_well_formed(w: MusicalWorkV1)
    requires
        musical_work_v1_check(w) is Ok,
    ensures
        iswc_format(w.iswc@) is Ok,
        forall|i: int| 0 <= i < w.creators@.len() ==> party_well_formed(#[trigger] w.creators@[i].party),
        work_type_sources_well_formed(w.work_type),
        forall|i: int| 0 <= i < w.samples@.len() ==> work_ref_well_formed(#[trigger] w.samples@[i]),
{
    let c = creator_rule(w.creators@);
    lemma_first_failure_ok_iff(0, w.creators@.len() as int, c);
    assert forall|i: int| 0 <= i < w.creators@.len() implies party_well_formed(#[trigger] w.creators@[i].party) by {
        assert(c(i) is Ok);
    }
    match w.work_type {
        WorkType::Medley(refs) => {
            lemma_first_failure_ok_iff(0, refs@.len() as int, ref_structure_rule(refs@));
            assert forall|k: int| 0 <= k < refs@.len() implies iswc_format((#[trigger] refs@[k])@) is Ok by {
                assert(ref_structure_rule(refs@)(k) is Ok);
            }
        },
        WorkType::Mashup(refs) => {
            lemma_first_failure_ok_iff(0, refs@.len() as int, ref_structure_rule(refs@));
            assert forall|k: int| 0 <= k < refs@.len() implies iswc_format((#[trigger] refs@[k])@) is Ok by {
                assert(ref_structure_rule(refs@)(k) is Ok);
            }
        },
        _ => {},
    }
    let s = sample_rule(w.samples@, w.iswc@);
    lemma_first_failure_ok_iff(0, w.samples@.len() as int, s);
    assert forall|i: int| 0 <= i < w.samples@.len() implies work_ref_well_formed(#[trigger] w.samples@[i]) by {
        assert(s(i) is Ok);
    }
}

/// A valid recording carries only well-formed identifiers: its ISRC, the
/// artist's, featured artists' and contributors' IPI / ISNI, the work's
/// ISWC, every performer identifier and every producer ISNI.
pub proof fn lemma_valid_recording_identifiers_well_formed(r: RecordingV1)
    requires
        recording_v1_check(r) is Ok,
    ensures
        isrc_format(r.isrc@) is Ok,
        party_well_formed(r.artist),
        forall|i: int| 0 <= i < r.featuring@.len() ==> party_well_formed(#[trigger] r.featuring@[i]),
        work_ref_well_formed(r.work),
        forall|i: int| 0 <= i < r.performers@.len() ==> performer_well_formed(#[trigger] r.performers@[i].id),
        forall|i: int| 0 <= i < r.producers@.len() ==> isni_format((#[trigger] r.producers@[i])@) is Ok,
        forall|i: int| 0 <= i < r.contributors@.len() ==> party_well_formed(#[trigger] r.contributors@[i]),
{
    let f = party_rule(r.featuring@);
    lemma_first_failure_ok_iff(0, r.featuring@.len() as int, f);
    assert forall|i: int| 0 <= i < r.featuring@.len() implies party_well_formed(#[trigger] r.featuring@[i]) by {
        assert(f(i) is Ok);
    }
    let p = performer_rule(r.performers@);
    lemma_first_failure_ok_iff(0, r.performers@.len() as int, p);
    assert forall|i: int| 0 <= i < r.performers@.len() implies performer_well_formed(#[trigger] r.performers@[i].id) by {
        assert(p(i) is Ok);
    }
    let q = isni_rule(r.producers@);
    lemma_first_failure_ok_iff(0, r.producers@.len() as int, q);
    assert forall|i: int| 0 <= i < r.producers@.len() implies isni_format((#[trigger] r.producers@[i])@) is Ok by {
        assert(q(i) is Ok);
    }
    let c = party_rule(r.contributors@);
    lemma_first_failure_ok_iff(0, r.contributors@.len() as int, c);
    assert forall|i: int| 0 <= i < r.contributors@.len() implies party_well_formed(#[trigger] r.contributors@[i]) by {
        assert(c(i) is Ok);
    }
}

/// A valid release carries only well-formed identifiers: its UPC, the
/// artist's and featured artists' IPI / ISNI, every track's ISRC and every
/// producer ISNI.
pub proof fn lemma_valid_release_identifiers_well_formed(r: ReleaseV1)
    requires
        release_v1_check(r) is Ok,
    ensures
        upc_format(r.upc@) is Ok,
        party_well_formed(r.artist),
        forall|i: int| 0 <= i < r.featuring@.len() ==> party_well_formed(#[trigger] r.featuring@[i]),
        forall|i: int| 0 <= i < r.tracks@.len() ==> recording_ref_well_formed(#[trigger] r.tracks@[i].recording),
        forall|i: int| 0 <= i < r.producers@.len() ==> isni_format((#[trigger] r.producers@[i]).isni@) is Ok,
{
    let f = party_rule(r.featuring@);
    lemma_first_failure_ok_iff(0, r.featuring@.len() as int, f);
    assert forall|i: int| 0 <= i < r.featuring@.len() implies party_well_formed(#[trigger] r.featuring@[i]) by {
        assert(f(i) is Ok);
    }
    let t = track_rule(r.tracks@);
    lemma_first_failure_ok_iff(0, r.tracks@.len() as int, t);
    assert forall|i: int| 0 <= i < r.tracks@.len() implies recording_ref_well_formed(#[trigger] r.tracks@[i].recording) by {
        assert(t(i) is Ok);
    }
    let p = producer_rule(r.producers@);
    lemma_first_failure_ok_iff(0, r.producers@.len() as int, p);
    assert forall|i: int| 0 <= i < r.producers@.len() implies isni_format((#[trigger] r.producers@[i]).isni@) is Ok by {
        assert(p(i) is Ok);
    }
}

} // verus!
