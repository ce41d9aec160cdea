//! The deterministic half of the property-test strategies: turning random
//! raw pieces into payloads of a known shape, and planting a single known
//! defect into a valid payload.
//!
//! A strategy draws the pieces; the functions here decide what the payload
//! is, so what they promise (validity, every bound saturated, the exact
//! error a defect triggers) holds for every draw.
use vstd::prelude::*;

use crate::bounded::Bounded;
use crate::format_error::MiddsFormatError;
use crate::identifier::{is_digit, isrc_format, iswc_format, offchain_opt_check, upc_format, Iswc};
use crate::lists::{text_rule, texts_check};
use crate::midds::Midds;
use crate::musical_work::{musical_work_v1_check, MusicalWork, MusicalWorkV1, WorkType};
use crate::lists::{isni_rule, party_rule};
use crate::recording::{
    performer_rule, recording_v1_check, Genre, Instrument, Performer, ProductionPlaces, Recording,
    RecordingV1, RecordingVersion,
};
use crate::fixtures::identifiers::{isrc_for, isrc_for_index};
use crate::shared::PerformerId;
use crate::release::{
    release_date_check, release_v1_check, track_check, track_rule, tracks_check, Release,
    ReleaseDate, ReleaseV1, Track,
};
use crate::fixtures::identifiers::{
    ipi_for_stem, ipi_from_stem, isni_for_body, isni_from_body, iswc_for_code,
    iswc_from_work_code, lemma_iswc_for_code_valid,
};
use crate::fixtures::pathological::{
    all_roles, lemma_isrcs_distinct, musical_work_saturated, party_saturated, parties_saturated,
    recording_saturated, release_saturated, texts_saturated,
};
use crate::country::Country;
use crate::fixtures::release::{number_tracks, numbered};
use crate::musical_work::CreatorRoles;
use crate::shared::recording_ref_check;
use crate::release::{
    numbering_is_contiguous, producer_check, producer_rule, Producer, ReleaseFormat,
    ReleasePackaging, ReleaseStatus, ReleaseType,
};
use crate::language::Language;
use crate::musical_work::{
    creator_check, creator_rule, ref_distinct_rule, ref_structure_rule, sample_rule,
    ClassicalInfo, Creator, CreatorRole, WorkReferences,
};
use crate::scan::{first_failure, lemma_first_failure_all_ok, then_check};
use crate::shared::{party_id_check, same_work_ref, Mode, MusicalKey, PartyId, PitchClass};
use crate::shared::{non_empty_check, same_recording_ref, work_ref_check, RecordingRef, WorkRef};

verus! {

/// A single rule violation planted into a valid musical work.
#[derive(Debug, Clone, Copy, PartialEq, Eq, Structural)]
pub enum MusicalWorkDefect {
    /// A letter in the digit part of the ISWC.
    IswcCharset,
    /// The ISWC's `T` prefix replaced by `X`.
    IswcPrefix,
    /// An empty title.
    EmptyTitle,
    /// No creator at all.
    NoCreators,
    /// A medley without any source work.
    EmptyMedley,
    /// A present but empty off-chain extension hash.
    EmptyOffchainExtension,
}

/// The error `validate_format` reports for each planted defect.
pub open spec fn musical_work_defect_error(d: MusicalWorkDefect) -> MiddsFormatError {
    match d {
        MusicalWorkDefect::IswcCharset => MiddsFormatError::InvalidCharset,
        MusicalWorkDefect::IswcPrefix => MiddsFormatError::InvalidIdentifierStructure,
        MusicalWorkDefect::EmptyTitle => MiddsFormatError::EmptyMandatoryField,
        MusicalWorkDefect::NoCreators => MiddsFormatError::EmptyMandatoryField,
        MusicalWorkDefect::EmptyMedley => MiddsFormatError::OutOfBounds,
        MusicalWorkDefect::EmptyOffchainExtension => MiddsFormatError::EmptyMandatoryField,
    }
}

/// `b` with the byte at `i` replaced by `x`, re-bounded.
fn with_byte<const N: u32>(b: Bounded<u8, N>, i: usize, x: u8) -> (r: Bounded<u8, N>)
    requires
        i < b@.len(),
    ensures
        r@ == b@.update(i as int, x),
{
    let n = b.len();
    let mut bytes = b.into_vec();
    bytes.set(i, x);
    assert(bytes@.len() == n);
    match Bounded::try_new(bytes) {
        Ok(v) => v,
        Err(_) => {
            assert(false);
            Bounded::new()
        },
    }
}

/// Plants `defect` into the valid work `v`: the returned payload differs
/// from `v` in the one field the defect names, and `validate_format`
/// reports exactly the paired error on it.
pub fn musical_work_with_defect(v: MusicalWorkV1, defect: MusicalWorkDefect) -> (r: (
    MusicalWork,
    MiddsFormatError,
))
    requires
        musical_work_v1_check(v) is Ok,
    ensures
        r.1 == musical_work_defect_error(defect),
        r.0.format_rules() == Err::<(), MiddsFormatError>(r.1),
        r.0 matches MusicalWork::V1(w) && match defect {
            MusicalWorkDefect::IswcCharset => w == MusicalWorkV1 { iswc: w.iswc, ..v } && w.iswc@
                == v.iswc@.update(5, 65u8),
            MusicalWorkDefect::IswcPrefix => w == MusicalWorkV1 { iswc: w.iswc, ..v } && w.iswc@
                == v.iswc@.update(0, 88u8),
            MusicalWorkDefect::EmptyTitle => w == MusicalWorkV1 { title: w.title, ..v }
                && w.title@.len() == 0,
            MusicalWorkDefect::NoCreators => w == MusicalWorkV1 { creators: w.creators, ..v }
                && w.creators@.len() == 0,
            MusicalWorkDefect::EmptyMedley => w == MusicalWorkV1 { work_type: w.work_type, ..v }
                && (w.work_type matches WorkType::Medley(refs) && refs@.len() == 0),
            MusicalWorkDefect::EmptyOffchainExtension => w == MusicalWorkV1 {
                offchain_extension: w.offchain_extension,
                ..v
            } && (w.offchain_extension matches Some(h) && h@.len() == 0),
        },
{
    let mut w = v;
    let err = match defect {
        MusicalWorkDefect::IswcCharset => {
            w.iswc = with_byte(w.iswc, 5, 65);
            proof {
                assert(!crate::identifier::is_digit(w.iswc@[5]));
            }
            MiddsFormatError::InvalidCharset
        },
        MusicalWorkDefect::IswcPrefix => {
            w.iswc = with_byte(w.iswc, 0, 88);
            MiddsFormatError::InvalidIdentifierStructure
        },
        MusicalWorkDefect::EmptyTitle => {
            w.title = Bounded::new();
            MiddsFormatError::EmptyMandatoryField
        },
        MusicalWorkDefect::NoCreators => {
            w.creators = Bounded::new();
            MiddsFormatError::EmptyMandatoryField
        },
        MusicalWorkDefect::EmptyMedley => {
            w.work_type = WorkType::Medley(Bounded::new());
            MiddsFormatError::OutOfBounds
        },
        MusicalWorkDefect::EmptyOffchainExtension => {
            w.offchain_extension = Some(Bounded::new());
            MiddsFormatError::EmptyMandatoryField
        },
    };
    (MusicalWork::V1(w), err)
}

/// A single rule violation planted into a valid recording.
#[derive(Debug, Clone, Copy, PartialEq, Eq, Structural)]
pub enum RecordingDefect {
    /// A lowercase first letter in the ISRC country code.
    IsrcCharset,
    /// The ISRC cut to eleven bytes.
    IsrcLength,
    /// An empty title.
    EmptyTitle,
    /// A single, empty title alias.
    EmptyTitleAlias,
    /// The work referenced by an ISWC without its `T` prefix.
    WorkIswcPrefix,
    /// A present but empty off-chain extension hash.
    EmptyOffchainExtension,
}

/// The error `validate_format` reports for each planted defect.
pub open spec fn recording_defect_error(d: RecordingDefect) -> MiddsFormatError {
    match d {
        RecordingDefect::IsrcCharset => MiddsFormatError::InvalidCharset,
        RecordingDefect::IsrcLength => MiddsFormatError::OutOfBounds,
        RecordingDefect::EmptyTitle => MiddsFormatError::EmptyMandatoryField,
        RecordingDefect::EmptyTitleAlias => MiddsFormatError::EmptyMandatoryField,
        RecordingDefect::WorkIswcPrefix => MiddsFormatError::InvalidIdentifierStructure,
        RecordingDefect::EmptyOffchainExtension => MiddsFormatError::EmptyMandatoryField,
    }
}

/// The first `k` bytes of `b`, re-bounded.
fn prefix_bytes<const N: u32>(b: &Bounded<u8, N>, k: usize) -> (r: Bounded<u8, N>)
    requires
        k <= b@.len(),
    ensures
        r@ == b@.subrange(0, k as int),
{
    let n = b.len();
    let src = b.as_slice();
    let mut out: Vec<u8> = Vec::new();
    let mut i: usize = 0;
    while i < k
        invariant
            k <= n,
            n <= N,
            src@ == b@,
            n == b@.len(),
            i <= k,
            out@ == b@.subrange(0, i as int),
        decreases k - i,
    {
        out.push(src[i]);
        i += 1;
    }
    match Bounded::try_new(out) {
        Ok(v) => v,
        Err(_) => {
            assert(false);
            Bounded::new()
        },
    }
}

/// The ISWC `X1234567890`: eleven bytes, a wrong prefix, digits after it.
fn iswc_with_wrong_prefix() -> (r: Iswc)
    ensures
        iswc_format(r@) == Err::<(), MiddsFormatError>(MiddsFormatError::InvalidIdentifierStructure),
{
    let bytes: Vec<u8> = vec![88u8, 49, 50, 51, 52, 53, 54, 55, 56, 57, 48];
    match Bounded::try_new(bytes) {
        Ok(v) => v,
        Err(_) => {
            assert(false);
            Bounded::new()
        },
    }
}

/// Plants `defect` into the valid recording `v`: the returned payload
/// differs from `v` in the one field the defect names, and
/// `validate_format` reports exactly the paired error on it.
pub fn recording_with_defect(v: RecordingV1, defect: RecordingDefect) -> (r: (
    Recording,
    MiddsFormatError,
))
    requires
        recording_v1_check(v) is Ok,
    ensures
        r.1 == recording_defect_error(defect),
        r.0.format_rules() == Err::<(), MiddsFormatError>(r.1),
        r.0 matches Recording::V1(w) && match defect {
            RecordingDefect::IsrcCharset => w == RecordingV1 { isrc: w.isrc, ..v } && w.isrc@
                == v.isrc@.update(0, 102u8),
            RecordingDefect::IsrcLength => w == RecordingV1 { isrc: w.isrc, ..v } && w.isrc@
                == v.isrc@.subrange(0, 11),
            RecordingDefect::EmptyTitle => w == RecordingV1 { title: w.title, ..v }
                && w.title@.len() == 0,
            RecordingDefect::EmptyTitleAlias => w == RecordingV1 {
                title_aliases: w.title_aliases,
                ..v
            } && w.title_aliases@.len() == 1 && w.title_aliases@[0]@.len() == 0,
            RecordingDefect::WorkIswcPrefix => w == RecordingV1 { work: w.work, ..v } && (
            w.work matches WorkRef::Iswc(x) && iswc_format(x@) is Err),
            RecordingDefect::EmptyOffchainExtension => w == RecordingV1 {
                offchain_extension: w.offchain_extension,
                ..v
            } && (w.offchain_extension matches Some(h) && h@.len() == 0),
        },
{
    let mut w = v;
    let err = match defect {
        RecordingDefect::IsrcCharset => {
            w.isrc = with_byte(w.isrc, 0, 102);
            assert(!crate::identifier::is_upper(w.isrc@[0]));
            assert(isrc_format(w.isrc@) is Err);
            MiddsFormatError::InvalidCharset
        },
        RecordingDefect::IsrcLength => {
            w.isrc = prefix_bytes(&w.isrc, 11);
            assert(isrc_format(w.isrc@) is Err);
            MiddsFormatError::OutOfBounds
        },
        RecordingDefect::EmptyTitle => {
            w.title = Bounded::new();
            MiddsFormatError::EmptyMandatoryField
        },
        RecordingDefect::EmptyTitleAlias => {
            let mut aliases = Bounded::new();
            let _ = aliases.try_push(Bounded::new());
            w.title_aliases = aliases;
            proof {
                assert(text_rule(w.title_aliases@)(0) is Err);
                crate::scan::lemma_first_failure_at(0, 1, 0, text_rule(w.title_aliases@));
            }
            MiddsFormatError::EmptyMandatoryField
        },
        RecordingDefect::WorkIswcPrefix => {
            w.work = WorkRef::Iswc(iswc_with_wrong_prefix());
            MiddsFormatError::InvalidIdentifierStructure
        },
        RecordingDefect::EmptyOffchainExtension => {
            w.offchain_extension = Some(Bounded::new());
            MiddsFormatError::EmptyMandatoryField
        },
    };
    (Recording::V1(w), err)
}

/// A single rule violation planted into a valid release.
#[derive(Debug, Clone, Copy, PartialEq, Eq, Structural)]
pub enum ReleaseDefect {
    /// An eight-digit barcode.
    UpcLength,
    /// A thirteen-byte barcode with a letter in it.
    UpcCharset,
    /// An empty title.
    EmptyTitle,
    /// An empty tracklist.
    NoTracks,
    /// Month zero in the release date.
    BadDate,
    /// An empty distributor name.
    EmptyDistributor,
    /// The first track listed twice.
    DuplicateTrack,
}

/// The error `validate_format` reports for each planted defect.
pub open spec fn release_defect_error(d: ReleaseDefect) -> MiddsFormatError {
    match d {
        ReleaseDefect::UpcLength => MiddsFormatError::OutOfBounds,
        ReleaseDefect::UpcCharset => MiddsFormatError::InvalidCharset,
        ReleaseDefect::EmptyTitle => MiddsFormatError::EmptyMandatoryField,
        ReleaseDefect::NoTracks => MiddsFormatError::EmptyMandatoryField,
        ReleaseDefect::BadDate => MiddsFormatError::OutOfBounds,
        ReleaseDefect::EmptyDistributor => MiddsFormatError::EmptyMandatoryField,
        ReleaseDefect::DuplicateTrack => MiddsFormatError::CrossFieldInconsistency,
    }
}

/// A byte-for-byte copy of `b`.
fn copy_bytes<const N: u32>(b: &Bounded<u8, N>) -> (r: Bounded<u8, N>)
    ensures
        r@ == b@,
{
    let r = prefix_bytes(b, b.len());
    assert(b@.subrange(0, b@.len() as int) =~= b@);
    r
}

/// A copy of `t`: same number, same recording.
fn copy_track(t: &Track) -> (r: Track)
    ensures
        r.number == t.number,
        same_recording_ref(r.recording, t.recording),
        track_check(r) == track_check(*t),
{
    let recording = match &t.recording {
        RecordingRef::Midds(id) => RecordingRef::Midds(*id),
        RecordingRef::Isrc(code) => RecordingRef::Isrc(copy_bytes(code)),
    };
    Track { number: t.number, recording }
}

/// Bytes as a bounded string, for literals that fit the bound.
fn bounded_literal<const N: u32>(bytes: Vec<u8>) -> (r: Bounded<u8, N>)
    requires
        bytes@.len() <= N,
    ensures
        r@ == bytes@,
{
    match Bounded::try_new(bytes) {
        Ok(v) => v,
        Err(_) => Bounded::new(),
    }
}

/// Plants `defect` into the valid release `v`: the returned payload differs
/// from `v` in the one field the defect names, and `validate_format`
/// reports exactly the paired error on it.
pub fn release_with_defect(v: ReleaseV1, defect: ReleaseDefect) -> (r: (Release, MiddsFormatError))
    requires
        release_v1_check(v) is Ok,
    ensures
        r.1 == release_defect_error(defect),
        r.0.format_rules() == Err::<(), MiddsFormatError>(r.1),
        r.0 matches Release::V1(w) && match defect {
            ReleaseDefect::UpcLength => w == ReleaseV1 { upc: w.upc, ..v } && w.upc@ == seq![
                49u8,
                50,
                51,
                52,
                53,
                54,
                55,
                56,
            ],
            ReleaseDefect::UpcCharset => w == ReleaseV1 { upc: w.upc, ..v } && w.upc@.len() == 13
                && w.upc@[11] == 88u8,
            ReleaseDefect::EmptyTitle => w == ReleaseV1 { title: w.title, ..v } && w.title@.len()
                == 0,
            ReleaseDefect::NoTracks => w == ReleaseV1 { tracks: w.tracks, ..v } && w.tracks@.len()
                == 0,
            ReleaseDefect::BadDate => w == ReleaseV1 { release_date: w.release_date, ..v }
                && w.release_date == (ReleaseDate { year: 2024, month: 0, day: 1 }),
            ReleaseDefect::EmptyDistributor => w == ReleaseV1 {
                distributor_name: w.distributor_name,
                ..v
            } && w.distributor_name@.len() == 0,
            ReleaseDefect::DuplicateTrack => w == ReleaseV1 { tracks: w.tracks, ..v }
                && w.tracks@.len() == 2 && w.tracks@[0].number == v.tracks@[0].number
                && w.tracks@[1].number == v.tracks@[0].number && same_recording_ref(
                w.tracks@[0].recording,
                v.tracks@[0].recording,
            ) && same_recording_ref(w.tracks@[1].recording, v.tracks@[0].recording),
        },
{
    let mut w = v;
    let err = match defect {
        ReleaseDefect::UpcLength => {
            w.upc = bounded_literal(vec![49u8, 50, 51, 52, 53, 54, 55, 56]);
            MiddsFormatError::OutOfBounds
        },
        ReleaseDefect::UpcCharset => {
            w.upc = bounded_literal(vec![52u8, 48, 48, 54, 51, 56, 49, 51, 51, 51, 57, 88, 49]);
            assert(!is_digit(w.upc@[11]));
            MiddsFormatError::InvalidCharset
        },
        ReleaseDefect::EmptyTitle => {
            w.title = Bounded::new();
            MiddsFormatError::EmptyMandatoryField
        },
        ReleaseDefect::NoTracks => {
            w.tracks = Bounded::new();
            MiddsFormatError::EmptyMandatoryField
        },
        ReleaseDefect::BadDate => {
            w.release_date = ReleaseDate { year: 2024, month: 0, day: 1 };
            MiddsFormatError::OutOfBounds
        },
        ReleaseDefect::EmptyDistributor => {
            w.distributor_name = Bounded::new();
            MiddsFormatError::EmptyMandatoryField
        },
        ReleaseDefect::DuplicateTrack => {
            proof {
                crate::scan::lemma_first_failure_ok_iff(0, v.tracks@.len() as int, track_rule(v.tracks@));
                assert(track_rule(v.tracks@)(0) is Ok);
            }
            let first = w.tracks.get(0);
            let a = copy_track(first);
            let b = copy_track(first);
            let mut tracks = Bounded::new();
            let _ = tracks.try_push(a);
            let _ = tracks.try_push(b);
            w.tracks = tracks;
            proof {
                let s = w.tracks@;
                assert(track_rule(s)(0) is Ok);
                assert(same_recording_ref(s[0].recording, s[1].recording));
                assert(track_rule(s)(1) is Err);
                crate::scan::lemma_first_failure_at(0, 2, 1, track_rule(s));
            }
            MiddsFormatError::CrossFieldInconsistency
        },
    };
    (Release::V1(w), err)
}

/// The works `codes` name (through [`iswc_for_code`]) differ from one
/// another and from the work `own`.
pub open spec fn codes_name_other_works(codes: Seq<u32>, own: Seq<u8>) -> bool {
    &&& forall|i: int| 0 <= i < codes.len() ==> iswc_for_code(#[trigger] codes[i] as nat) != own
    &&& forall|i: int, j: int|
        0 <= i < j < codes.len() ==> iswc_for_code(#[trigger] codes[i] as nat) != iswc_for_code(
            #[trigger] codes[j] as nat,
        )
}

/// Creator `k` of a saturated work: every role, and a party holding the
/// 11-digit IPI of `stem` and the ISNI of `body`.
pub open spec fn saturated_creator(c: Creator, body: [u8; 15], stem: u64) -> bool {
    &&& forall|role: CreatorRole| c.roles.has(role)
    &&& c.party matches PartyId::Both { ipi, isni } && ipi@ == ipi_for_stem(stem as nat, 11)
        && isni@ == isni_for_body(body@)
}

/// The ISWCs the work codes name, as bounded references.
fn iswcs_for_codes(codes: &Vec<u32>) -> (r: Vec<Iswc>)
    ensures
        r@.len() == codes@.len(),
        forall|k: int| 0 <= k < codes@.len() ==> (#[trigger] r@[k])@ == iswc_for_code(codes@[k] as nat),
{
    let mut out: Vec<Iswc> = Vec::new();
    let mut i: usize = 0;
    while i < codes.len()
        invariant
            i <= codes@.len(),
            out@.len() == i,
            forall|k: int| 0 <= k < i ==> (#[trigger] out@[k])@ == iswc_for_code(codes@[k] as nat),
        decreases codes@.len() - i,
    {
        out.push(iswc_from_work_code(codes[i]));
        i += 1;
    }
    out
}

/// Assembles the largest musical work from random pieces: a 256-byte
/// title, 32 creators (every role, IPI and ISNI each), a 32-source medley,
/// 64 ISWC samples, full classical information, a 64-byte off-chain hash
/// and every optional field present. The payload is valid whenever its own
/// ISWC is well-formed and the source and sample codes name distinct other
/// works.
pub fn musical_work_max_size_from(
    iswc: Iswc,
    title: Vec<u8>,
    isni_bodies: Vec<[u8; 15]>,
    ipi_stems: Vec<u64>,
    opus: Vec<u8>,
    catalog: Vec<u8>,
    hash: Vec<u8>,
    work_codes: Vec<u32>,
    sample_codes: Vec<u32>,
) -> (r: MusicalWork)
    requires
        title@.len() == 256,
        isni_bodies@.len() == 32,
        ipi_stems@.len() == 32,
        opus@.len() == 32,
        catalog@.len() == 32,
        hash@.len() == 64,
        work_codes@.len() == 32,
        sample_codes@.len() == 64,
    ensures
        r matches MusicalWork::V1(w) && musical_work_saturated(w) && {
            &&& w.iswc == iswc
            &&& w.title@ == title@
            &&& w.creation_year == Some(2999u16)
            &&& w.bpm == Some(300u16)
            &&& w.language == Some(Language::En)
            &&& w.key is Some
            &&& w.creators@.len() == 32
            &&& forall|k: int|
                0 <= k < 32 ==> saturated_creator(
                    #[trigger] w.creators@[k],
                    isni_bodies@[k],
                    ipi_stems@[k],
                )
            &&& w.work_type matches WorkType::Medley(refs) && refs@.len() == 32 && forall|k: int|
                0 <= k < 32 ==> (#[trigger] refs@[k])@ == iswc_for_code(work_codes@[k] as nat)
            &&& w.samples@.len() == 64
            &&& forall|k: int|
                0 <= k < 64 ==> (#[trigger] w.samples@[k] matches WorkRef::Iswc(x) && x@
                    == iswc_for_code(sample_codes@[k] as nat))
            &&& w.classical_info matches Some(ci) && (ci.opus matches Some(o) && o@ == opus@) && (
            ci.catalog_number matches Some(c) && c@ == catalog@) && ci.number_of_voices == Some(
                u16::MAX,
            )
            &&& w.offchain_extension matches Some(h) && h@ == hash@
        },
        iswc_format(iswc@) is Ok && codes_name_other_works(work_codes@, iswc@)
            && codes_name_other_works(sample_codes@, iswc@) ==> r.format_rules() is Ok,
{
    let mut creators: Vec<Creator> = Vec::new();
    let mut i: usize = 0;
    while i < 32
        invariant
            i <= 32,
            isni_bodies@.len() == 32,
            ipi_stems@.len() == 32,
            creators@.len() == i,
            forall|k: int|
                0 <= k < i ==> creator_check(#[trigger] creators@[k]) is Ok && saturated_creator(
                    creators@[k],
                    isni_bodies@[k],
                    ipi_stems@[k],
                ) && party_saturated(creators@[k].party),
        decreases 32 - i,
    {
        let party = PartyId::Both {
            ipi: ipi_from_stem(ipi_stems[i], 11),
            isni: isni_from_body(isni_bodies[i]),
        };
        creators.push(Creator { roles: all_roles(), party });
        i += 1;
    }
    let refs = iswcs_for_codes(&work_codes);
    let sample_iswcs = iswcs_for_codes(&sample_codes);
    let mut samples: Vec<WorkRef> = Vec::new();
    let mut i: usize = 0;
    let mut rest = sample_iswcs;
    while i < 64
        invariant
            i <= 64,
            sample_codes@.len() == 64,
            rest@.len() == 64 - i,
            forall|k: int|
                0 <= k < rest@.len() ==> (#[trigger] rest@[k])@ == iswc_for_code(
                    sample_codes@[k + i] as nat,
                ),
            samples@.len() == i,
            forall|k: int|
                0 <= k < i ==> ((#[trigger] samples@[k]) matches WorkRef::Iswc(x) && x@
                    == iswc_for_code(sample_codes@[k] as nat)),
        decreases 64 - i,
    {
        let x = rest.remove(0);
        samples.push(WorkRef::Iswc(x));
        i += 1;
    }
    let creators: Bounded<Creator, 32> = match Bounded::try_new(creators) {
        Ok(c) => c,
        Err(_) => Bounded::new(),
    };
    let refs: WorkReferences = match Bounded::try_new(refs) {
        Ok(c) => c,
        Err(_) => Bounded::new(),
    };
    let samples: Bounded<WorkRef, 64> = match Bounded::try_new(samples) {
        Ok(c) => c,
        Err(_) => Bounded::new(),
    };
    let ghost own = iswc@;
    proof {
        let c = creator_rule(creators@);
        assert forall|k: int| 0 <= k < 32 implies #[trigger] c(k) is Ok by {}
        lemma_first_failure_all_ok(0, 32, c);
        let f = ref_structure_rule(refs@);
        assert forall|k: int| 0 <= k < 32 implies #[trigger] f(k) is Ok by {
            lemma_iswc_for_code_valid(work_codes@[k] as nat);
        }
        lemma_first_failure_all_ok(0, 32, f);
        if codes_name_other_works(work_codes@, own) {
            let g = ref_distinct_rule(refs@, own);
            assert forall|k: int| 0 <= k < 32 implies #[trigger] g(k) is Ok by {
                assert(refs@[k]@ == iswc_for_code(work_codes@[k] as nat));
                assert forall|j: int| 0 <= j < k implies refs@[j]@ != refs@[k]@ by {
                    assert(iswc_for_code(work_codes@[j] as nat) != iswc_for_code(
                        work_codes@[k] as nat,
                    ));
                }
            }
            lemma_first_failure_all_ok(0, 32, g);
        }
        if codes_name_other_works(sample_codes@, own) {
            let h = sample_rule(samples@, own);
            assert forall|k: int| 0 <= k < 64 implies #[trigger] h(k) is Ok by {
                lemma_iswc_for_code_valid(sample_codes@[k] as nat);
                assert(iswc_for_code(sample_codes@[k] as nat) != own);
                assert forall|j: int| 0 <= j < k implies !same_work_ref(samples@[j], samples@[k]) by {
                    assert(iswc_for_code(sample_codes@[j] as nat) != iswc_for_code(
                        sample_codes@[k] as nat,
                    ));
                }
            }
            lemma_first_failure_all_ok(0, 64, h);
        }
    }
    let v1 = MusicalWorkV1 {
        iswc,
        title: bounded_literal(title),
        creation_year: Some(2999),
        instrumental: false,
        language: Some(Language::En),
        explicit_lyrics: true,
        bpm: Some(300),
        key: Some(MusicalKey { pitch: PitchClass::C, mode: Mode::Major }),
        work_type: WorkType::Medley(refs),
        samples,
        creators,
        classical_info: Some(
            ClassicalInfo {
                opus: Some(bounded_literal(opus)),
                catalog_number: Some(bounded_literal(catalog)),
                number_of_voices: Some(u16::MAX),
            },
        ),
        offchain_extension: Some(bounded_literal(hash)),
    };
    MusicalWork::V1(v1)
}

/// The parties holding, for each pair, the 11-digit IPI of the stem and
/// the ISNI of the body.
fn both_parties(pairs: &Vec<([u8; 15], u64)>) -> (r: Vec<PartyId>)
    ensures
        r@.len() == pairs@.len(),
        forall|k: int|
            0 <= k < pairs@.len() ==> party_id_check(#[trigger] r@[k]) is Ok && party_saturated(r@[k])
                && (r@[k] matches PartyId::Both { ipi, isni } && ipi@ == ipi_for_stem(pairs@[k].1 as nat, 11)
                && isni@ == isni_for_body(pairs@[k].0@)),
{
    let mut out: Vec<PartyId> = Vec::new();
    let mut i: usize = 0;
    while i < pairs.len()
        invariant
            i <= pairs@.len(),
            out@.len() == i,
            forall|k: int|
                0 <= k < i ==> party_id_check(#[trigger] out@[k]) is Ok && party_saturated(out@[k])
                    && (out@[k] matches PartyId::Both { ipi, isni } && ipi@ == ipi_for_stem(pairs@[k].1 as nat, 11)
                    && isni@ == isni_for_body(pairs@[k].0@)),
        decreases pairs@.len() - i,
    {
        let (body, stem) = pairs[i];
        out.push(PartyId::Both { ipi: ipi_from_stem(stem, 11), isni: isni_from_body(body) });
        i += 1;
    }
    out
}

/// The ISNIs of the bodies.
fn isnis_of(bodies: &Vec<[u8; 15]>) -> (r: Vec<crate::identifier::Isni>)
    ensures
        r@.len() == bodies@.len(),
        forall|k: int|
            0 <= k < bodies@.len() ==> (#[trigger] r@[k])@ == isni_for_body(bodies@[k]@)
                && crate::identifier::isni_format(r@[k]@) is Ok,
{
    let mut out: Vec<crate::identifier::Isni> = Vec::new();
    let mut i: usize = 0;
    while i < bodies.len()
        invariant
            i <= bodies@.len(),
            out@.len() == i,
            forall|k: int|
                0 <= k < i ==> (#[trigger] out@[k])@ == isni_for_body(bodies@[k]@)
                    && crate::identifier::isni_format(out@[k]@) is Ok,
        decreases bodies@.len() - i,
    {
        out.push(isni_from_body(bodies[i]));
        i += 1;
    }
    out
}

/// Each text bounded to `L` bytes, the list bounded to `M` texts.
fn bounded_texts<const L: u32, const M: u32>(texts: Vec<Vec<u8>>) -> (r: Bounded<Bounded<u8, L>, M>)
    requires
        texts@.len() <= M,
        forall|k: int| 0 <= k < texts@.len() ==> (#[trigger] texts@[k])@.len() <= L,
    ensures
        r@.len() == texts@.len(),
        forall|k: int| 0 <= k < texts@.len() ==> (#[trigger] r@[k])@ == texts@[k]@,
{
    let n = texts.len();
    let mut rest = texts;
    let mut out: Vec<Bounded<u8, L>> = Vec::new();
    let mut i: usize = 0;
    while i < n
        invariant
            n == texts@.len(),
            i <= n,
            rest@.len() == n - i,
            forall|k: int| 0 <= k < rest@.len() ==> (#[trigger] rest@[k])@ == texts@[k + i]@,
            forall|k: int| 0 <= k < n ==> (#[trigger] texts@[k])@.len() <= L,
            out@.len() == i,
            forall|k: int| 0 <= k < i ==> (#[trigger] out@[k])@ == texts@[k]@,
        decreases n - i,
    {
        let t = rest.remove(0);
        out.push(bounded_literal(t));
        i += 1;
    }
    match Bounded::try_new(out) {
        Ok(v) => v,
        Err(_) => Bounded::new(),
    }
}

/// The eight instruments every performer of a saturated recording plays.
fn eight_instruments() -> (r: Bounded<Instrument, 8>)
    ensures
        r@.len() == 8,
{
    let v: Vec<Instrument> = vec![
        Instrument::LeadVocals,
        Instrument::Piano,
        Instrument::ElectricGuitar,
        Instrument::BassGuitar,
        Instrument::Violin,
        Instrument::Saxophone,
        Instrument::Trumpet,
        Instrument::DrumKit,
    ];
    match Bounded::try_new(v) {
        Ok(b) => b,
        Err(_) => Bounded::new(),
    }
}

/// Assembles the largest recording from random pieces: a 256-byte title and
/// 8 aliases of 256 bytes, an artist and 16 featured artists and 32
/// contributors each holding an IPI and an ISNI, 64 performers (an ISNI and
/// 8 instruments each), 8 producers, the three production places at 128
/// bytes, a 64-byte off-chain hash and every optional field present. It is
/// always valid.
pub fn recording_max_size_from(
    isrc_index: u32,
    title: Vec<u8>,
    aliases: Vec<Vec<u8>>,
    artist: ([u8; 15], u64),
    featuring: Vec<([u8; 15], u64)>,
    work_code: u32,
    performer_bodies: Vec<[u8; 15]>,
    producer_bodies: Vec<[u8; 15]>,
    contributor_pairs: Vec<([u8; 15], u64)>,
    place: Vec<u8>,
    hash: Vec<u8>,
) -> (r: Recording)
    requires
        title@.len() == 256,
        aliases@.len() == 8,
        forall|k: int| 0 <= k < 8 ==> (#[trigger] aliases@[k])@.len() == 256,
        featuring@.len() == 16,
        performer_bodies@.len() == 64,
        producer_bodies@.len() == 8,
        contributor_pairs@.len() == 32,
        place@.len() == 128,
        hash@.len() == 64,
    ensures
        r.format_rules() is Ok,
        r matches Recording::V1(w) && {
            &&& w.isrc@ == isrc_for(isrc_index as nat)
            &&& w.title@ == title@
            &&& w.title_aliases@.len() == 8
            &&& forall|k: int| 0 <= k < 8 ==> (#[trigger] w.title_aliases@[k])@ == aliases@[k]@
            &&& w.artist matches PartyId::Both { ipi, isni } && ipi@ == ipi_for_stem(
                artist.1 as nat,
                11,
            ) && isni@ == isni_for_body(artist.0@)
            &&& recording_saturated(w)
            &&& forall|k: int|
                0 <= k < 16 ==> (#[trigger] w.featuring@[k] matches PartyId::Both { ipi, isni } && ipi@
                    == ipi_for_stem(featuring@[k].1 as nat, 11) && isni@ == isni_for_body(featuring@[k].0@))
            &&& forall|k: int|
                0 <= k < 32 ==> (#[trigger] w.contributors@[k] matches PartyId::Both { ipi, isni } && ipi@
                    == ipi_for_stem(contributor_pairs@[k].1 as nat, 11) && isni@ == isni_for_body(
                    contributor_pairs@[k].0@,
                ))
            &&& w.work matches WorkRef::Iswc(x) && x@ == iswc_for_code(work_code as nat)
            &&& w.genre is Some && w.sub_genre is Some
            &&& w.record_year == Some(2999u16) && w.bpm == Some(300u16)
            &&& w.duration == Some(u32::MAX)
            &&& w.version_type is Some && w.key is Some
            &&& w.performers@.len() == 64
            &&& forall|k: int|
                0 <= k < 64 ==> (#[trigger] w.performers@[k]).instruments@.len() == 8 && (
                w.performers@[k].id matches PerformerId::Isni(x) && x@ == isni_for_body(
                    performer_bodies@[k]@,
                ))
            &&& w.producers@.len() == 8
            &&& forall|k: int|
                0 <= k < 8 ==> (#[trigger] w.producers@[k])@ == isni_for_body(producer_bodies@[k]@)
            &&& w.places matches Some(p) && (p.recording matches Some(a) && a@ == place@) && (
            p.mixing matches Some(b) && b@ == place@) && (p.mastering matches Some(c) && c@
                == place@)
            &&& w.offchain_extension matches Some(h) && h@ == hash@
        },
{
    let artist_party = PartyId::Both {
        ipi: ipi_from_stem(artist.1, 11),
        isni: isni_from_body(artist.0),
    };
    let featuring_parties = both_parties(&featuring);
    let contributor_parties = both_parties(&contributor_pairs);
    let performer_isnis = isnis_of(&performer_bodies);
    let mut performers: Vec<Performer> = Vec::new();
    let mut rest = performer_isnis;
    let mut i: usize = 0;
    while i < 64
        invariant
            i <= 64,
            performer_bodies@.len() == 64,
            rest@.len() == 64 - i,
            forall|k: int|
                0 <= k < rest@.len() ==> (#[trigger] rest@[k])@ == isni_for_body(
                    performer_bodies@[k + i]@,
                ) && crate::identifier::isni_format(rest@[k]@) is Ok,
            performers@.len() == i,
            forall|k: int|
                0 <= k < i ==> (#[trigger] performers@[k]).instruments@.len() == 8 && (
                performers@[k].id matches PerformerId::Isni(x) && x@ == isni_for_body(
                    performer_bodies@[k]@,
                ) && crate::identifier::isni_format(x@) is Ok),
        decreases 64 - i,
    {
        let x = rest.remove(0);
        performers.push(Performer { id: PerformerId::Isni(x), instruments: eight_instruments() });
        i += 1;
    }
    let producers = isnis_of(&producer_bodies);
    let place_a: Bounded<u8, 128> = bounded_literal(place);
    let place_b = copy_bytes(&place_a);
    let place_c = copy_bytes(&place_a);
    let title_aliases: Bounded<Bounded<u8, 256>, 8> = bounded_texts(aliases);
    let featuring: Bounded<PartyId, 16> = match Bounded::try_new(featuring_parties) {
        Ok(b) => b,
        Err(_) => Bounded::new(),
    };
    let contributors: Bounded<PartyId, 32> = match Bounded::try_new(contributor_parties) {
        Ok(b) => b,
        Err(_) => Bounded::new(),
    };
    let performers: Bounded<Performer, 64> = match Bounded::try_new(performers) {
        Ok(b) => b,
        Err(_) => Bounded::new(),
    };
    let producers: Bounded<crate::identifier::Isni, 8> = match Bounded::try_new(producers) {
        Ok(b) => b,
        Err(_) => Bounded::new(),
    };
    let work_iswc = iswc_from_work_code(work_code);
    let v1 = RecordingV1 {
        isrc: isrc_for_index(isrc_index),
        title: bounded_literal(title),
        title_aliases,
        artist: artist_party,
        featuring,
        work: WorkRef::Iswc(work_iswc),
        genre: Some(Genre::Other),
        sub_genre: Some(Genre::Other),
        record_year: Some(2999),
        version_type: Some(RecordingVersion::Original),
        performers,
        producers,
        duration: Some(u32::MAX),
        bpm: Some(300),
        key: Some(MusicalKey { pitch: PitchClass::C, mode: Mode::Major }),
        places: Some(
            ProductionPlaces { recording: Some(place_a), mixing: Some(place_b), mastering: Some(place_c) },
        ),
        contributors,
        offchain_extension: Some(bounded_literal(hash)),
    };
    proof {
        let t = text_rule(v1.title_aliases@);
        assert forall|k: int| 0 <= k < 8 implies #[trigger] t(k) is Ok by {}
        lemma_first_failure_all_ok(0, 8, t);
        let fp = party_rule(v1.featuring@);
        assert forall|k: int| 0 <= k < 16 implies #[trigger] fp(k) is Ok by {}
        lemma_first_failure_all_ok(0, 16, fp);
        let pf = performer_rule(v1.performers@);
        assert forall|k: int| 0 <= k < 64 implies #[trigger] pf(k) is Ok by {}
        lemma_first_failure_all_ok(0, 64, pf);
        let pr = isni_rule(v1.producers@);
        assert forall|k: int| 0 <= k < 8 implies #[trigger] pr(k) is Ok by {}
        lemma_first_failure_all_ok(0, 8, pr);
        let cp = party_rule(v1.contributors@);
        assert forall|k: int| 0 <= k < 32 implies #[trigger] cp(k) is Ok by {}
        lemma_first_failure_all_ok(0, 32, cp);
    }
    Recording::V1(v1)
}

/// The producers pairing the ISNI of each body with its catalog number.
fn producers_of(pairs: Vec<([u8; 15], Vec<u8>)>) -> (r: Vec<Producer>)
    requires
        forall|k: int| 0 <= k < pairs@.len() ==> 1 <= (#[trigger] pairs@[k]).1@.len() <= 32,
    ensures
        r@.len() == pairs@.len(),
        forall|k: int|
            0 <= k < pairs@.len() ==> producer_check(#[trigger] r@[k]) is Ok && r@[k].isni@
                == isni_for_body(pairs@[k].0@) && r@[k].catalog_number@ == pairs@[k].1@,
{
    let n = pairs.len();
    let mut rest = pairs;
    let mut out: Vec<Producer> = Vec::new();
    let mut i: usize = 0;
    while i < n
        invariant
            n == pairs@.len(),
            i <= n,
            rest@.len() == n - i,
            forall|k: int| 0 <= k < rest@.len() ==> #[trigger] rest@[k] == pairs@[k + i],
            forall|k: int| 0 <= k < n ==> 1 <= (#[trigger] pairs@[k]).1@.len() <= 32,
            out@.len() == i,
            forall|k: int|
                0 <= k < i ==> producer_check(#[trigger] out@[k]) is Ok && out@[k].isni@
                    == isni_for_body(pairs@[k].0@) && out@[k].catalog_number@ == pairs@[k].1@,
        decreases n - i,
    {
        let (body, catalog) = rest.remove(0);
        out.push(Producer { isni: isni_from_body(body), catalog_number: bounded_literal(catalog) });
        i += 1;
    }
    out
}

/// Assembles the largest release from random pieces: a 13-digit barcode, a
/// 256-byte title and 8 aliases of 256 bytes, an artist and 16 featured
/// artists each holding an IPI and an ISNI, 256 tracks numbered `1..=256` each
/// referencing the distinct ISRC of its position, 16 producers with 32-byte
/// catalog numbers, a 128-byte distributor, 16 cover credits of 128 bytes
/// and a 64-byte off-chain hash. It is valid whenever the barcode is all
/// digits.
pub fn release_max_size_from(
    upc: Vec<u8>,
    title: Vec<u8>,
    aliases: Vec<Vec<u8>>,
    artist: ([u8; 15], u64),
    featuring: Vec<([u8; 15], u64)>,
    producer_pairs: Vec<([u8; 15], Vec<u8>)>,
    distributor: Vec<u8>,
    covers: Vec<Vec<u8>>,
    hash: Vec<u8>,
) -> (r: Release)
    requires
        upc@.len() == 13,
        title@.len() == 256,
        aliases@.len() == 8,
        forall|k: int| 0 <= k < 8 ==> (#[trigger] aliases@[k])@.len() == 256,
        featuring@.len() == 16,
        producer_pairs@.len() == 16,
        forall|k: int| 0 <= k < 16 ==> (#[trigger] producer_pairs@[k]).1@.len() == 32,
        distributor@.len() == 128,
        covers@.len() == 16,
        forall|k: int| 0 <= k < 16 ==> (#[trigger] covers@[k])@.len() == 128,
        hash@.len() == 64,
    ensures
        r matches Release::V1(w) && {
            &&& w.upc@ == upc@
            &&& w.title@ == title@
            &&& w.title_aliases@.len() == 8
            &&& forall|k: int| 0 <= k < 8 ==> (#[trigger] w.title_aliases@[k])@ == aliases@[k]@
            &&& release_saturated(w)
            &&& w.artist matches PartyId::Both { ipi, isni } && ipi@ == ipi_for_stem(
                artist.1 as nat,
                11,
            ) && isni@ == isni_for_body(artist.0@)
            &&& forall|k: int|
                0 <= k < 16 ==> (#[trigger] w.featuring@[k] matches PartyId::Both { ipi, isni } && ipi@
                    == ipi_for_stem(featuring@[k].1 as nat, 11) && isni@ == isni_for_body(featuring@[k].0@))
            &&& w.tracks@.len() == 256
            &&& forall|k: int|
                0 <= k < 256 ==> (#[trigger] w.tracks@[k]).number == k + 1 && (
                w.tracks@[k].recording matches RecordingRef::Isrc(x) && x@ == isrc_for(k as nat))
            &&& w.producers@.len() == 16
            &&& forall|k: int|
                0 <= k < 16 ==> (#[trigger] w.producers@[k]).catalog_number@
                    == producer_pairs@[k].1@
            &&& w.release_date == (ReleaseDate { year: u16::MAX, month: 12, day: 31 })
            &&& w.distributor_name@ == distributor@
            &&& w.cover_contributors@.len() == 16
            &&& forall|k: int| 0 <= k < 16 ==> (#[trigger] w.cover_contributors@[k])@ == covers@[k]@
            &&& w.offchain_extension matches Some(h) && h@ == hash@
        },
        crate::identifier::digits_between(upc@, 0, 13) ==> r.format_rules() is Ok,
{
    let featuring_parties = both_parties(&featuring);
    let producers = producers_of(producer_pairs);
    let mut tracks: Vec<Track> = Vec::new();
    let mut i: u32 = 0;
    while i < 256
        invariant
            i <= 256,
            tracks@.len() == i,
            forall|k: int|
                0 <= k < i ==> (#[trigger] tracks@[k]).number == k + 1 && (tracks@[k].recording matches RecordingRef::Isrc(
                    x,
                ) && x@ == isrc_for(k as nat)),
        decreases 256 - i,
    {
        tracks.push(Track { number: (i + 1) as u16, recording: RecordingRef::Isrc(isrc_for_index(i)) });
        i += 1;
    }
    let featuring: Bounded<PartyId, 16> = match Bounded::try_new(featuring_parties) {
        Ok(b) => b,
        Err(_) => Bounded::new(),
    };
    let producers: Bounded<Producer, 16> = match Bounded::try_new(producers) {
        Ok(b) => b,
        Err(_) => Bounded::new(),
    };
    let tracks: Bounded<Track, 256> = match Bounded::try_new(tracks) {
        Ok(b) => b,
        Err(_) => Bounded::new(),
    };
    let v1 = ReleaseV1 {
        upc: bounded_literal(upc),
        title: bounded_literal(title),
        title_aliases: bounded_texts(aliases),
        artist: PartyId::Both { ipi: ipi_from_stem(artist.1, 11), isni: isni_from_body(artist.0) },
        featuring,
        tracks,
        producers,
        status: ReleaseStatus::Official,
        release_date: ReleaseDate { year: u16::MAX, month: 12, day: 31 },
        country: Country::Us,
        distributor_name: bounded_literal(distributor),
        release_type: ReleaseType::Album,
        format: ReleaseFormat::Cd,
        packaging: ReleasePackaging::NoPackaging,
        cover_contributors: bounded_texts(covers),
        offchain_extension: Some(bounded_literal(hash)),
    };
    proof {
        assert forall|k: int| 0 <= k < 8 implies #[trigger] text_rule(v1.title_aliases@)(k) is Ok by {}
        lemma_first_failure_all_ok(0, 8, text_rule(v1.title_aliases@));
        assert forall|k: int| 0 <= k < 16 implies #[trigger] party_rule(v1.featuring@)(k) is Ok by {}
        lemma_first_failure_all_ok(0, 16, party_rule(v1.featuring@));
        let t = v1.tracks@;
        assert forall|k: int| 0 <= k < 256 implies #[trigger] track_rule(t)(k) is Ok by {
            crate::fixtures::identifiers::lemma_isrc_for_valid(k as nat);
            assert forall|j: int| 0 <= j < k implies !same_recording_ref(t[j].recording, t[k].recording) by {
                lemma_isrcs_distinct(j, k);
            }
        }
        lemma_first_failure_all_ok(0, 256, track_rule(t));
        assert(numbering_is_contiguous(t));
        assert forall|k: int| 0 <= k < 16 implies #[trigger] producer_rule(v1.producers@)(k) is Ok by {}
        lemma_first_failure_all_ok(0, 16, producer_rule(v1.producers@));
        assert forall|k: int| 0 <= k < 16 implies #[trigger] text_rule(v1.cover_contributors@)(k) is Ok by {}
        lemma_first_failure_all_ok(0, 16, text_rule(v1.cover_contributors@));
    }
    Release::V1(v1)
}

/// The role set holding exactly the roles listed in `roles`.
pub fn creator_roles_from(roles: Vec<CreatorRole>) -> (r: CreatorRoles)
    ensures
        forall|role: CreatorRole| r.has(role) <==> roles@.contains(role),
        r.spec_is_empty() <==> roles@.len() == 0,
{
    let mut set = CreatorRoles::new();
    let mut i: usize = 0;
    while i < roles.len()
        invariant
            i <= roles@.len(),
            forall|role: CreatorRole| set.has(role) <==> roles@.subrange(0, i as int).contains(role),
        decreases roles@.len() - i,
    {
        let ghost before = set;
        let _ = set.try_insert(roles[i]);
        proof {
            assert forall|role: CreatorRole| set.has(role) <==> roles@.subrange(0, i + 1).contains(role) by {
                assert(roles@.subrange(0, i + 1) =~= roles@.subrange(0, i as int).push(roles@[i as int]));
                if role == roles@[i as int] {
                    assert(roles@.subrange(0, i + 1)[i as int] == role);
                }
            }
        }
        i += 1;
    }
    proof {
        assert(roles@.subrange(0, roles@.len() as int) =~= roles@);
        assert(set.has(CreatorRole::Author) == set.author);
        assert(set.has(CreatorRole::Composer) == set.composer);
        assert(set.has(CreatorRole::Arranger) == set.arranger);
        assert(set.has(CreatorRole::Adapter) == set.adapter);
        assert(set.has(CreatorRole::Publisher) == set.publisher);
        if roles@.len() > 0 {
            assert(roles@.contains(roles@[0]));
            assert(set.has(roles@[0]));
        }
    }
    set
}

/// `x` is the same recording as some element of `s`.
pub open spec fn lists_recording(s: Seq<RecordingRef>, x: RecordingRef) -> bool {
    exists|j: int| 0 <= j < s.len() && same_recording_ref(#[trigger] s[j], x)
}

/// No two elements of `s` are the same recording.
pub open spec fn recordings_distinct(s: Seq<RecordingRef>) -> bool {
    forall|i: int, j: int| 0 <= i < j < s.len() ==> !same_recording_ref(#[trigger] s[i], #[trigger] s[j])
}

/// Whether `x` is the same recording as an element of `s`.
fn lists_recording_exec(s: &Vec<RecordingRef>, x: &RecordingRef) -> (r: bool)
    ensures
        r == lists_recording(s@, *x),
{
    let mut j: usize = 0;
    while j < s.len()
        invariant
            j <= s@.len(),
            forall|k: int| 0 <= k < j ==> !same_recording_ref(#[trigger] s@[k], *x),
        decreases s@.len() - j,
    {
        if s[j].same_as(x) {
            return true;
        }
        j += 1;
    }
    false
}

/// The references of `refs` with later repeats of a recording dropped: the
/// first occurrences, in their order.
pub fn distinct_recording_refs(refs: Vec<RecordingRef>) -> (r: Vec<RecordingRef>)
    ensures
        r@.len() <= refs@.len(),
        recordings_distinct(r@),
        forall|k: int| 0 <= k < refs@.len() ==> lists_recording(r@, #[trigger] refs@[k]),
        forall|i: int| 0 <= i < r@.len() ==> refs@.contains(#[trigger] r@[i]),
{
    let n = refs.len();
    let mut rest = refs;
    let mut out: Vec<RecordingRef> = Vec::new();
    let mut i: usize = 0;
    while i < n
        invariant
            n == refs@.len(),
            i <= n,
            rest@ == refs@.subrange(i as int, n as int),
            out@.len() <= i,
            recordings_distinct(out@),
            forall|k: int| 0 <= k < i ==> lists_recording(out@, #[trigger] refs@[k]),
            forall|j: int| 0 <= j < out@.len() ==> refs@.contains(#[trigger] out@[j]),
        decreases n - i,
    {
        let x = rest.remove(0);
        assert(x == refs@[i as int]);
        if !lists_recording_exec(&out, &x) {
            let ghost before = out@;
            out.push(x);
            proof {
                assert forall|k: int| 0 <= k < i + 1 implies lists_recording(out@, #[trigger] refs@[k]) by {
                    if k == i {
                        assert(same_recording_ref(out@[before.len() as int], refs@[k]));
                    } else {
                        let j = choose|j: int| 0 <= j < before.len() && same_recording_ref(#[trigger] before[j], refs@[k]);
                        assert(same_recording_ref(out@[j], refs@[k]));
                    }
                }
                assert forall|a: int, b: int| 0 <= a < b < out@.len() implies !same_recording_ref(#[trigger] out@[a], #[trigger] out@[b]) by {
                    if b == before.len() {
                        assert(out@[a] == before[a]);
                    }
                }
                assert forall|j: int| 0 <= j < out@.len() implies refs@.contains(#[trigger] out@[j]) by {
                    if j == before.len() {
                        assert(refs@[i as int] == out@[j]);
                    }
                }
            }
        } else {
            proof {
                assert forall|k: int| 0 <= k < i + 1 implies lists_recording(out@, #[trigger] refs@[k]) by {
                    if k == i {
                    }
                }
            }
        }
        i += 1;
    }
    out
}

/// A tracklist from random references: repeats of a recording dropped,
/// the rest numbered `1, 2, …` in order. It passes the tracklist rule
/// whenever `refs` is non-empty and every reference is well-formed.
pub fn tracklist_from(refs: Vec<RecordingRef>) -> (r: Bounded<Track, 256>)
    requires
        refs@.len() <= 256,
    ensures
        r@.len() <= refs@.len(),
        forall|k: int| 0 <= k < r@.len() ==> (#[trigger] r@[k]).number == k + 1 && refs@.contains(r@[k].recording),
        forall|k: int| 0 <= k < refs@.len() ==> lists_recording(r@.map_values(|t: Track| t.recording), #[trigger] refs@[k]),
        refs@.len() > 0 && (forall|k: int| 0 <= k < refs@.len() ==> recording_ref_check(#[trigger] refs@[k]) is Ok)
            ==> tracks_check(r@) is Ok,
{
    let ghost all = refs@;
    let unique = distinct_recording_refs(refs);
    let ghost u = unique@;
    let tracks = number_tracks(unique);
    proof {
        let t = tracks@;
        assert(t.map_values(|x: Track| x.recording) =~= u);
        if all.len() > 0 && (forall|k: int| 0 <= k < all.len() ==> recording_ref_check(#[trigger] all[k]) is Ok) {
            assert(lists_recording(u, all[0]));
            assert(u.len() > 0);
            assert forall|k: int| 0 <= k < t.len() implies #[trigger] track_rule(t)(k) is Ok by {
                let m = choose|m: int| 0 <= m < all.len() && all[m] == u[k];
                assert(recording_ref_check(all[m]) is Ok);
                assert forall|j: int| 0 <= j < k implies !same_recording_ref(t[j].recording, t[k].recording) by {
                    assert(t[j].recording == u[j]);
                }
            }
            lemma_first_failure_all_ok(0, t.len() as int, track_rule(t));
            assert(numbering_is_contiguous(t));
        }
    }
    tracks
}

} // verus!
