//! Borderline payloads: the smallest and largest valid payload of each
//! MIDDS type, and payloads breaking exactly one rule.
//!
//! Each function returns a deterministic payload (no randomness) because
//! these are the worst cases tests pin down. The `invalid_*` constructors
//! return a payload together with the error `validate_format` reports on it.
use vstd::prelude::*;

use crate::bounded::Bounded;
use crate::country::Country;
use crate::fixtures::identifiers::{
    ipi_from_stem, isni_from_body, isrc_for, isrc_for_index, iswc_for_code, iswc_for_index,
    iswc_from_work_code, lemma_isrc_for_index_injective, lemma_iswc_for_index_injective,
    upc_for, upc_for_index,
};
use crate::format_error::MiddsFormatError;
use crate::identifier::{ipi_format, isni_format, isrc_format, iswc_format, Isni, Iswc};
use crate::language::Language;
use crate::lists::{isni_rule, party_rule, text_rule};
use crate::midds::Midds;
use crate::musical_work::{
    creator_rule, musical_work_v1_check, ref_distinct_rule, ref_structure_rule, sample_rule,
    CatalogNumber, ClassicalInfo, Creator, CreatorRole, CreatorRoles, MusicalWork, MusicalWorkV1,
    Opus, WorkType,
};
use crate::recording::{
    performer_rule, recording_v1_check, Genre, Instrument, Performer, ProductionPlaces, Recording,
    RecordingV1, RecordingVersion,
};
use crate::release::{
    producer_rule, release_v1_check, track_rule, numbering_is_contiguous, Producer, Release,
    ReleaseDate, ReleaseFormat, ReleasePackaging, ReleaseStatus, ReleaseType, ReleaseV1, Track,
};
use crate::scan::lemma_first_failure_all_ok;
use crate::shared::{
    party_id_check, same_recording_ref, same_work_ref, Mode, MusicalKey, PartyId, PerformerId,
    PitchClass, RecordingRef, WorkRef,
};

verus! {

/// The party carries both identifiers at full length: an 11-digit IPI and a
/// 16-character ISNI (the largest `PartyId`).
pub open spec fn party_saturated(p: PartyId) -> bool {
    p matches PartyId::Both { ipi, isni } && ipi@.len() == 11 && isni@.len() == 16
}

/// `s` holds `n` texts of `l` bytes each.
pub open spec fn texts_saturated<const L: u32>(s: Seq<Bounded<u8, L>>, n: nat, l: nat) -> bool {
    s.len() == n && forall|k: int| 0 <= k < n ==> (#[trigger] s[k])@.len() == l
}

/// `s` holds `n` parties, each carrying both identifiers at full length.
pub open spec fn parties_saturated(s: Seq<PartyId>, n: nat) -> bool {
    s.len() == n && forall|k: int| 0 <= k < n ==> party_saturated(#[trigger] s[k])
}

/// Every bound of the work is reached with the largest variant: a 256-byte
/// title, 32 creators holding every role and a saturated party, a medley of
/// 32 sources, 64 ISWC samples, full classical information with 32-byte
/// texts, a 64-byte off-chain hash, and every optional field present.
pub open spec fn musical_work_saturated(v: MusicalWorkV1) -> bool {
    &&& v.title@.len() == 256
    &&& v.creation_year is Some && v.language is Some && v.bpm is Some && v.key is Some
    &&& v.creators@.len() == 32
    &&& forall|k: int|
        0 <= k < 32 ==> (forall|role: CreatorRole| (#[trigger] v.creators@[k]).roles.has(role))
            && party_saturated(v.creators@[k].party)
    &&& v.work_type matches WorkType::Medley(refs) && refs@.len() == 32
    &&& v.samples@.len() == 64
    &&& forall|k: int| 0 <= k < 64 ==> (#[trigger] v.samples@[k]) is Iswc
    &&& v.classical_info matches Some(ci) && (ci.opus matches Some(o) && o@.len() == 32) && (
    ci.catalog_number matches Some(c) && c@.len() == 32) && ci.number_of_voices is Some
    &&& v.offchain_extension matches Some(h) && h@.len() == 64
}

/// Every bound of the recording is reached with the largest variant:
/// 256-byte title and 8 aliases of 256 bytes, saturated artist, 16 featured
/// artists and 32 contributors, the work by ISWC, 64 ISNI performers with 8
/// instruments each, 8 producers, the three places at 128 bytes, a 64-byte
/// off-chain hash, and every optional field present.
pub open spec fn recording_saturated(v: RecordingV1) -> bool {
    &&& v.title@.len() == 256
    &&& texts_saturated(v.title_aliases@, 8, 256)
    &&& party_saturated(v.artist)
    &&& parties_saturated(v.featuring@, 16)
    &&& v.work is Iswc
    &&& v.genre is Some && v.sub_genre is Some && v.record_year is Some
    &&& v.version_type is Some && v.duration is Some && v.bpm is Some && v.key is Some
    &&& v.performers@.len() == 64
    &&& forall|k: int|
        0 <= k < 64 ==> (#[trigger] v.performers@[k]).id is Isni && v.performers@[k].instruments@.len()
            == 8
    &&& v.producers@.len() == 8
    &&& parties_saturated(v.contributors@, 32)
    &&& v.places matches Some(p) && (p.recording matches Some(a) && a@.len() == 128) && (
    p.mixing matches Some(b) && b@.len() == 128) && (p.mastering matches Some(c) && c@.len()
        == 128)
    &&& v.offchain_extension matches Some(h) && h@.len() == 64
}

/// Every bound of the release is reached with the largest variant: a
/// 13-digit EAN, 256-byte title and 8 aliases of 256 bytes, saturated
/// artist and 16 featured artists, 256 tracks by ISRC, 16 producers with
/// 32-byte catalog numbers, a 128-byte distributor, 16 cover credits of 128
/// bytes and a 64-byte off-chain hash.
pub open spec fn release_saturated(v: ReleaseV1) -> bool {
    &&& v.upc@.len() == 13
    &&& v.title@.len() == 256
    &&& texts_saturated(v.title_aliases@, 8, 256)
    &&& party_saturated(v.artist)
    &&& parties_saturated(v.featuring@, 16)
    &&& v.tracks@.len() == 256
    &&& forall|k: int| 0 <= k < 256 ==> (#[trigger] v.tracks@[k]).recording is Isrc
    &&& v.producers@.len() == 16
    &&& forall|k: int| 0 <= k < 16 ==> (#[trigger] v.producers@[k]).catalog_number@.len() == 32
    &&& v.distributor_name@.len() == 128
    &&& texts_saturated(v.cover_contributors@, 16, 128)
    &&& v.offchain_extension matches Some(h) && h@.len() == 64
}

/// `n` copies of `b`.
fn repeat_byte(b: u8, n: usize) -> (r: Vec<u8>)
    ensures
        r@.len() == n,
        forall|i: int| 0 <= i < n ==> r@[i] == b,
{
    let mut v: Vec<u8> = Vec::new();
    let mut k: usize = 0;
    while k < n
        invariant
            k <= n,
            v@.len() == k,
            forall|i: int| 0 <= i < k ==> v@[i] == b,
        decreases n - k,
    {
        v.push(b);
        k += 1;
    }
    v
}

/// `n` copies of `b` as a bounded string of capacity `N`.
fn filled<const N: u32>(b: u8, n: usize) -> (r: Bounded<u8, N>)
    requires
        n <= N,
    ensures
        r@.len() == n,
        forall|i: int| 0 <= i < n ==> r@[i] == b,
{
    match Bounded::try_new(repeat_byte(b, n)) {
        Ok(v) => v,
        Err(_) => Bounded::new(),
    }
}

/// The set of every creator role.
pub(crate) fn all_roles() -> (r: CreatorRoles)
    ensures
        !r.spec_is_empty(),
        forall|role: CreatorRole| r.has(role),
{
    CreatorRoles { author: true, composer: true, arranger: true, adapter: true, publisher: true }
}

/// The set holding only `role`.
fn single_role(role: CreatorRole) -> (r: CreatorRoles)
    ensures
        !r.spec_is_empty(),
        r.has(role),
{
    let mut set = CreatorRoles::new();
    let _ = set.try_insert(role);
    set
}

/// The ISNI built from the digits `(i + j + 1) % 10`, `j < 15`.
fn isni_at(i: u32) -> (r: Isni)
    ensures
        isni_format(r@) is Ok,
{
    let mut body = [0u8; 15];
    let mut j: usize = 0;
    while j < 15
        invariant
            j <= 15,
        decreases 15 - j,
    {
        body.set(j, ((i as u64 + j as u64 + 1) % 10) as u8);
        j += 1;
    }
    isni_from_body(body)
}

/// A party carrying both an 11-digit IPI and an ISNI.
fn party_both_at(i: u32) -> (r: PartyId)
    ensures
        party_id_check(r) is Ok,
        party_saturated(r),
{
    PartyId::Both { ipi: ipi_from_stem(i as u64 * 1_000_000_007 + 1, 11), isni: isni_at(i) }
}

/// Smallest valid `MusicalWork`: the title `x`, a single composer with a
/// 9-digit IPI, no optional field, `Original`.
pub fn min_size_musical_work() -> (r: MusicalWork)
    ensures
        r.format_rules() is Ok,
        r matches MusicalWork::V1(v) && v.iswc@ == iswc_for_code(0) && v.title@.len() == 1
            && v.creators@.len() == 1 && v.samples@.len() == 0 && v.work_type == WorkType::Original
            && v.classical_info is None && v.offchain_extension is None,
{
    let mut creators = Bounded::new();
    let _ = creators.try_push(
        Creator { roles: single_role(CreatorRole::Composer), party: PartyId::Ipi(ipi_from_stem(0, 9)) },
    );
    let v1 = MusicalWorkV1 {
        iswc: iswc_for_index(0),
        title: filled::<256>(120, 1),
        creation_year: None,
        instrumental: true,
        language: None,
        explicit_lyrics: false,
        bpm: None,
        key: None,
        work_type: WorkType::Original,
        samples: Bounded::new(),
        creators,
        classical_info: None,
        offchain_extension: None,
    };
    proof {
        assert(creator_rule(v1.creators@)(0) is Ok);
        lemma_first_failure_all_ok(0, 1, creator_rule(v1.creators@));
        lemma_first_failure_all_ok(0, 0, sample_rule(v1.samples@, v1.iswc@));
    }
    MusicalWork::V1(v1)
}

/// Distinct work codes below `10^9` give distinct ISWCs.
proof fn lemma_codes_distinct(a: nat, b: nat)
    requires
        a < 1_000_000_000,
        b < 1_000_000_000,
        a != b,
    ensures
        iswc_for_code(a) != iswc_for_code(b),
{
    lemma_iswc_for_index_injective(a as u32, b as u32);
}

/// Largest valid `MusicalWork`: every bounded field at capacity, every
/// optional field present, every creator holding every role and both an
/// IPI and an ISNI, and a `Medley` with the maximum number of distinct
/// sources.
pub fn max_size_musical_work() -> (r: MusicalWork)
    ensures
        r.format_rules() is Ok,
        r matches MusicalWork::V1(v) && {
            &&& musical_work_saturated(v)
            &&& v.iswc@ == iswc_for_code(0)
            &&& forall|i: int| 0 <= i < 256 ==> v.title@[i] == 120u8
            &&& v.work_type matches WorkType::Medley(refs) && forall|k: int|
                0 <= k < 32 ==> (#[trigger] refs@[k])@ == iswc_for_code((k + 1) as nat)
            &&& forall|k: int|
                0 <= k < 64 ==> ((#[trigger] v.samples@[k]) matches WorkRef::Iswc(x) && x@
                    == iswc_for_code((k + 1) as nat))
            &&& v.classical_info matches Some(ci) && ci.number_of_voices == Some(u16::MAX)
                && (ci.opus matches Some(o) && forall|i: int| 0 <= i < 32 ==> o@[i] == 111u8)
                && (ci.catalog_number matches Some(c) && forall|i: int| 0 <= i < 32 ==> c@[i]
                == 99u8)
            &&& v.offchain_extension matches Some(h) && forall|i: int| 0 <= i < 64 ==> h@[i]
                == 104u8
        },
{
    let mut creators: Vec<Creator> = Vec::new();
    let mut i: u32 = 0;
    while i < 32
        invariant
            i <= 32,
            creators@.len() == i,
            forall|k: int| 0 <= k < i ==> crate::musical_work::creator_check(#[trigger] creators@[k]) is Ok
                && (forall|role: CreatorRole| creators@[k].roles.has(role)) && party_saturated(creators@[k].party),
        decreases 32 - i,
    {
        creators.push(Creator { roles: all_roles(), party: party_both_at(i) });
        i += 1;
    }
    let mut refs: Vec<Iswc> = Vec::new();
    let mut i: u32 = 0;
    while i < 32
        invariant
            i <= 32,
            refs@.len() == i,
            forall|k: int| 0 <= k < i ==> (#[trigger] refs@[k])@ == iswc_for_code((k + 1) as nat),
        decreases 32 - i,
    {
        refs.push(iswc_from_work_code(i + 1));
        i += 1;
    }
    let mut samples: Vec<WorkRef> = Vec::new();
    let mut i: u32 = 0;
    while i < 64
        invariant
            i <= 64,
            samples@.len() == i,
            forall|k: int|
                0 <= k < i ==> ((#[trigger] samples@[k]) matches WorkRef::Iswc(x) && x@
                    == iswc_for_code((k + 1) as nat)),
        decreases 64 - i,
    {
        samples.push(WorkRef::Iswc(iswc_from_work_code(i + 1)));
        i += 1;
    }
    let creators = match Bounded::try_new(creators) {
        Ok(c) => c,
        Err(_) => Bounded::new(),
    };
    let refs = match Bounded::try_new(refs) {
        Ok(c) => c,
        Err(_) => Bounded::new(),
    };
    let samples = match Bounded::try_new(samples) {
        Ok(c) => c,
        Err(_) => Bounded::new(),
    };
    let own = iswc_from_work_code(0);
    proof {
        let f = ref_structure_rule(refs@);
        assert forall|k: int| 0 <= k < 32 implies #[trigger] f(k) is Ok by {
            crate::fixtures::identifiers::lemma_iswc_for_code_valid((k + 1) as nat);
        }
        lemma_first_failure_all_ok(0, 32, f);
        let g = ref_distinct_rule(refs@, own@);
        assert forall|k: int| 0 <= k < 32 implies #[trigger] g(k) is Ok by {
            lemma_codes_distinct((k + 1) as nat, 0);
            assert forall|j: int| 0 <= j < k implies refs@[j]@ != refs@[k]@ by {
                lemma_codes_distinct((j + 1) as nat, (k + 1) as nat);
            }
        }
        lemma_first_failure_all_ok(0, 32, g);
        let h = sample_rule(samples@, own@);
        assert forall|k: int| 0 <= k < 64 implies #[trigger] h(k) is Ok by {
            crate::fixtures::identifiers::lemma_iswc_for_code_valid((k + 1) as nat);
            lemma_codes_distinct((k + 1) as nat, 0);
            assert forall|j: int| 0 <= j < k implies !same_work_ref(samples@[j], samples@[k]) by {
                lemma_codes_distinct((j + 1) as nat, (k + 1) as nat);
            }
        }
        lemma_first_failure_all_ok(0, 64, h);
        let c = creator_rule(creators@);
        assert forall|k: int| 0 <= k < 32 implies #[trigger] c(k) is Ok by {}
        lemma_first_failure_all_ok(0, 32, c);
    }
    let v1 = MusicalWorkV1 {
        iswc: own,
        title: filled::<256>(120, 256),
        creation_year: Some(2999),
        instrumental: false,
        language: Some(Language::En),
        explicit_lyrics: true,
        bpm: Some(300),
        key: Some(MusicalKey { pitch: PitchClass::C, mode: Mode::Major }),
        work_type: WorkType::Medley(refs),
        samples,
        creators,
        classical_info: Some(
            ClassicalInfo {
                opus: Some(filled::<32>(111, 32)),
                catalog_number: Some(filled::<32>(99, 32)),
                number_of_voices: Some(u16::MAX),
            },
        ),
        offchain_extension: Some(filled::<64>(104, 64)),
    };
    MusicalWork::V1(v1)
}

/// The minimum-size work with its ISWC's `T` replaced by `X`:
/// `InvalidIdentifierStructure`.
pub fn invalid_iswc_wrong_prefix() -> (r: (MusicalWork, MiddsFormatError))
    ensures
        r.1 == MiddsFormatError::InvalidIdentifierStructure,
        r.0.format_rules() == Err::<(), MiddsFormatError>(r.1),
{
    let MusicalWork::V1(mut v1) = min_size_musical_work();
    let mut bytes = iswc_for_index(0).into_vec();
    bytes.set(0, 88);
    v1.iswc = match Bounded::try_new(bytes) {
        Ok(b) => b,
        Err(_) => Bounded::new(),
    };
    (MusicalWork::V1(v1), MiddsFormatError::InvalidIdentifierStructure)
}

/// The minimum-size work with one ISWC digit replaced by `A`:
/// `InvalidCharset`.
pub fn invalid_iswc_bad_charset() -> (r: (MusicalWork, MiddsFormatError))
    ensures
        r.1 == MiddsFormatError::InvalidCharset,
        r.0.format_rules() == Err::<(), MiddsFormatError>(r.1),
{
    let MusicalWork::V1(mut v1) = min_size_musical_work();
    let mut bytes = iswc_for_index(0).into_vec();
    bytes.set(5, 65);
    v1.iswc = match Bounded::try_new(bytes) {
        Ok(b) => b,
        Err(_) => Bounded::new(),
    };
    assert(v1.iswc@[0] == 84u8);
    assert(!crate::identifier::is_digit(v1.iswc@[5]));
    assert(!crate::identifier::digits_between(v1.iswc@, 1, 11));
    (MusicalWork::V1(v1), MiddsFormatError::InvalidCharset)
}

/// The minimum-size work with an empty title: `EmptyMandatoryField`.
pub fn invalid_empty_title() -> (r: (MusicalWork, MiddsFormatError))
    ensures
        r.1 == MiddsFormatError::EmptyMandatoryField,
        r.0.format_rules() == Err::<(), MiddsFormatError>(r.1),
{
    let MusicalWork::V1(mut v1) = min_size_musical_work();
    v1.title = Bounded::new();
    (MusicalWork::V1(v1), MiddsFormatError::EmptyMandatoryField)
}

/// The minimum-size work with no creator: `EmptyMandatoryField`.
pub fn invalid_empty_creators() -> (r: (MusicalWork, MiddsFormatError))
    ensures
        r.1 == MiddsFormatError::EmptyMandatoryField,
        r.0.format_rules() == Err::<(), MiddsFormatError>(r.1),
{
    let MusicalWork::V1(mut v1) = min_size_musical_work();
    v1.creators = Bounded::new();
    (MusicalWork::V1(v1), MiddsFormatError::EmptyMandatoryField)
}

/// The minimum-size work as a `Medley` with no source (fewer than two):
/// `OutOfBounds`.
pub fn invalid_empty_medley_refs() -> (r: (MusicalWork, MiddsFormatError))
    ensures
        r.1 == MiddsFormatError::OutOfBounds,
        r.0.format_rules() == Err::<(), MiddsFormatError>(r.1),
{
    let MusicalWork::V1(mut v1) = min_size_musical_work();
    v1.work_type = WorkType::Medley(Bounded::new());
    (MusicalWork::V1(v1), MiddsFormatError::OutOfBounds)
}

/// Smallest valid `Recording`: the title `x`, an IPI artist, the work by
/// MIDDS id, every collection empty and every optional field absent.
pub fn min_size_recording() -> (r: Recording)
    ensures
        r.format_rules() is Ok,
        r matches Recording::V1(v) && v.isrc@ == isrc_for(0) && v.title@.len() == 1
            && v.title_aliases@.len() == 0 && v.featuring@.len() == 0 && v.performers@.len() == 0
            && v.producers@.len() == 0 && v.contributors@.len() == 0 && v.places is None
            && v.offchain_extension is None && v.work == WorkRef::Midds(0),
{
    let v1 = RecordingV1 {
        isrc: isrc_for_index(0),
        title: filled::<256>(120, 1),
        title_aliases: Bounded::new(),
        artist: PartyId::Ipi(ipi_from_stem(0, 9)),
        featuring: Bounded::new(),
        work: WorkRef::Midds(0),
        genre: None,
        sub_genre: None,
        record_year: None,
        version_type: None,
        performers: Bounded::new(),
        producers: Bounded::new(),
        duration: None,
        bpm: None,
        key: None,
        places: None,
        contributors: Bounded::new(),
        offchain_extension: None,
    };
    proof {
        lemma_first_failure_all_ok(0, 0, text_rule(v1.title_aliases@));
        lemma_first_failure_all_ok(0, 0, party_rule(v1.featuring@));
        lemma_first_failure_all_ok(0, 0, performer_rule(v1.performers@));
        lemma_first_failure_all_ok(0, 0, isni_rule(v1.producers@));
        lemma_first_failure_all_ok(0, 0, party_rule(v1.contributors@));
    }
    Recording::V1(v1)
}

/// `n` parties carrying both an IPI and an ISNI.
fn parties_both(n: u32) -> (r: Vec<PartyId>)
    ensures
        r@.len() == n,
        forall|k: int| 0 <= k < n ==> party_id_check(#[trigger] r@[k]) is Ok && party_saturated(r@[k]),
{
    let mut v: Vec<PartyId> = Vec::new();
    let mut i: u32 = 0;
    while i < n
        invariant
            i <= n,
            v@.len() == i,
            forall|k: int| 0 <= k < i ==> party_id_check(#[trigger] v@[k]) is Ok && party_saturated(v@[k]),
        decreases n - i,
    {
        v.push(party_both_at(i));
        i += 1;
    }
    v
}

/// `n` copies of `n_bytes` copies of `b`, each a bounded string.
fn filled_list<const L: u32>(b: u8, n_bytes: usize, n: usize) -> (r: Vec<Bounded<u8, L>>)
    requires
        n_bytes <= L,
    ensures
        r@.len() == n,
        forall|k: int| 0 <= k < n ==> (#[trigger] r@[k])@.len() == n_bytes,
        forall|k: int, i: int| 0 <= k < n && 0 <= i < n_bytes ==> #[trigger] r@[k]@[i] == b,
{
    let mut v: Vec<Bounded<u8, L>> = Vec::new();
    let mut k: usize = 0;
    while k < n
        invariant
            n_bytes <= L,
            k <= n,
            v@.len() == k,
            forall|j: int| 0 <= j < k ==> (#[trigger] v@[j])@.len() == n_bytes,
            forall|j: int, i: int| 0 <= j < k && 0 <= i < n_bytes ==> #[trigger] v@[j]@[i] == b,
        decreases n - k,
    {
        v.push(filled::<L>(b, n_bytes));
        k += 1;
    }
    v
}

/// Wraps `v` into a bounded list (`v` fits).
fn bound<T, const N: u32>(v: Vec<T>) -> (r: Bounded<T, N>)
    requires
        v@.len() <= N,
    ensures
        r@ == v@,
{
    match Bounded::try_new(v) {
        Ok(b) => b,
        Err(_) => Bounded::new(),
    }
}

/// Largest valid `Recording`: every bounded field at capacity, every
/// optional field present, parties carrying both an IPI and an ISNI,
/// performers identified by ISNI with a full instrument list, and the work
/// referenced by ISWC.
pub fn max_size_recording() -> (r: Recording)
    ensures
        r.format_rules() is Ok,
        r matches Recording::V1(v) && {
            &&& recording_saturated(v)
            &&& v.isrc@ == isrc_for(0)
            &&& v.work matches WorkRef::Iswc(x) && x@ == iswc_for_code(1)
            &&& forall|i: int| 0 <= i < 256 ==> v.title@[i] == 120u8
            &&& forall|k: int, i: int| 0 <= k < 8 && 0 <= i < 256 ==> #[trigger] v.title_aliases@[k]@[i] == 97u8
            &&& forall|k: int, j: int| 0 <= k < 64 && 0 <= j < 8 ==> #[trigger] v.performers@[k].instruments@[j] == Instrument::Other
            &&& v.places matches Some(p) && (p.recording matches Some(a) && forall|i: int| 0 <= i < 128 ==> a@[i] == 112u8)
            &&& v.offchain_extension matches Some(h) && forall|i: int| 0 <= i < 64 ==> h@[i] == 104u8
        },
{
    let aliases = filled_list::<256>(97, 256, 8);
    let featuring = parties_both(16);
    let contributors = parties_both(32);
    let mut performers: Vec<Performer> = Vec::new();
    let mut i: u32 = 0;
    while i < 64
        invariant
            i <= 64,
            performers@.len() == i,
            forall|k: int|
                0 <= k < i ==> crate::recording::performer_check(#[trigger] performers@[k]) is Ok
                    && performers@[k].id is Isni && performers@[k].instruments@.len() == 8,
            forall|k: int, j: int| 0 <= k < i && 0 <= j < 8 ==> #[trigger] performers@[k].instruments@[j] == Instrument::Other,
        decreases 64 - i,
    {
        let mut instruments: Bounded<Instrument, 8> = Bounded::new();
        let mut j: usize = 0;
        while j < 8
            invariant
                j <= 8,
                instruments@.len() == j,
                forall|m: int| 0 <= m < j ==> #[trigger] instruments@[m] == Instrument::Other,
            decreases 8 - j,
        {
            let _ = instruments.try_push(Instrument::Other);
            j += 1;
        }
        performers.push(Performer { id: PerformerId::Isni(isni_at(i)), instruments });
        i += 1;
    }
    let mut producers: Vec<Isni> = Vec::new();
    let mut i: u32 = 0;
    while i < 8
        invariant
            i <= 8,
            producers@.len() == i,
            forall|k: int| 0 <= k < i ==> isni_format((#[trigger] producers@[k])@) is Ok,
        decreases 8 - i,
    {
        producers.push(isni_at(i));
        i += 1;
    }
    let work_iswc = iswc_from_work_code(1);
    let v1 = RecordingV1 {
        isrc: isrc_for_index(0),
        title: filled::<256>(120, 256),
        title_aliases: bound(aliases),
        artist: party_both_at(99),
        featuring: bound(featuring),
        work: WorkRef::Iswc(work_iswc),
        genre: Some(Genre::Other),
        sub_genre: Some(Genre::Other),
        record_year: Some(2999),
        version_type: Some(RecordingVersion::Original),
        performers: bound(performers),
        producers: bound(producers),
        duration: Some(u32::MAX),
        bpm: Some(300),
        key: Some(MusicalKey { pitch: PitchClass::C, mode: Mode::Major }),
        places: Some(
            ProductionPlaces {
                recording: Some(filled::<128>(112, 128)),
                mixing: Some(filled::<128>(112, 128)),
                mastering: Some(filled::<128>(112, 128)),
            },
        ),
        contributors: bound(contributors),
        offchain_extension: Some(filled::<64>(104, 64)),
    };
    proof {
        assert forall|k: int| 0 <= k < 8 implies #[trigger] text_rule(v1.title_aliases@)(k) is Ok by {}
        lemma_first_failure_all_ok(0, 8, text_rule(v1.title_aliases@));
        assert forall|k: int| 0 <= k < 16 implies #[trigger] party_rule(v1.featuring@)(k) is Ok by {}
        lemma_first_failure_all_ok(0, 16, party_rule(v1.featuring@));
        assert forall|k: int| 0 <= k < 64 implies #[trigger] performer_rule(v1.performers@)(k) is Ok by {}
        lemma_first_failure_all_ok(0, 64, performer_rule(v1.performers@));
        assert forall|k: int| 0 <= k < 8 implies #[trigger] isni_rule(v1.producers@)(k) is Ok by {}
        lemma_first_failure_all_ok(0, 8, isni_rule(v1.producers@));
        assert forall|k: int| 0 <= k < 32 implies #[trigger] party_rule(v1.contributors@)(k) is Ok by {}
        lemma_first_failure_all_ok(0, 32, party_rule(v1.contributors@));
    }
    Recording::V1(v1)
}

/// The minimum-size recording with a lowercase ISRC country code:
/// `InvalidCharset`.
pub fn invalid_recording_isrc_bad_charset() -> (r: (Recording, MiddsFormatError))
    ensures
        r.1 == MiddsFormatError::InvalidCharset,
        r.0.format_rules() == Err::<(), MiddsFormatError>(r.1),
{
    let Recording::V1(mut v1) = min_size_recording();
    let mut bytes = isrc_for_index(0).into_vec();
    bytes.set(0, 102);
    v1.isrc = bound(bytes);
    assert(!crate::identifier::is_upper(v1.isrc@[0]));
    assert(!crate::identifier::uppers_between(v1.isrc@, 0, 2));
    (Recording::V1(v1), MiddsFormatError::InvalidCharset)
}

/// The minimum-size recording with an 11-byte ISRC: `OutOfBounds`.
pub fn invalid_recording_isrc_wrong_length() -> (r: (Recording, MiddsFormatError))
    ensures
        r.1 == MiddsFormatError::OutOfBounds,
        r.0.format_rules() == Err::<(), MiddsFormatError>(r.1),
{
    let Recording::V1(mut v1) = min_size_recording();
    // "USRC1760783"
    v1.isrc = bound(vec![85u8, 83, 82, 67, 49, 55, 54, 48, 55, 56, 51]);
    (Recording::V1(v1), MiddsFormatError::OutOfBounds)
}

/// The minimum-size recording with an empty title: `EmptyMandatoryField`.
pub fn invalid_recording_empty_title() -> (r: (Recording, MiddsFormatError))
    ensures
        r.1 == MiddsFormatError::EmptyMandatoryField,
        r.0.format_rules() == Err::<(), MiddsFormatError>(r.1),
{
    let Recording::V1(mut v1) = min_size_recording();
    v1.title = Bounded::new();
    (Recording::V1(v1), MiddsFormatError::EmptyMandatoryField)
}

/// The minimum-size recording whose work ISWC lacks the `T` prefix:
/// `InvalidIdentifierStructure`.
pub fn invalid_recording_work_iswc_prefix() -> (r: (Recording, MiddsFormatError))
    ensures
        r.1 == MiddsFormatError::InvalidIdentifierStructure,
        r.0.format_rules() == Err::<(), MiddsFormatError>(r.1),
{
    let Recording::V1(mut v1) = min_size_recording();
    // "X1234567890"
    v1.work = WorkRef::Iswc(bound(vec![88u8, 49, 50, 51, 52, 53, 54, 55, 56, 57, 48]));
    (Recording::V1(v1), MiddsFormatError::InvalidIdentifierStructure)
}

/// Smallest valid `Release`: a 12-digit UPC-A of zeros, the title `x`, an
/// IPI artist, a single track by MIDDS id, every collection empty and every
/// optional field absent.
pub fn min_size_release() -> (r: Release)
    ensures
        r.format_rules() is Ok,
        r matches Release::V1(v) && v.upc@.len() == 12 && v.title@.len() == 1
            && v.tracks@.len() == 1 && v.title_aliases@.len() == 0 && v.featuring@.len() == 0
            && v.producers@.len() == 0 && v.cover_contributors@.len() == 0
            && v.offchain_extension is None,
{
    let mut tracks: Bounded<Track, 256> = Bounded::new();
    let _ = tracks.try_push(Track { number: 1, recording: RecordingRef::Midds(0) });
    let v1 = ReleaseV1 {
        upc: filled::<13>(48, 12),
        title: filled::<256>(120, 1),
        title_aliases: Bounded::new(),
        artist: PartyId::Ipi(ipi_from_stem(0, 9)),
        featuring: Bounded::new(),
        tracks,
        producers: Bounded::new(),
        status: ReleaseStatus::Official,
        release_date: ReleaseDate { year: 0, month: 1, day: 1 },
        country: Country::Us,
        distributor_name: filled::<128>(120, 1),
        release_type: ReleaseType::Album,
        format: ReleaseFormat::Cd,
        packaging: ReleasePackaging::NoPackaging,
        cover_contributors: Bounded::new(),
        offchain_extension: None,
    };
    proof {
        assert(crate::identifier::digits_between(v1.upc@, 0, 12));
        lemma_first_failure_all_ok(0, 0, text_rule(v1.title_aliases@));
        lemma_first_failure_all_ok(0, 0, party_rule(v1.featuring@));
        assert(track_rule(v1.tracks@)(0) is Ok);
        lemma_first_failure_all_ok(0, 1, track_rule(v1.tracks@));
        lemma_first_failure_all_ok(0, 0, producer_rule(v1.producers@));
        lemma_first_failure_all_ok(0, 0, text_rule(v1.cover_contributors@));
    }
    Release::V1(v1)
}

/// Distinct indices below `10^8` give distinct ISRCs.
pub(crate) proof fn lemma_isrcs_distinct(a: int, b: int)
    requires
        0 <= a < 100_000_000,
        0 <= b < 100_000_000,
        a != b,
    ensures
        isrc_for(a as nat) != isrc_for(b as nat),
{
    lemma_isrc_for_index_injective(a as u32, b as u32);
}

/// Largest valid `Release`: every bounded field at capacity, every
/// optional field present, parties carrying both an IPI and an ISNI, and
/// every track referenced by a distinct ISRC.
pub fn max_size_release() -> (r: Release)
    ensures
        r.format_rules() is Ok,
        r matches Release::V1(v) && {
            &&& release_saturated(v)
            &&& v.upc@ == upc_for(0)
            &&& forall|k: int|
                0 <= k < 256 ==> (#[trigger] v.tracks@[k]).number == k + 1 && (v.tracks@[k].recording matches RecordingRef::Isrc(x) && x@ == isrc_for(k as nat))
            &&& v.release_date == (ReleaseDate { year: u16::MAX, month: 12, day: 31 })
            &&& forall|i: int| 0 <= i < 256 ==> v.title@[i] == 120u8
            &&& forall|k: int, i: int| 0 <= k < 8 && 0 <= i < 256 ==> #[trigger] v.title_aliases@[k]@[i] == 97u8
            &&& forall|k: int, i: int| 0 <= k < 16 && 0 <= i < 32 ==> #[trigger] v.producers@[k].catalog_number@[i] == 99u8
            &&& forall|i: int| 0 <= i < 128 ==> v.distributor_name@[i] == 100u8
            &&& forall|k: int, i: int| 0 <= k < 16 && 0 <= i < 128 ==> #[trigger] v.cover_contributors@[k]@[i] == 110u8
            &&& v.offchain_extension matches Some(h) && forall|i: int| 0 <= i < 64 ==> h@[i] == 104u8
        },
{
    let aliases = filled_list::<256>(97, 256, 8);
    let featuring = parties_both(16);
    let covers = filled_list::<128>(110, 128, 16);
    let mut tracks: Vec<Track> = Vec::new();
    let mut i: u32 = 0;
    while i < 256
        invariant
            i <= 256,
            tracks@.len() == i,
            forall|k: int|
                0 <= k < i ==> (#[trigger] tracks@[k]).number == k + 1 && (tracks@[k].recording matches RecordingRef::Isrc(
                    x,
                ) && x@ == isrc_for(k as nat)),
        decreases 256 - i,
    {
        tracks.push(Track { number: (i + 1) as u16, recording: RecordingRef::Isrc(isrc_for_index(i)) });
        i += 1;
    }
    let mut producers: Vec<Producer> = Vec::new();
    let mut i: u32 = 0;
    while i < 16
        invariant
            i <= 16,
            producers@.len() == i,
            forall|k: int| 0 <= k < i ==> crate::release::producer_check(#[trigger] producers@[k]) is Ok
                && producers@[k].catalog_number@.len() == 32,
            forall|k: int, m: int| 0 <= k < i && 0 <= m < 32 ==> #[trigger] producers@[k].catalog_number@[m] == 99u8,
        decreases 16 - i,
    {
        producers.push(Producer { isni: isni_at(i), catalog_number: filled::<32>(99, 32) });
        i += 1;
    }
    let v1 = ReleaseV1 {
        upc: upc_for_index(0),
        title: filled::<256>(120, 256),
        title_aliases: bound(aliases),
        artist: PartyId::Both { ipi: ipi_from_stem(99 * 1_000_000_007, 11), isni: isni_at(99) },
        featuring: bound(featuring),
        tracks: bound(tracks),
        producers: bound(producers),
        status: ReleaseStatus::Official,
        release_date: ReleaseDate { year: u16::MAX, month: 12, day: 31 },
        country: Country::Us,
        distributor_name: filled::<128>(100, 128),
        release_type: ReleaseType::Album,
        format: ReleaseFormat::Cd,
        packaging: ReleasePackaging::NoPackaging,
        cover_contributors: bound(covers),
        offchain_extension: Some(filled::<64>(104, 64)),
    };
    proof {
        assert forall|k: int| 0 <= k < 8 implies #[trigger] text_rule(v1.title_aliases@)(k) is Ok by {}
        lemma_first_failure_all_ok(0, 8, text_rule(v1.title_aliases@));
        assert forall|k: int| 0 <= k < 16 implies #[trigger] party_rule(v1.featuring@)(k) is Ok by {}
        lemma_first_failure_all_ok(0, 16, party_rule(v1.featuring@));
        let t = v1.tracks@;
        assert forall|k: int| 0 <= k < 256 implies #[trigger] track_rule(t)(k) is Ok by {
            crate::fixtures::identifiers::lemma_isrc_for_valid(k as nat);
            assert forall|j: int| 0 <= j < k implies !same_recording_ref(t[j].recording, t[k].recording) by {
                lemma_isrcs_distinct(j, k);
            }
        }
        lemma_first_failure_all_ok(0, 256, track_rule(t));
        assert(numbering_is_contiguous(t));
        assert forall|k: int| 0 <= k < 16 implies #[trigger] producer_rule(v1.producers@)(k) is Ok by {}
        lemma_first_failure_all_ok(0, 16, producer_rule(v1.producers@));
        assert forall|k: int| 0 <= k < 16 implies #[trigger] text_rule(v1.cover_contributors@)(k) is Ok by {}
        lemma_first_failure_all_ok(0, 16, text_rule(v1.cover_contributors@));
    }
    Release::V1(v1)
}

/// The minimum-size release with a non-digit UPC byte: `InvalidCharset`.
pub fn invalid_release_upc_bad_charset() -> (r: (Release, MiddsFormatError))
    ensures
        r.1 == MiddsFormatError::InvalidCharset,
        r.0.format_rules() == Err::<(), MiddsFormatError>(r.1),
{
    let Release::V1(mut v1) = min_size_release();
    // "00000000000X"
    v1.upc = bound(vec![48u8, 48, 48, 48, 48, 48, 48, 48, 48, 48, 48, 88]);
    assert(!crate::identifier::is_digit(v1.upc@[11]));
    (Release::V1(v1), MiddsFormatError::InvalidCharset)
}

/// The minimum-size release with a 7-digit UPC: `OutOfBounds`.
pub fn invalid_release_upc_wrong_length() -> (r: (Release, MiddsFormatError))
    ensures
        r.1 == MiddsFormatError::OutOfBounds,
        r.0.format_rules() == Err::<(), MiddsFormatError>(r.1),
{
    let Release::V1(mut v1) = min_size_release();
    v1.upc = filled::<13>(48, 7);
    (Release::V1(v1), MiddsFormatError::OutOfBounds)
}

/// The minimum-size release with an empty title: `EmptyMandatoryField`.
pub fn invalid_release_empty_title() -> (r: (Release, MiddsFormatError))
    ensures
        r.1 == MiddsFormatError::EmptyMandatoryField,
        r.0.format_rules() == Err::<(), MiddsFormatError>(r.1),
{
    let Release::V1(mut v1) = min_size_release();
    v1.title = Bounded::new();
    (Release::V1(v1), MiddsFormatError::EmptyMandatoryField)
}

/// The minimum-size release with an empty tracklist:
/// `EmptyMandatoryField`.
pub fn invalid_release_empty_tracklist() -> (r: (Release, MiddsFormatError))
    ensures
        r.1 == MiddsFormatError::EmptyMandatoryField,
        r.0.format_rules() == Err::<(), MiddsFormatError>(r.1),
{
    let Release::V1(mut v1) = min_size_release();
    v1.tracks = Bounded::new();
    (Release::V1(v1), MiddsFormatError::EmptyMandatoryField)
}

/// The minimum-size release dated in a thirteenth month: `OutOfBounds`.
pub fn invalid_release_bad_date() -> (r: (Release, MiddsFormatError))
    ensures
        r.1 == MiddsFormatError::OutOfBounds,
        r.0.format_rules() == Err::<(), MiddsFormatError>(r.1),
{
    let Release::V1(mut v1) = min_size_release();
    v1.release_date = ReleaseDate { year: 2024, month: 13, day: 1 };
    (Release::V1(v1), MiddsFormatError::OutOfBounds)
}

} // verus!
