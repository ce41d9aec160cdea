use midds::bounded::{Bounded, MiddsString};
use midds::format_error::MiddsFormatError;
use midds::language::Language;
use midds::midds::Midds;
use midds::musical_work::{
    ClassicalInfo, Creator, CreatorRole, CreatorRoles, MusicalWork, MusicalWorkV1,
    SampleReferences, WorkReferences, WorkType,
};
use midds::shared::{Mode, MusicalKey, PartyId, PitchClass, WorkRef};
use midds::Iswc;

fn bv<const N: u32>(s: &[u8]) -> MiddsString<N> {
    Bounded::try_new(s.to_vec()).expect("bounded vec build")
}

fn roles_set<const N: usize>(roles: [CreatorRole; N]) -> CreatorRoles {
    let mut set = CreatorRoles::new();
    for r in roles {
        set.try_insert(r).expect("role within bound");
    }
    set
}

fn ipi_creator(ipi: &[u8]) -> Creator {
    Creator { roles: roles_set([CreatorRole::Composer]), party: PartyId::Ipi(bv::<11>(ipi)) }
}

fn isni_creator(isni: &[u8]) -> Creator {
    Creator { roles: roles_set([CreatorRole::Author]), party: PartyId::Isni(bv::<16>(isni)) }
}

fn sample_v1() -> MusicalWorkV1 {
    MusicalWorkV1 {
        iswc: bv(b"T1234567890"),
        title: bv(b"My Work Title"),
        creation_year: Some(2024),
        instrumental: false,
        language: Some(Language::En),
        explicit_lyrics: false,
        bpm: Some(120),
        key: Some(MusicalKey { pitch: PitchClass::C, mode: Mode::Major }),
        work_type: WorkType::Original,
        samples: Bounded::new(),
        creators: Bounded::try_new(vec![ipi_creator(b"123456789")]).unwrap(),
        classical_info: None,
        offchain_extension: None,
    }
}

#[test]
fn identifier_returns_iswc() {
    let w = MusicalWork::V1(sample_v1());
    assert_eq!(w.identifier(), &bv::<11>(b"T1234567890"));
}

#[test]
fn validate_pass_with_offchain_extension() {
    let mut v = sample_v1();
    v.offchain_extension = Some(bv(b"bafkreigh2akiscaildc"));
    assert!(MusicalWork::V1(v).validate_format().is_ok());
}

#[test]
fn validate_pass_with_isni_creator() {
    let mut v = sample_v1();
    v.creators = Bounded::try_new(vec![isni_creator(b"0000000121032683")]).unwrap();
    assert!(MusicalWork::V1(v).validate_format().is_ok());
}

#[test]
fn validate_pass_with_classical_info() {
    let mut v = sample_v1();
    v.classical_info = Some(ClassicalInfo {
        opus: Some(bv(b"Op. 27 No. 2")),
        catalog_number: Some(bv(b"K. 545")),
        number_of_voices: Some(4),
    });
    assert!(MusicalWork::V1(v).validate_format().is_ok());
}

#[test]
fn validate_fails_invalid_iswc() {
    let mut v = sample_v1();
    v.iswc = bv(b"X1234567890");
    assert_eq!(
        MusicalWork::V1(v).validate_format(),
        Err(MiddsFormatError::InvalidIdentifierStructure),
    );
}

#[test]
fn mod_validate_fails_empty_title() {
    let mut v = sample_v1();
    v.title = bv(b"");
    assert_eq!(MusicalWork::V1(v).validate_format(), Err(MiddsFormatError::EmptyMandatoryField));
}

#[test]
fn validate_fails_empty_creators() {
    let mut v = sample_v1();
    v.creators = Bounded::new();
    assert_eq!(MusicalWork::V1(v).validate_format(), Err(MiddsFormatError::EmptyMandatoryField));
}

#[test]
fn validate_fails_invalid_creator_ipi() {
    let mut v = sample_v1();
    v.creators = Bounded::try_new(vec![ipi_creator(b"123A56789")]).unwrap();
    assert_eq!(MusicalWork::V1(v).validate_format(), Err(MiddsFormatError::InvalidCharset));
}

#[test]
fn validate_fails_invalid_creator_isni() {
    let mut v = sample_v1();
    v.creators = Bounded::try_new(vec![isni_creator(b"00000001A1032683")]).unwrap();
    assert_eq!(MusicalWork::V1(v).validate_format(), Err(MiddsFormatError::InvalidCharset));
}

#[test]
fn validate_fails_empty_opus() {
    let mut v = sample_v1();
    v.classical_info =
        Some(ClassicalInfo { opus: Some(bv(b"")), catalog_number: None, number_of_voices: None });
    assert_eq!(MusicalWork::V1(v).validate_format(), Err(MiddsFormatError::EmptyMandatoryField));
}

#[test]
fn mod_validate_fails_empty_offchain_extension() {
    let mut v = sample_v1();
    v.offchain_extension = Some(bv(b""));
    assert_eq!(MusicalWork::V1(v).validate_format(), Err(MiddsFormatError::EmptyMandatoryField));
}

#[test]
fn validate_pass_medley_with_refs() {
    let mut v = sample_v1();
    v.work_type = WorkType::Medley(
        Bounded::try_new(vec![bv::<11>(b"T0345246801"), bv::<11>(b"T9876543210")]).unwrap(),
    );
    assert!(MusicalWork::V1(v).validate_format().is_ok());
}

#[test]
fn validate_pass_mashup_with_refs() {
    let mut v = sample_v1();
    v.work_type = WorkType::Mashup(
        Bounded::try_new(vec![bv::<11>(b"T0345246801"), bv::<11>(b"T9876543210")]).unwrap(),
    );
    assert!(MusicalWork::V1(v).validate_format().is_ok());
}

#[test]
fn validate_pass_adaptation_with_ref() {
    let mut v = sample_v1();
    v.work_type = WorkType::Adaptation(bv::<11>(b"T0345246801"));
    assert!(MusicalWork::V1(v).validate_format().is_ok());
}

#[test]
fn validate_fails_medley_fewer_than_two_refs() {
    let mut empty = sample_v1();
    empty.work_type = WorkType::Medley(Bounded::new());
    assert_eq!(MusicalWork::V1(empty).validate_format(), Err(MiddsFormatError::OutOfBounds));

    let mut single = sample_v1();
    single.work_type = WorkType::Medley(Bounded::try_new(vec![bv::<11>(b"T0345246801")]).unwrap());
    assert_eq!(MusicalWork::V1(single).validate_format(), Err(MiddsFormatError::OutOfBounds));
}

#[test]
fn validate_fails_invalid_medley_ref() {
    let mut v = sample_v1();
    v.work_type = WorkType::Medley(
        Bounded::try_new(vec![bv::<11>(b"T0345246801"), bv::<11>(b"X1234567890")]).unwrap(),
    );
    assert_eq!(
        MusicalWork::V1(v).validate_format(),
        Err(MiddsFormatError::InvalidIdentifierStructure),
    );
}

#[test]
fn validate_fails_invalid_adaptation_ref() {
    let mut v = sample_v1();
    v.work_type = WorkType::Adaptation(bv::<11>(b"X1234567890"));
    assert_eq!(
        MusicalWork::V1(v).validate_format(),
        Err(MiddsFormatError::InvalidIdentifierStructure),
    );
}

fn iswc() -> Iswc {
    bv(b"T0000000000")
}

fn iswc_n(n: u8) -> Iswc {
    let mut bytes = b"T0000000000".to_vec();
    bytes[10] = b'0' + n;
    Bounded::try_new(bytes).expect("11-byte ISWC")
}

fn base() -> MusicalWorkV1 {
    MusicalWorkV1 {
        iswc: iswc(),
        title: bv(b"x"),
        creation_year: Some(2000),
        instrumental: false,
        language: None,
        explicit_lyrics: false,
        bpm: None,
        key: None,
        work_type: WorkType::Original,
        samples: Bounded::new(),
        creators: Bounded::try_new(vec![ipi_creator(b"123456789")]).expect("1 creator"),
        classical_info: None,
        offchain_extension: None,
    }
}

fn samples<const N: usize>(refs: [WorkRef; N]) -> SampleReferences {
    SampleReferences::try_new(refs.to_vec()).expect("samples within bound")
}

fn check(w: &MusicalWorkV1) -> Result<(), MiddsFormatError> {
    w.validate_format()
}

#[test]
fn v1_base_is_valid() {
    check(&base()).expect("base payload validates");
}

#[test]
fn creation_year_bounds_when_present() {
    for (year, ok) in [(0u16, false), (1, true), (2000, true), (2999, true), (3000, false)] {
        let mut w = base();
        w.creation_year = Some(year);
        assert_eq!(check(&w).is_ok(), ok, "creation_year {year} expected ok={ok}");
        if !ok {
            assert_eq!(check(&w), Err(MiddsFormatError::OutOfBounds));
        }
    }
}

#[test]
fn v1_creation_year_is_optional() {
    let mut w = base();
    w.creation_year = None;
    check(&w).expect("None creation_year validates");
}

#[test]
fn bpm_bounds() {
    for (bpm, ok) in [(19u16, false), (20, true), (300, true), (301, false)] {
        let mut w = base();
        w.bpm = Some(bpm);
        assert_eq!(check(&w).is_ok(), ok, "bpm {bpm} expected ok={ok}");
    }
    let mut w = base();
    w.bpm = None;
    check(&w).expect("None bpm validates");
}

#[test]
fn number_of_voices_must_be_positive_when_present() {
    let mut w = base();
    w.classical_info =
        Some(ClassicalInfo { opus: None, catalog_number: None, number_of_voices: Some(0) });
    assert_eq!(check(&w), Err(MiddsFormatError::OutOfBounds));
    if let Some(ci) = w.classical_info.as_mut() {
        ci.number_of_voices = Some(1);
    }
    check(&w).expect("1 voice validates");
    if let Some(ci) = w.classical_info.as_mut() {
        ci.number_of_voices = None;
    }
    check(&w).expect("absent voice count validates");
}

#[test]
fn medley_and_mashup_need_at_least_two_refs() {
    let distinct = [iswc_n(1), iswc_n(2)];
    let refs =
        |n: usize| WorkReferences::try_new(distinct[..n].to_vec()).expect("refs within bound");
    for make in [WorkType::Medley as fn(WorkReferences) -> WorkType, WorkType::Mashup] {
        let mut w = base();
        w.work_type = make(refs(0));
        assert_eq!(check(&w), Err(MiddsFormatError::OutOfBounds));
        w.work_type = make(refs(1));
        assert_eq!(check(&w), Err(MiddsFormatError::OutOfBounds));
        w.work_type = make(refs(2));
        check(&w).expect(">= 2 distinct non-self refs validates");
    }
}

#[test]
fn medley_and_mashup_reject_duplicate_refs() {
    for make in [WorkType::Medley as fn(WorkReferences) -> WorkType, WorkType::Mashup] {
        let mut w = base();
        w.work_type =
            make(WorkReferences::try_new(vec![iswc_n(1), iswc_n(1)]).expect("refs within bound"));
        assert_eq!(check(&w), Err(MiddsFormatError::CrossFieldInconsistency));
    }
}

#[test]
fn medley_and_mashup_reject_self_reference() {
    for make in [WorkType::Medley as fn(WorkReferences) -> WorkType, WorkType::Mashup] {
        let mut w = base();
        let self_iswc = w.iswc.clone();
        w.work_type =
            make(WorkReferences::try_new(vec![iswc_n(1), self_iswc]).expect("refs within bound"));
        assert_eq!(check(&w), Err(MiddsFormatError::CrossFieldInconsistency));
    }
}

#[test]
fn adaptation_rejects_self_reference() {
    let mut w = base();
    w.work_type = WorkType::Adaptation(w.iswc.clone());
    assert_eq!(check(&w), Err(MiddsFormatError::CrossFieldInconsistency));
    w.work_type = WorkType::Adaptation(iswc_n(1));
    check(&w).expect("adaptation on a distinct source validates");
}

#[test]
fn rearrangement_rejects_self_reference() {
    let mut w = base();
    w.work_type = WorkType::Rearrangement(w.iswc.clone());
    assert_eq!(check(&w), Err(MiddsFormatError::CrossFieldInconsistency));
    w.work_type = WorkType::Rearrangement(iswc_n(1));
    check(&w).expect("rearrangement on a distinct source validates");
}

#[test]
fn samples_accepts_distinct_mixed_refs() {
    let mut w = base();
    w.samples = samples([WorkRef::Midds(7), WorkRef::Iswc(iswc_n(1))]);
    check(&w).expect("distinct MIDDS + ISWC samples validate");
}

#[test]
fn samples_reject_invalid_iswc() {
    let mut w = base();
    let bad = bv::<11>(b"X0000000000");
    w.samples = samples([WorkRef::Iswc(bad)]);
    assert_eq!(check(&w), Err(MiddsFormatError::InvalidIdentifierStructure));
}

#[test]
fn samples_reject_duplicate() {
    let mut w = base();
    w.samples = samples([WorkRef::Iswc(iswc_n(1)), WorkRef::Iswc(iswc_n(1))]);
    assert_eq!(check(&w), Err(MiddsFormatError::CrossFieldInconsistency));
    w.samples = samples([WorkRef::Midds(3), WorkRef::Midds(3)]);
    assert_eq!(check(&w), Err(MiddsFormatError::CrossFieldInconsistency));
}

#[test]
fn samples_reject_self_iswc() {
    let mut w = base();
    w.samples = samples([WorkRef::Iswc(w.iswc.clone())]);
    assert_eq!(check(&w), Err(MiddsFormatError::CrossFieldInconsistency));
}

#[test]
fn empty_samples_validate() {
    let mut w = base();
    w.samples = Bounded::new();
    check(&w).expect("a work that samples nothing validates");
}

#[test]
fn creator_without_roles_is_rejected() {
    let mut w = base();
    w.creators = Bounded::try_new(vec![Creator {
        roles: CreatorRoles::new(),
        party: PartyId::Ipi(bv(b"123456789")),
    }])
    .unwrap();
    assert_eq!(check(&w), Err(MiddsFormatError::EmptyMandatoryField));
}

#[test]
fn creator_roles_reject_repeats() {
    let mut roles = CreatorRoles::new();
    assert_eq!(roles.try_insert(CreatorRole::Author), Ok(true));
    assert_eq!(roles.try_insert(CreatorRole::Author), Ok(false));
    assert!(roles.contains(CreatorRole::Author));
    assert!(!roles.contains(CreatorRole::Publisher));
}
