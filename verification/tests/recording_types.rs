use midds::bounded::{Bounded, MiddsString};
use midds::format_error::MiddsFormatError;
use midds::midds::Midds;
use midds::recording::{
    Genre, Instrument, Performer, ProductionPlaces, Recording, RecordingV1, RecordingVersion,
};
use midds::shared::{Mode, MusicalKey, PartyId, PerformerId, PitchClass, WorkRef};

fn bv<const N: u32>(s: &[u8]) -> MiddsString<N> {
    Bounded::try_new(s.to_vec()).expect("bounded vec build")
}

fn sample_v1() -> RecordingV1 {
    RecordingV1 {
        isrc: bv(b"FRABC2412345"),
        title: bv(b"My Recording Title"),
        title_aliases: Bounded::new(),
        artist: PartyId::Ipi(bv::<11>(b"123456789")),
        featuring: Bounded::new(),
        work: WorkRef::Iswc(bv::<11>(b"T1234567890")),
        genre: None,
        sub_genre: None,
        record_year: Some(2024),
        version_type: Some(RecordingVersion::Original),
        performers: Bounded::new(),
        producers: Bounded::new(),
        duration: Some(213),
        bpm: Some(120),
        key: Some(MusicalKey { pitch: PitchClass::C, mode: Mode::Major }),
        places: None,
        contributors: Bounded::new(),
        offchain_extension: None,
    }
}

#[test]
fn identifier_returns_isrc() {
    let r = Recording::V1(sample_v1());
    assert_eq!(r.identifier(), &bv::<12>(b"FRABC2412345"));
}

#[test]
fn kind_is_recording() {
    assert_eq!(<Recording as Midds>::KIND, "Recording");
}

#[test]
fn mod_validate_pass_minimal() {
    assert!(Recording::V1(sample_v1()).validate_format().is_ok());
}

#[test]
fn mod_validate_pass_full() {
    let mut v = sample_v1();
    v.title_aliases = Bounded::try_new(vec![bv(b"Alt Title"), bv(b"Titre FR")]).unwrap();
    v.artist = PartyId::Isni(bv::<16>(b"0000000121032683"));
    v.work = WorkRef::Midds(42);
    v.genre = Some(Genre::Pop);
    v.sub_genre = Some(Genre::Electronic);
    v.version_type = Some(RecordingVersion::RadioEdit);
    v.performers = Bounded::try_new(vec![Performer {
        id: PerformerId::Ipn(bv::<8>(b"12345678")),
        instruments: Bounded::new(),
    }])
    .unwrap();
    v.producers = Bounded::try_new(vec![bv::<16>(b"000000012103268X")]).unwrap();
    v.contributors = Bounded::try_new(vec![PartyId::Isni(bv::<16>(b"0000000121032683"))]).unwrap();
    v.places = Some(ProductionPlaces {
        recording: Some(bv(b"Abbey Road Studios")),
        mixing: Some(bv(b"Studio B")),
        mastering: Some(bv(b"Sterling Sound")),
    });
    v.offchain_extension = Some(bv(b"bafkreigh2akiscaildc"));
    assert!(Recording::V1(v).validate_format().is_ok());
}

#[test]
fn validate_fails_invalid_isrc() {
    let mut v = sample_v1();
    v.isrc = bv(b"frABC2412345");
    assert_eq!(Recording::V1(v).validate_format(), Err(MiddsFormatError::InvalidCharset));
}

#[test]
fn validate_fails_isrc_wrong_length() {
    let mut v = sample_v1();
    v.isrc = bv(b"FRABC241234");
    assert_eq!(Recording::V1(v).validate_format(), Err(MiddsFormatError::OutOfBounds));
}

#[test]
fn recording_mod_validate_fails_empty_title() {
    let mut v = sample_v1();
    v.title = bv(b"");
    assert_eq!(Recording::V1(v).validate_format(), Err(MiddsFormatError::EmptyMandatoryField));
}

#[test]
fn mod_validate_fails_empty_title_alias() {
    let mut v = sample_v1();
    v.title_aliases = Bounded::try_new(vec![bv(b"")]).unwrap();
    assert_eq!(Recording::V1(v).validate_format(), Err(MiddsFormatError::EmptyMandatoryField));
}

#[test]
fn mod_validate_fails_invalid_artist_ipi() {
    let mut v = sample_v1();
    v.artist = PartyId::Ipi(bv::<11>(b"12345A789"));
    assert_eq!(Recording::V1(v).validate_format(), Err(MiddsFormatError::InvalidCharset));
}

#[test]
fn validate_fails_invalid_work_iswc() {
    let mut v = sample_v1();
    v.work = WorkRef::Iswc(bv::<11>(b"X1234567890"));
    assert_eq!(
        Recording::V1(v).validate_format(),
        Err(MiddsFormatError::InvalidIdentifierStructure),
    );
}

#[test]
fn validate_pass_work_midds_ref() {
    let mut v = sample_v1();
    v.work = WorkRef::Midds(7);
    assert!(Recording::V1(v).validate_format().is_ok());
}

#[test]
fn mod_validate_fails_invalid_producer_isni() {
    let mut v = sample_v1();
    v.producers = Bounded::try_new(vec![bv::<16>(b"00000001A1032683")]).unwrap();
    assert_eq!(Recording::V1(v).validate_format(), Err(MiddsFormatError::InvalidCharset));
}

#[test]
fn validate_fails_invalid_contributor() {
    let mut v = sample_v1();
    v.contributors = Bounded::try_new(vec![PartyId::Isni(bv::<16>(b"00000001A1032683"))]).unwrap();
    assert_eq!(Recording::V1(v).validate_format(), Err(MiddsFormatError::InvalidCharset));
}

#[test]
fn validate_fails_empty_place() {
    let mut v = sample_v1();
    v.places = Some(ProductionPlaces { recording: Some(bv(b"")), mixing: None, mastering: None });
    assert_eq!(Recording::V1(v).validate_format(), Err(MiddsFormatError::EmptyMandatoryField));
}

#[test]
fn recording_mod_validate_fails_empty_offchain_extension() {
    let mut v = sample_v1();
    v.offchain_extension = Some(bv(b""));
    assert_eq!(Recording::V1(v).validate_format(), Err(MiddsFormatError::EmptyMandatoryField));
}

fn base() -> RecordingV1 {
    RecordingV1 {
        isrc: bv(b"USRC17607839"),
        title: bv(b"x"),
        title_aliases: Bounded::new(),
        artist: PartyId::Ipi(bv(b"123456789")),
        featuring: Bounded::new(),
        work: WorkRef::Midds(0),
        genre: None,
        sub_genre: None,
        record_year: None,
        version_type: None,
        performers: Bounded::new(),
        producers: Bounded::new(),
        duration: None,
        bpm: None,
        key: None,
        places: None,
        contributors: Bounded::new(),
        offchain_extension: None,
    }
}

#[test]
fn recording_v1_base_is_valid() {
    base().validate_format().expect("base payload validates");
}

#[test]
fn record_year_bounds_when_present() {
    let mut r = base();
    r.record_year = None;
    r.validate_format().expect("absent record_year validates");
    for (year, ok) in [(0u16, false), (1, true), (2999, true), (3000, false)] {
        let mut r = base();
        r.record_year = Some(year);
        assert_eq!(r.validate_format().is_ok(), ok, "record_year {year} expected ok={ok}");
        if !ok {
            assert_eq!(r.validate_format(), Err(MiddsFormatError::OutOfBounds));
        }
    }
}

#[test]
fn bpm_bounds_when_present() {
    for (bpm, ok) in [(19u16, false), (20, true), (300, true), (301, false)] {
        let mut r = base();
        r.bpm = Some(bpm);
        assert_eq!(r.validate_format().is_ok(), ok, "bpm {bpm} expected ok={ok}");
    }
    let mut r = base();
    r.bpm = None;
    r.validate_format().expect("None bpm validates");
}

#[test]
fn genre_and_sub_genre_consistency() {
    base().validate_format().expect("no genre, no sub-genre");

    let mut r = base();
    r.genre = Some(Genre::Jazz);
    r.validate_format().expect("primary genre alone validates");

    let mut r = base();
    r.genre = Some(Genre::Jazz);
    r.sub_genre = Some(Genre::Blues);
    r.validate_format().expect("genre + sub-genre validates");

    let mut r = base();
    r.genre = None;
    r.sub_genre = Some(Genre::Blues);
    assert_eq!(
        r.validate_format(),
        Err(MiddsFormatError::CrossFieldInconsistency),
        "a lone sub-genre is rejected"
    );
}

#[test]
fn v1_featuring_validates_each_party() {
    let mut r = base();
    r.featuring = Bounded::try_new(vec![PartyId::Isni(bv(b"0000000121032683"))])
        .expect("one featured artist");
    r.validate_format().expect("valid featured artist validates");

    r.featuring =
        Bounded::try_new(vec![PartyId::Ipi(bv(b"12345A789"))]).expect("one featured artist");
    assert_eq!(
        r.validate_format(),
        Err(MiddsFormatError::InvalidCharset),
        "non-digit IPI in a featured artist is rejected"
    );
}

#[test]
fn performer_instruments_validate() {
    let mut r = base();
    r.performers = Bounded::try_new(vec![Performer {
        id: PerformerId::Ipn(bv(b"12345678")),
        instruments: Bounded::try_new(vec![Instrument::ElectricGuitar, Instrument::LeadVocals])
            .expect("two instruments"),
    }])
    .expect("one performer");
    r.validate_format().expect("performer with instruments validates");

    r.performers = Bounded::try_new(vec![Performer {
        id: PerformerId::Isni(bv(b"00000001A1032683")),
        instruments: Bounded::new(),
    }])
    .expect("one performer");
    assert_eq!(
        r.validate_format(),
        Err(MiddsFormatError::InvalidCharset),
        "malformed performer ISNI is rejected even with no instruments"
    );
}
