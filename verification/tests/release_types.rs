use midds::bounded::{Bounded, MiddsString};
use midds::country::Country;
use midds::format_error::MiddsFormatError;
use midds::midds::Midds;
use midds::release::{
    Producer, Release, ReleaseDate, ReleaseFormat, ReleasePackaging, ReleaseStatus, ReleaseType,
    ReleaseV1, Track,
};
use midds::shared::{PartyId, RecordingRef};

fn bv<const N: u32>(s: &[u8]) -> MiddsString<N> {
    Bounded::try_new(s.to_vec()).expect("bounded vec build")
}

fn track(number: u16, recording: RecordingRef) -> Track {
    Track { number, recording }
}

fn isrc(s: &[u8]) -> RecordingRef {
    RecordingRef::Isrc(bv(s))
}

fn sample_v1() -> ReleaseV1 {
    ReleaseV1 {
        upc: bv(b"4006381333931"),
        title: bv(b"My Release Title"),
        title_aliases: Bounded::new(),
        artist: PartyId::Ipi(bv::<11>(b"123456789")),
        featuring: Bounded::new(),
        tracks: Bounded::try_new(vec![track(1, isrc(b"FRABC2412345"))]).expect("one track"),
        producers: Bounded::new(),
        status: ReleaseStatus::Official,
        release_date: ReleaseDate { year: 2024, month: 3, day: 15 },
        country: Country::Fr,
        distributor_name: bv(b"Believe"),
        release_type: ReleaseType::Album,
        format: ReleaseFormat::Cd,
        packaging: ReleasePackaging::JewelCase,
        cover_contributors: Bounded::new(),
        offchain_extension: None,
    }
}

#[test]
fn identifier_returns_upc() {
    let r = Release::V1(sample_v1());
    assert_eq!(r.identifier(), &bv::<13>(b"4006381333931"));
}

#[test]
fn kind_is_release() {
    assert_eq!(<Release as Midds>::KIND, "Release");
}

#[test]
fn release_mod_validate_pass_minimal() {
    assert!(Release::V1(sample_v1()).validate_format().is_ok());
}

#[test]
fn release_mod_validate_pass_full() {
    let mut v = sample_v1();
    v.upc = bv(b"036000291452");
    v.title_aliases = Bounded::try_new(vec![bv(b"Alt Title"), bv(b"Titre FR")]).unwrap();
    v.artist = PartyId::Isni(bv::<16>(b"0000000121032683"));
    v.tracks = Bounded::try_new(vec![
        track(1, isrc(b"FRABC2412345")),
        track(2, RecordingRef::Midds(42)),
    ])
    .unwrap();
    v.producers = Bounded::try_new(vec![Producer {
        isni: bv::<16>(b"000000012103268X"),
        catalog_number: bv(b"88985456971"),
    }])
    .unwrap();
    v.status = ReleaseStatus::Promotional;
    v.country = Country::Us;
    v.release_type = ReleaseType::Compilation;
    v.format = ReleaseFormat::Vinyl;
    v.packaging = ReleasePackaging::Gatefold;
    v.cover_contributors =
        Bounded::try_new(vec![bv(b"Jane Photographer"), bv(b"John Designer")]).unwrap();
    v.offchain_extension = Some(bv(b"bafkreigh2akiscaildc"));
    assert!(Release::V1(v).validate_format().is_ok());
}

#[test]
fn validate_fails_invalid_upc() {
    let mut v = sample_v1();
    v.upc = bv(b"40063813339X1");
    assert_eq!(Release::V1(v).validate_format(), Err(MiddsFormatError::InvalidCharset));
}

#[test]
fn validate_fails_upc_wrong_length() {
    let mut v = sample_v1();
    v.upc = bv(b"40063813");
    assert_eq!(Release::V1(v).validate_format(), Err(MiddsFormatError::OutOfBounds));
}

#[test]
fn release_mod_validate_fails_empty_title() {
    let mut v = sample_v1();
    v.title = bv(b"");
    assert_eq!(Release::V1(v).validate_format(), Err(MiddsFormatError::EmptyMandatoryField));
}

#[test]
fn release_mod_validate_fails_empty_title_alias() {
    let mut v = sample_v1();
    v.title_aliases = Bounded::try_new(vec![bv(b"")]).unwrap();
    assert_eq!(Release::V1(v).validate_format(), Err(MiddsFormatError::EmptyMandatoryField));
}

#[test]
fn release_mod_validate_fails_invalid_artist_ipi() {
    let mut v = sample_v1();
    v.artist = PartyId::Ipi(bv::<11>(b"12345A789"));
    assert_eq!(Release::V1(v).validate_format(), Err(MiddsFormatError::InvalidCharset));
}

#[test]
fn validate_fails_empty_tracklist() {
    let mut v = sample_v1();
    v.tracks = Bounded::new();
    assert_eq!(Release::V1(v).validate_format(), Err(MiddsFormatError::EmptyMandatoryField));
}

#[test]
fn validate_fails_invalid_track_isrc() {
    let mut v = sample_v1();
    v.tracks = Bounded::try_new(vec![track(1, isrc(b"frABC2412345"))]).unwrap();
    assert_eq!(Release::V1(v).validate_format(), Err(MiddsFormatError::InvalidCharset));
}

#[test]
fn validate_pass_track_midds_ref() {
    let mut v = sample_v1();
    v.tracks = Bounded::try_new(vec![track(1, RecordingRef::Midds(7))]).unwrap();
    assert!(Release::V1(v).validate_format().is_ok());
}

#[test]
fn release_mod_validate_fails_invalid_producer_isni() {
    let mut v = sample_v1();
    v.producers = Bounded::try_new(vec![Producer {
        isni: bv::<16>(b"00000001A1032683"),
        catalog_number: bv(b"CAT-1"),
    }])
    .unwrap();
    assert_eq!(Release::V1(v).validate_format(), Err(MiddsFormatError::InvalidCharset));
}

#[test]
fn validate_fails_empty_producer_catalog_number() {
    let mut v = sample_v1();
    v.producers = Bounded::try_new(vec![Producer {
        isni: bv::<16>(b"0000000121032683"),
        catalog_number: bv(b""),
    }])
    .unwrap();
    assert_eq!(Release::V1(v).validate_format(), Err(MiddsFormatError::EmptyMandatoryField));
}

#[test]
fn validate_fails_bad_release_date() {
    let mut v = sample_v1();
    v.release_date = ReleaseDate { year: 2024, month: 13, day: 1 };
    assert_eq!(Release::V1(v).validate_format(), Err(MiddsFormatError::OutOfBounds));
}

#[test]
fn validate_fails_empty_distributor() {
    let mut v = sample_v1();
    v.distributor_name = bv(b"");
    assert_eq!(Release::V1(v).validate_format(), Err(MiddsFormatError::EmptyMandatoryField));
}

#[test]
fn validate_fails_empty_cover_contributor() {
    let mut v = sample_v1();
    v.cover_contributors = Bounded::try_new(vec![bv(b"")]).unwrap();
    assert_eq!(Release::V1(v).validate_format(), Err(MiddsFormatError::EmptyMandatoryField));
}

#[test]
fn release_mod_validate_fails_empty_offchain_extension() {
    let mut v = sample_v1();
    v.offchain_extension = Some(bv(b""));
    assert_eq!(Release::V1(v).validate_format(), Err(MiddsFormatError::EmptyMandatoryField));
}

fn base() -> ReleaseV1 {
    ReleaseV1 {
        upc: bv(b"000000000000"),
        title: bv(b"x"),
        title_aliases: Bounded::new(),
        artist: PartyId::Ipi(bv(b"123456789")),
        featuring: Bounded::new(),
        tracks: Bounded::try_new(vec![track(1, RecordingRef::Midds(1))]).expect("1 track"),
        producers: Bounded::new(),
        status: ReleaseStatus::Official,
        release_date: ReleaseDate { year: 2000, month: 1, day: 1 },
        country: Country::Us,
        distributor_name: bv(b"x"),
        release_type: ReleaseType::Album,
        format: ReleaseFormat::Cd,
        packaging: ReleasePackaging::NoPackaging,
        cover_contributors: Bounded::new(),
        offchain_extension: None,
    }
}

#[test]
fn release_v1_base_is_valid() {
    base().validate_format().expect("base payload validates");
}

#[test]
fn distinct_tracks_validate() {
    let mut r = base();
    r.tracks = Bounded::try_new(vec![
        track(1, RecordingRef::Midds(1)),
        track(2, RecordingRef::Midds(2)),
        track(3, isrc(b"USRC17607839")),
        track(4, isrc(b"GBAYE0601477")),
    ])
    .expect("4 distinct tracks");
    r.validate_format().expect("distinct tracklist validates");
}

#[test]
fn out_of_order_but_contiguous_numbers_validate() {
    let mut r = base();
    r.tracks = Bounded::try_new(vec![
        track(3, isrc(b"USRC17607839")),
        track(2, RecordingRef::Midds(2)),
        track(1, RecordingRef::Midds(1)),
    ])
    .expect("3 tracks");
    r.validate_format().expect("out-of-order but contiguous numbering validates");
}

#[test]
fn gapped_track_numbers_rejected() {
    let mut r = base();
    r.tracks = Bounded::try_new(vec![
        track(1, RecordingRef::Midds(1)),
        track(5, RecordingRef::Midds(2)),
        track(42, isrc(b"USRC17607839")),
    ])
    .expect("3 tracks");
    assert_eq!(r.validate_format(), Err(MiddsFormatError::CrossFieldInconsistency));
}

#[test]
fn numbering_not_starting_at_one_rejected() {
    let mut r = base();
    r.tracks = Bounded::try_new(vec![track(2, RecordingRef::Midds(1))]).expect("1 track");
    assert_eq!(r.validate_format(), Err(MiddsFormatError::CrossFieldInconsistency));
}

#[test]
fn zero_track_number_rejected() {
    let mut r = base();
    r.tracks = Bounded::try_new(vec![track(0, RecordingRef::Midds(1))]).expect("1 track");
    assert_eq!(r.validate_format(), Err(MiddsFormatError::OutOfBounds));
}

#[test]
fn duplicate_track_number_rejected() {
    let mut r = base();
    r.tracks = Bounded::try_new(vec![
        track(7, RecordingRef::Midds(1)),
        track(7, RecordingRef::Midds(2)),
    ])
    .expect("2 tracks");
    assert_eq!(r.validate_format(), Err(MiddsFormatError::CrossFieldInconsistency));
}

#[test]
fn duplicate_midds_track_rejected() {
    let mut r = base();
    r.tracks = Bounded::try_new(vec![
        track(1, RecordingRef::Midds(7)),
        track(2, RecordingRef::Midds(7)),
    ])
    .expect("2 tracks");
    assert_eq!(r.validate_format(), Err(MiddsFormatError::CrossFieldInconsistency));
}

#[test]
fn duplicate_isrc_track_rejected() {
    let mut r = base();
    r.tracks = Bounded::try_new(vec![
        track(1, RecordingRef::Midds(1)),
        track(2, isrc(b"USRC17607839")),
        track(3, isrc(b"USRC17607839")),
    ])
    .expect("3 tracks");
    assert_eq!(r.validate_format(), Err(MiddsFormatError::CrossFieldInconsistency));
}

#[test]
fn release_v1_featuring_validates_each_party() {
    let mut r = base();
    r.featuring = Bounded::try_new(vec![PartyId::Isni(bv(b"0000000121032683"))])
        .expect("one featured artist");
    r.validate_format().expect("valid featured artist validates");

    r.featuring =
        Bounded::try_new(vec![PartyId::Ipi(bv(b"12345A789"))]).expect("one featured artist");
    assert_eq!(r.validate_format(), Err(MiddsFormatError::InvalidCharset));
}
