use midds::country::Country;
use midds::fixtures::identifiers::ipi_from_stem;
use midds::fixtures::{MusicalWorkBuilder, RecordingBuilder, ReleaseBuilder};
use midds::midds::Midds;
use midds::musical_work::{Creator, CreatorRole, CreatorRoles, MusicalWork};
use midds::recording::{Genre, Recording, RecordingVersion};
use midds::release::{
    CatalogNumber, Producer, Release, ReleaseFormat, ReleasePackaging, ReleaseStatus,
    ReleaseType,
};
use midds::shared::{Mode, MusicalKey, PartyId, PitchClass, RecordingRef, WorkRef};
use midds::{Isni, Isrc};

fn isni(s: &[u8]) -> Isni {
    Isni::try_new(s.to_vec()).expect("16-byte ISNI")
}

#[test]
fn builder_default_builder_validates() {
    let work = MusicalWorkBuilder::new().build();
    work.validate_format().expect("default payload validates on-chain");
}

#[test]
fn builder_override_each_field() {
    let work = MusicalWorkBuilder::new()
        .title(b"My Work")
        .creation_year(1972)
        .instrumental(true)
        .bpm(120)
        .key(MusicalKey { pitch: PitchClass::A, mode: Mode::Minor })
        .offchain_extension(b"bafkreigh2akiscaildc")
        .build();
    let MusicalWork::V1(v) = work;
    assert_eq!(v.title.as_slice(), b"My Work");
    assert_eq!(v.creation_year, Some(1972));
    assert!(v.instrumental);
    assert_eq!(v.bpm, Some(120));
    assert!(v.offchain_extension.is_some());
}

#[test]
fn add_creator_appends() {
    let mut roles = CreatorRoles::new();
    roles.try_insert(CreatorRole::Author).expect("room for a role");
    let extra = Creator { roles, party: PartyId::Ipi(ipi_from_stem(987_654_321, 10)) };
    let work = MusicalWorkBuilder::new().add_creator(extra).build();
    let MusicalWork::V1(v) = work;
    assert_eq!(v.creators.len(), 2);
}

#[test]
fn recording_builder_default_builder_validates() {
    let recording = RecordingBuilder::new().build();
    recording.validate_format().expect("default payload validates on-chain");
}

#[test]
fn recording_builder_override_each_field() {
    let recording = RecordingBuilder::new()
        .title(b"My Recording")
        .add_title_alias(b"Alt Title")
        .artist(PartyId::Isni(isni(b"0000000121032683")))
        .work(WorkRef::Midds(42))
        .genres_unchecked(vec![Genre::Pop, Genre::Jazz])
        .record_year(1999)
        .version_type(RecordingVersion::Live)
        .duration(241)
        .bpm(128)
        .key(MusicalKey { pitch: PitchClass::A, mode: Mode::Minor })
        .places(Some(b"Abbey Road"), None, Some(b"Sterling Sound"))
        .offchain_extension(b"bafkreigh2akiscaildc")
        .build();
    let Recording::V1(v) = recording;
    assert_eq!(v.title.as_slice(), b"My Recording");
    assert_eq!(v.title_aliases.len(), 1);
    assert_eq!(v.work, WorkRef::Midds(42));
    assert_eq!(v.genre, Some(Genre::Pop));
    assert_eq!(v.sub_genre, Some(Genre::Jazz));
    assert_eq!(v.record_year, Some(1999));
    assert_eq!(v.duration, Some(241));
    assert!(v.places.is_some());
}

#[test]
fn release_builder_default_builder_validates() {
    let release = ReleaseBuilder::new().build();
    release.validate_format().expect("default payload validates on-chain");
}

#[test]
fn release_builder_override_each_field() {
    let release = ReleaseBuilder::new()
        .title(b"Transformer")
        .add_title_alias(b"Transformeur")
        .artist(PartyId::Isni(isni(b"0000000121032683")))
        .tracks_unchecked(vec![
            RecordingRef::Isrc(Isrc::try_new(b"USRC17200312".to_vec()).expect("12-byte ISRC")),
            RecordingRef::Midds(7),
        ])
        .producers_unchecked(vec![Producer {
            isni: isni(b"000000012103268X"),
            catalog_number: CatalogNumber::try_new(b"RCA LSP-4807".to_vec())
                .expect("catalog number"),
        }])
        .status(ReleaseStatus::Promotional)
        .release_date(1972, 11, 8)
        .country(Country::Us)
        .distributor_name(b"RCA Records")
        .release_type(ReleaseType::Album)
        .format(ReleaseFormat::Vinyl)
        .packaging(ReleasePackaging::Gatefold)
        .add_cover_contributor(b"Mick Rock")
        .offchain_extension(b"bafkreigh2akiscaildc")
        .build();
    release.validate_format().expect("validates");
    let Release::V1(v) = release;
    assert_eq!(v.title.as_slice(), b"Transformer");
    assert_eq!(v.title_aliases.len(), 1);
    assert_eq!(v.tracks.len(), 2);
    assert_eq!(v.producers.len(), 1);
    assert_eq!(v.cover_contributors.len(), 1);
    assert!(v.offchain_extension.is_some());
}

#[test]
fn release_tracks_are_numbered_in_order() {
    let release = ReleaseBuilder::new()
        .tracks_unchecked(vec![RecordingRef::Midds(3), RecordingRef::Midds(1), RecordingRef::Midds(2)])
        .build();
    let Release::V1(v) = release;
    let numbers: Vec<u16> = v.tracks.as_slice().iter().map(|t| t.number).collect();
    assert_eq!(numbers, vec![1, 2, 3]);
    assert_eq!(v.tracks.as_slice()[0].recording, RecordingRef::Midds(3));
}

#[test]
fn release_builder_appends_tracks_and_featuring() {
    let release = ReleaseBuilder::new()
        .tracks_unchecked(vec![RecordingRef::Midds(10)])
        .add_track(RecordingRef::Midds(11))
        .featuring_unchecked(vec![PartyId::Isni(isni(b"0000000121032683"))])
        .build();
    release.validate_format().expect("validates");
    let Release::V1(v) = release;
    assert_eq!(v.tracks.len(), 2);
    assert_eq!(v.tracks.as_slice()[1].number, 2);
    assert_eq!(v.featuring.len(), 1);
}
