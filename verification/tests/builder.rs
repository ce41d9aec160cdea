use midds::builder::musical_work::MusicalWorkBuilder;
use midds::builder::recording::RecordingBuilder;
use midds::builder::release::ReleaseBuilder;
use midds::country::Country;
use midds::error::BuildError;
use midds::midds::Midds;
use midds::musical_work::{CreatorRole, MusicalWork};
use midds::parse::parse_iswc;
use midds::recording::{Genre, Recording, RecordingVersion};
use midds::release::{Release, ReleaseFormat, ReleasePackaging, ReleaseStatus, ReleaseType};
use midds::shared::{PartyId, RecordingRef, WorkRef};
use midds::Iswc;

#[test]
fn builder_happy_path_parses_real_world_inputs() {
    let work = MusicalWorkBuilder::new()
        .iswc("T-034.524.680-2")
        .title("  My Work  ")
        .creation_year(1972)
        .instrumental(false)
        .add_creator_with_role(CreatorRole::Composer, "I-123456789")
        .add_creator_isni(CreatorRole::Author, "0000 0001 2103 2683")
        .build()
        .expect("happy path builds");
    let MusicalWork::V1(v) = work;
    assert_eq!(v.iswc.as_slice(), b"T0345246802");
    assert_eq!(v.title.as_slice(), b"My Work");
    assert_eq!(v.creation_year, Some(1972));
    assert_eq!(v.creators.len(), 2);
}

#[test]
fn builder_creation_year_is_optional() {
    let work = MusicalWorkBuilder::new()
        .iswc("T0345246802")
        .title("My Work")
        .add_creator("123456789")
        .build()
        .expect("creation_year omitted builds");
    let MusicalWork::V1(v) = work;
    assert_eq!(v.creation_year, None);
}

#[test]
fn missing_iswc_fails_with_missing_field() {
    let res = MusicalWorkBuilder::new()
        .title("X")
        .creation_year(2024)
        .add_creator("123456789")
        .build();
    assert!(matches!(res, Err(BuildError::Missing("iswc"))));
}

#[test]
fn missing_creators_fails_with_missing_field() {
    let res = MusicalWorkBuilder::new()
        .iswc("T0345246802")
        .title("X")
        .creation_year(2024)
        .build();
    assert!(matches!(res, Err(BuildError::Missing("creators"))));
}

#[test]
fn builder_aggregates_all_field_errors() {
    let res = MusicalWorkBuilder::new()
        .iswc("not-an-iswc")
        .title("   ")
        .creation_year(2024)
        .add_creator("not-an-ipi")
        .build();
    let errors = match res {
        Err(BuildError::Fields(v)) => v,
        other => panic!("expected Fields(_), got {other:?}"),
    };
    let fields: Vec<&str> = errors.iter().map(|e| e.field).collect();
    assert!(fields.contains(&"iswc"));
    assert!(fields.contains(&"title"));
    assert!(fields.iter().any(|f| f.starts_with("creators")));
    assert_eq!(errors.len(), 3);
}

#[test]
fn invalid_offchain_extension_surfaces_error() {
    let oversized: String = "h".repeat(128);
    let res = MusicalWorkBuilder::new()
        .iswc("T0345246802")
        .title("X")
        .creation_year(2024)
        .add_creator("123456789")
        .offchain_extension(&oversized)
        .build();
    let errors = match res {
        Err(BuildError::Fields(v)) => v,
        other => panic!("expected Fields(_), got {other:?}"),
    };
    assert_eq!(errors[0].field, "offchain_extension");
}

#[test]
fn samples_and_explicit_lyrics_build_and_validate() {
    let work = MusicalWorkBuilder::new()
        .iswc("T0345246802")
        .title("Sampling Work")
        .explicit_lyrics(true)
        .add_sample_iswc("T-098.765.432-1")
        .add_sample_midds(7)
        .add_creator("123456789")
        .build()
        .expect("builds");
    work.validate_format().expect("builder output validates on-chain");
    let MusicalWork::V1(v) = work;
    assert!(v.explicit_lyrics);
    assert_eq!(v.samples.len(), 2);
    assert_eq!(
        v.samples.as_slice()[0],
        WorkRef::Iswc(parse_iswc("T0987654321").expect("canonical ISWC"))
    );
    assert_eq!(v.samples.as_slice()[1], WorkRef::Midds(7));
}

#[test]
fn bad_sample_iswc_surfaces_error() {
    let res = MusicalWorkBuilder::new()
        .iswc("T0345246802")
        .title("X")
        .add_creator("123456789")
        .add_sample_iswc("not-an-iswc")
        .build();
    let errors = match res {
        Err(BuildError::Fields(v)) => v,
        other => panic!("expected Fields(_), got {other:?}"),
    };
    assert!(errors.iter().any(|e| e.field == "samples"));
}

fn parse_isrc_iswc() -> Iswc {
    Iswc::try_new(b"T0345246802".to_vec()).unwrap()
}

#[test]
fn recording_builder_happy_path_parses_real_world_inputs() {
    let recording = RecordingBuilder::new()
        .isrc("US-RC1-76-07839")
        .title("  My Recording  ")
        .add_title_alias(" Alt Title ")
        .artist_isni("0000 0001 2103 2683")
        .work_iswc("T-034.524.680-2")
        .genres(vec![Genre::Pop, Genre::Jazz])
        .record_year(1999)
        .version_type(RecordingVersion::Live)
        .add_performer_ipi("I-123456789")
        .add_producer("0000 0001 2103 2683")
        .duration(241)
        .build()
        .expect("happy path builds");
    let Recording::V1(v) = recording;
    assert_eq!(v.isrc.as_slice(), b"USRC17607839");
    assert_eq!(v.title.as_slice(), b"My Recording");
    assert_eq!(v.title_aliases.len(), 1);
    assert_eq!(v.title_aliases.as_slice()[0].as_slice(), b"Alt Title");
    assert_eq!(v.work, WorkRef::Iswc(parse_isrc_iswc()));
    assert_eq!(v.performers.len(), 1);
    assert_eq!(v.producers.len(), 1);
    assert_eq!(v.genre, Some(Genre::Pop));
    assert_eq!(v.sub_genre, Some(Genre::Jazz));
}

#[test]
fn work_by_midds_id_needs_no_parsing() {
    let recording = RecordingBuilder::new()
        .isrc("USRC17607839")
        .title("X")
        .artist_ipi("123456789")
        .work_midds(42)
        .build()
        .expect("midds-ref work builds");
    let Recording::V1(v) = recording;
    assert_eq!(v.work, WorkRef::Midds(42));
}

#[test]
fn missing_isrc_fails_with_missing_field() {
    let res = RecordingBuilder::new()
        .title("X")
        .artist_ipi("123456789")
        .work_midds(1)
        .build();
    assert!(matches!(res, Err(BuildError::Missing("isrc"))));
}

#[test]
fn missing_work_fails_with_missing_field() {
    let res = RecordingBuilder::new()
        .isrc("USRC17607839")
        .title("X")
        .artist_ipi("123456789")
        .build();
    assert!(matches!(res, Err(BuildError::Missing("work"))));
}

#[test]
fn recording_builder_aggregates_all_field_errors() {
    let res = RecordingBuilder::new()
        .isrc("not-an-isrc")
        .title("   ")
        .artist_ipi("not-an-ipi")
        .work_iswc("not-an-iswc")
        .add_performer_isni("bad-isni")
        .build();
    let errors = match res {
        Err(BuildError::Fields(v)) => v,
        other => panic!("expected Fields(_), got {other:?}"),
    };
    let fields: Vec<&str> = errors.iter().map(|e| e.field).collect();
    assert!(fields.contains(&"isrc"));
    assert!(fields.contains(&"title"));
    assert!(fields.contains(&"artist"));
    assert!(fields.contains(&"work"));
    assert!(fields.contains(&"performers"));
    assert_eq!(errors.len(), 5);
}

#[test]
fn empty_place_is_rejected() {
    let res = RecordingBuilder::new()
        .isrc("USRC17607839")
        .title("X")
        .artist_ipi("123456789")
        .work_midds(1)
        .places(Some("   "), None, None)
        .build();
    let errors = match res {
        Err(BuildError::Fields(v)) => v,
        other => panic!("expected Fields(_), got {other:?}"),
    };
    assert_eq!(errors[0].field, "places");
}

#[test]
fn built_payload_passes_on_chain_validation() {
    let recording = RecordingBuilder::new()
        .isrc("USRC17607839")
        .title("Valid Recording")
        .artist_isni("0000000121032683")
        .work_iswc("T0345246802")
        .places(Some("Abbey Road"), None, Some("Sterling Sound"))
        .build()
        .expect("builds");
    recording.validate_format().expect("builder output validates on-chain");
}

#[test]
fn too_many_genres_is_a_field_error() {
    let res = RecordingBuilder::new()
        .isrc("USRC17607839")
        .title("X")
        .artist_ipi("123456789")
        .work_midds(1)
        .genres(vec![Genre::Pop, Genre::Jazz, Genre::Rock])
        .build();
    let errors = match res {
        Err(BuildError::Fields(v)) => v,
        other => panic!("expected Fields(_), got {other:?}"),
    };
    assert_eq!(errors.len(), 1);
    assert_eq!(errors[0].field, "genres");
}

#[test]
fn happy_path_builds_and_validates() {
    let release = ReleaseBuilder::new()
        .upc("0-36000-29145-2")
        .title("  Transformer  ")
        .add_title_alias("Transformeur")
        .artist_isni("0000 0001 2103 2683")
        .add_track_isrc("US-RC1-72-00312")
        .add_track_midds(7)
        .add_producer("000000012103268X", "RCA LSP-4807")
        .status(ReleaseStatus::Official)
        .release_date(1972, 11, 8)
        .country(Country::Us)
        .distributor_name("RCA Records")
        .release_type(ReleaseType::Album)
        .format(ReleaseFormat::Vinyl)
        .packaging(ReleasePackaging::Gatefold)
        .add_cover_contributor("Mick Rock")
        .offchain_extension("bafkreigh2akiscaildc")
        .build()
        .expect("builds");
    release.validate_format().expect("builder output validates on-chain");
    let Release::V1(v) = release;
    assert_eq!(v.upc.as_slice(), b"036000291452");
    assert_eq!(v.title.as_slice(), b"Transformer");
    assert_eq!(v.tracks.len(), 2);
    assert_eq!(v.producers.len(), 1);
    assert_eq!(v.tracks.as_slice()[0].number, 1);
    assert_eq!(v.tracks.as_slice()[1].number, 2);
    assert_eq!(v.tracks.as_slice()[1].recording, RecordingRef::Midds(7));
}

#[test]
fn missing_mandatory_field_reported() {
    let res = ReleaseBuilder::new().title("X").build();
    assert!(matches!(res, Err(BuildError::Missing("upc"))));
}

#[test]
fn missing_tracklist_reported() {
    let res = ReleaseBuilder::new()
        .upc("036000291452")
        .title("X")
        .artist_ipi("123456789")
        .status(ReleaseStatus::Official)
        .release_date(2024, 1, 1)
        .country(Country::Us)
        .distributor_name("D")
        .release_type(ReleaseType::Album)
        .format(ReleaseFormat::Cd)
        .packaging(ReleasePackaging::NoPackaging)
        .build();
    assert!(matches!(res, Err(BuildError::Missing("tracks"))));
}

#[test]
fn aggregates_multiple_field_errors() {
    let res = ReleaseBuilder::new()
        .upc("not-a-upc")
        .title("   ")
        .artist_ipi("not-an-ipi")
        .add_track_isrc("bad-isrc")
        .status(ReleaseStatus::Official)
        .release_date(2024, 1, 1)
        .country(Country::Us)
        .distributor_name("D")
        .release_type(ReleaseType::Album)
        .format(ReleaseFormat::Cd)
        .packaging(ReleasePackaging::NoPackaging)
        .build();
    let errors = match res {
        Err(BuildError::Fields(v)) => v,
        other => panic!("expected Fields(_), got {other:?}"),
    };
    let fields: Vec<_> = errors.iter().map(|e| e.field).collect();
    assert!(fields.contains(&"upc"));
    assert!(fields.contains(&"title"));
    assert!(fields.contains(&"artist"));
    assert!(fields.contains(&"tracks"));
}

#[test]
fn empty_producer_catalog_is_rejected() {
    let res = ReleaseBuilder::new()
        .upc("036000291452")
        .title("X")
        .artist_ipi("123456789")
        .add_track_midds(1)
        .add_producer("0000000121032683", "  ")
        .status(ReleaseStatus::Official)
        .release_date(2024, 1, 1)
        .country(Country::Us)
        .distributor_name("D")
        .release_type(ReleaseType::Album)
        .format(ReleaseFormat::Cd)
        .packaging(ReleasePackaging::NoPackaging)
        .build();
    let errors = match res {
        Err(BuildError::Fields(v)) => v,
        other => panic!("expected Fields(_), got {other:?}"),
    };
    assert_eq!(errors[0].field, "producers");
}

#[test]
fn build_error_messages_describe_the_failure() {
    assert_eq!(BuildError::Missing("iswc").message(), "missing required field: iswc");
    let res = MusicalWorkBuilder::new().iswc("bad").title("X").add_creator("123456789").build();
    match res {
        Err(e @ BuildError::Fields(_)) => assert_eq!(e.message(), "1 field(s) failed validation"),
        other => panic!("expected Fields(_), got {other:?}"),
    }
}

#[test]
fn creator_with_both_identifiers_builds_party_both() {
    let work = MusicalWorkBuilder::new()
        .iswc("T0345246802")
        .title("X")
        .add_creator_full(vec![CreatorRole::Composer], Some("123456789"), Some("0000000121032683"))
        .build()
        .expect("builds");
    let MusicalWork::V1(v) = work;
    assert!(matches!(v.creators.as_slice()[0].party, PartyId::Both { .. }));
}

#[test]
fn recording_builder_collects_performers_and_contributors() {
    let recording = RecordingBuilder::new()
        .isrc("USRC17607839")
        .title("X")
        .artist_ipi("123456789")
        .work_midds(1)
        .add_performer_ipn("12345678")
        .add_performer_isni("0000 0001 2103 2683")
        .add_contributor_ipi("I-123456786")
        .add_contributor_isni("000000012103268X")
        .build()
        .expect("builds");
    recording.validate_format().expect("validates");
    let Recording::V1(v) = recording;
    assert_eq!(v.performers.len(), 2);
    assert_eq!(v.contributors.len(), 2);
    assert!(v.performers.as_slice().iter().all(|p| p.instruments.is_empty()));
}

#[test]
fn bad_contributor_is_reported_under_contributors() {
    let res = RecordingBuilder::new()
        .isrc("USRC17607839")
        .title("X")
        .artist_ipi("123456789")
        .work_midds(1)
        .add_contributor_ipi("nope")
        .build();
    let errors = match res {
        Err(BuildError::Fields(v)) => v,
        other => panic!("expected Fields(_), got {other:?}"),
    };
    assert_eq!(errors.len(), 1);
    assert_eq!(errors[0].field, "contributors");
}
