use midds::fixtures::pathological::{min_size_musical_work, min_size_recording, min_size_release};
use midds::fixtures::strategy::{
    creator_roles_from, distinct_recording_refs, musical_work_max_size_from,
    musical_work_with_defect, recording_max_size_from, recording_with_defect,
    release_max_size_from, release_with_defect, tracklist_from, MusicalWorkDefect,
    RecordingDefect, ReleaseDefect,
};
use midds::fixtures::identifiers::iswc_from_work_code;
use midds::format_error::MiddsFormatError;
use midds::midds::Midds;
use midds::musical_work::{CreatorRole, MusicalWork, WorkType};
use midds::recording::Recording;
use midds::release::Release;
use midds::shared::{PartyId, RecordingRef};
use midds::Isrc;

fn printable(n: usize, seed: u8) -> Vec<u8> {
    (0..n).map(|i| 32 + ((i as u8).wrapping_add(seed) % 95)).collect()
}

#[test]
fn musical_work_defects_give_their_errors() {
    let MusicalWork::V1(v) = min_size_musical_work();
    for (defect, expected) in [
        (MusicalWorkDefect::IswcCharset, MiddsFormatError::InvalidCharset),
        (MusicalWorkDefect::IswcPrefix, MiddsFormatError::InvalidIdentifierStructure),
        (MusicalWorkDefect::EmptyTitle, MiddsFormatError::EmptyMandatoryField),
        (MusicalWorkDefect::NoCreators, MiddsFormatError::EmptyMandatoryField),
        (MusicalWorkDefect::EmptyMedley, MiddsFormatError::OutOfBounds),
        (MusicalWorkDefect::EmptyOffchainExtension, MiddsFormatError::EmptyMandatoryField),
    ] {
        let (work, err) = musical_work_with_defect(v.clone(), defect);
        assert_eq!(err, expected);
        assert_eq!(work.validate_format(), Err(expected));
    }
}

#[test]
fn recording_defects_give_their_errors() {
    let Recording::V1(v) = min_size_recording();
    for (defect, expected) in [
        (RecordingDefect::IsrcCharset, MiddsFormatError::InvalidCharset),
        (RecordingDefect::IsrcLength, MiddsFormatError::OutOfBounds),
        (RecordingDefect::EmptyTitle, MiddsFormatError::EmptyMandatoryField),
        (RecordingDefect::EmptyTitleAlias, MiddsFormatError::EmptyMandatoryField),
        (RecordingDefect::WorkIswcPrefix, MiddsFormatError::InvalidIdentifierStructure),
        (RecordingDefect::EmptyOffchainExtension, MiddsFormatError::EmptyMandatoryField),
    ] {
        let (rec, err) = recording_with_defect(v.clone(), defect);
        assert_eq!(err, expected);
        assert_eq!(rec.validate_format(), Err(expected));
    }
}

#[test]
fn release_defects_give_their_errors() {
    let Release::V1(v) = min_size_release();
    for (defect, expected) in [
        (ReleaseDefect::UpcLength, MiddsFormatError::OutOfBounds),
        (ReleaseDefect::UpcCharset, MiddsFormatError::InvalidCharset),
        (ReleaseDefect::EmptyTitle, MiddsFormatError::EmptyMandatoryField),
        (ReleaseDefect::NoTracks, MiddsFormatError::EmptyMandatoryField),
        (ReleaseDefect::BadDate, MiddsFormatError::OutOfBounds),
        (ReleaseDefect::EmptyDistributor, MiddsFormatError::EmptyMandatoryField),
        (ReleaseDefect::DuplicateTrack, MiddsFormatError::CrossFieldInconsistency),
    ] {
        let (rel, err) = release_with_defect(v.clone(), defect);
        assert_eq!(err, expected);
        assert_eq!(rel.validate_format(), Err(expected));
    }
}

#[test]
fn musical_work_max_size_from_distinct_codes_validates() {
    let work = musical_work_max_size_from(
        iswc_from_work_code(0),
        printable(256, 1),
        vec![[3u8; 15]; 32],
        (0..32u64).map(|i| i * 7919).collect(),
        printable(32, 2),
        printable(32, 3),
        printable(64, 4),
        (1..=32u32).collect(),
        (100..164u32).collect(),
    );
    work.validate_format().expect("distinct other works give a valid payload");
    let MusicalWork::V1(v) = work;
    assert_eq!(v.title.len(), 256);
    assert_eq!(v.creators.len(), 32);
    assert_eq!(v.samples.len(), 64);
    assert!(matches!(v.work_type, WorkType::Medley(ref r) if r.len() == 32));
}

#[test]
fn musical_work_max_size_from_self_reference_is_rejected() {
    let work = musical_work_max_size_from(
        iswc_from_work_code(5),
        printable(256, 1),
        vec![[3u8; 15]; 32],
        vec![1; 32],
        printable(32, 2),
        printable(32, 3),
        printable(64, 4),
        (5..37u32).collect(),
        (100..164u32).collect(),
    );
    assert_eq!(work.validate_format(), Err(MiddsFormatError::CrossFieldInconsistency));
}

#[test]
fn recording_max_size_from_validates_and_saturates() {
    let rec = recording_max_size_from(
        12_345,
        printable(256, 5),
        (0..8).map(|i| printable(256, i)).collect(),
        ([9u8; 15], 42),
        (0..16u64).map(|i| ([i as u8; 15], i)).collect(),
        77,
        vec![[1u8; 15]; 64],
        vec![[2u8; 15]; 8],
        (0..32u64).map(|i| ([i as u8; 15], i * 3)).collect(),
        printable(128, 6),
        printable(64, 7),
    );
    rec.validate_format().expect("saturated recording validates");
    let Recording::V1(v) = rec;
    assert_eq!(v.performers.len(), 64);
    assert!(v.performers.as_slice().iter().all(|p| p.instruments.len() == 8));
    assert_eq!(v.contributors.len(), 32);
    assert_eq!(v.featuring.len(), 16);
}

#[test]
fn release_max_size_from_validates_and_saturates() {
    let rel = release_max_size_from(
        b"4006381333931".to_vec(),
        printable(256, 8),
        (0..8).map(|i| printable(256, i)).collect(),
        ([4u8; 15], 7),
        (0..16u64).map(|i| ([i as u8; 15], i)).collect(),
        (0..16u8).map(|i| ([i; 15], printable(32, i))).collect(),
        printable(128, 9),
        (0..16).map(|i| printable(128, i)).collect(),
        printable(64, 10),
    );
    rel.validate_format().expect("saturated release validates");
    let Release::V1(v) = rel;
    assert!(matches!(v.artist, PartyId::Both { .. }));
    assert_eq!(v.tracks.len(), 256);
    assert_eq!(v.tracks.as_slice()[255].number, 256);
}

#[test]
fn distinct_refs_keep_first_occurrences() {
    let a = RecordingRef::Midds(1);
    let b = RecordingRef::Isrc(Isrc::try_new(b"USRC17607839".to_vec()).unwrap());
    let out = distinct_recording_refs(vec![a.clone(), b.clone(), a.clone(), b.clone()]);
    assert_eq!(out, vec![a, b]);
}

#[test]
fn tracklist_from_numbers_distinct_refs() {
    let refs = vec![RecordingRef::Midds(9), RecordingRef::Midds(9), RecordingRef::Midds(3)];
    let tracks = tracklist_from(refs);
    let numbers: Vec<u16> = tracks.as_slice().iter().map(|t| t.number).collect();
    assert_eq!(numbers, vec![1, 2]);
    assert_eq!(tracks.as_slice()[1].recording, RecordingRef::Midds(3));
}

#[test]
fn creator_roles_from_collects_listed_roles() {
    let roles = creator_roles_from(vec![CreatorRole::Author, CreatorRole::Author, CreatorRole::Adapter]);
    assert!(roles.contains(CreatorRole::Author));
    assert!(roles.contains(CreatorRole::Adapter));
    assert!(!roles.contains(CreatorRole::Composer));
    assert!(creator_roles_from(vec![]).is_empty());
}
