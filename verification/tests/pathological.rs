use midds::fixtures::pathological::{
    invalid_empty_creators, invalid_empty_medley_refs, invalid_empty_title,
    invalid_iswc_bad_charset, invalid_iswc_wrong_prefix, invalid_recording_empty_title,
    invalid_recording_isrc_bad_charset, invalid_recording_isrc_wrong_length,
    invalid_recording_work_iswc_prefix, invalid_release_bad_date, invalid_release_empty_title,
    invalid_release_empty_tracklist, invalid_release_upc_bad_charset,
    invalid_release_upc_wrong_length, max_size_musical_work, max_size_recording,
    max_size_release, min_size_musical_work, min_size_recording, min_size_release,
};
use midds::midds::Midds;
use midds::musical_work::{MusicalWork, CREATORS_MAX, SAMPLES_MAX};
use midds::recording::{Recording, CONTRIBUTORS_MAX, PERFORMERS_MAX};
use midds::release::{Release, TRACKS_MAX};
use midds::shared::TITLE_MAX_LEN;

#[test]
fn min_size_validates() {
    min_size_musical_work().validate_format().expect("min size validates");
}

#[test]
fn max_size_musical_work_validates_and_fills_bounds() {
    let work = max_size_musical_work();
    work.validate_format().expect("max size validates");
    let MusicalWork::V1(v) = work;
    assert_eq!(v.title.len(), TITLE_MAX_LEN as usize);
    assert_eq!(v.creators.len(), CREATORS_MAX as usize);
    assert_eq!(v.samples.len(), SAMPLES_MAX as usize);
}

#[test]
fn invalid_constructors_match_expected_error() {
    for ctor in [
        invalid_iswc_wrong_prefix as fn() -> _,
        invalid_iswc_bad_charset,
        invalid_empty_title,
        invalid_empty_creators,
        invalid_empty_medley_refs,
    ] {
        let (work, expected) = ctor();
        let err = work.validate_format().expect_err("payload must fail");
        assert_eq!(err, expected);
    }
}

#[test]
fn recording_min_size_validates() {
    min_size_recording().validate_format().expect("min size validates");
}

#[test]
fn max_size_recording_validates_and_fills_bounds() {
    let recording = max_size_recording();
    recording.validate_format().expect("max size validates");
    let Recording::V1(v) = recording;
    assert_eq!(v.title.len(), TITLE_MAX_LEN as usize);
    assert_eq!(v.performers.len(), PERFORMERS_MAX as usize);
    assert_eq!(v.contributors.len(), CONTRIBUTORS_MAX as usize);
}

#[test]
fn recording_invalid_constructors_match_expected_error() {
    for ctor in [
        invalid_recording_isrc_bad_charset as fn() -> _,
        invalid_recording_isrc_wrong_length,
        invalid_recording_empty_title,
        invalid_recording_work_iswc_prefix,
    ] {
        let (recording, expected) = ctor();
        let err = recording.validate_format().expect_err("payload must fail");
        assert_eq!(err, expected);
    }
}

#[test]
fn release_min_size_validates() {
    min_size_release().validate_format().expect("min size validates");
}

#[test]
fn max_size_release_validates_and_fills_bounds() {
    let release = max_size_release();
    release.validate_format().expect("max size validates");
    let Release::V1(v) = release;
    assert_eq!(v.tracks.len(), TRACKS_MAX as usize);
    assert_eq!(v.title.len(), TITLE_MAX_LEN as usize);
}

#[test]
fn release_invalid_constructors_match_expected_error() {
    for ctor in [
        invalid_release_upc_bad_charset as fn() -> _,
        invalid_release_upc_wrong_length,
        invalid_release_empty_title,
        invalid_release_empty_tracklist,
        invalid_release_bad_date,
    ] {
        let (release, expected) = ctor();
        let err = release.validate_format().expect_err("payload must fail");
        assert_eq!(err, expected);
    }
}

#[test]
fn release_validity_ignores_track_order() {
    let Release::V1(v) = max_size_release();
    let mut reversed: Vec<_> = v.tracks.as_slice().to_vec();
    reversed.reverse();
    let mut w = v.clone();
    w.tracks = midds::Bounded::try_new(reversed).unwrap_or_else(|_| panic!("same length"));
    assert!(v.validate_format().is_ok());
    assert!(w.validate_format().is_ok());

    let mut dup: Vec<_> = v.tracks.as_slice().to_vec();
    dup[1].recording = dup[0].recording.clone();
    let mut x = v.clone();
    x.tracks = midds::Bounded::try_new(dup.clone()).unwrap_or_else(|_| panic!("same length"));
    dup.reverse();
    let mut y = v;
    y.tracks = midds::Bounded::try_new(dup).unwrap_or_else(|_| panic!("same length"));
    assert!(x.validate_format().is_err());
    assert!(y.validate_format().is_err());
}
