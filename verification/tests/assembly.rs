use midds::fixtures::assembly::{
    musical_work_v1_from, recording_v1_from, release_v1_from, work_type_from,
};
use midds::fixtures::identifiers::{ipi_from_stem, isrc_for_index, iswc_from_work_code, upc_for_index};
use midds::fixtures::strategy::creator_roles_from;
use midds::musical_work::{Creator, CreatorRole, WorkType};
use midds::recording::Genre;
use midds::release::{
    ReleaseDate, ReleaseFormat, ReleasePackaging, ReleaseStatus, ReleaseType,
};
use midds::country::Country;
use midds::shared::{PartyId, RecordingRef, WorkRef};
use midds::Bounded;

fn text<const N: u32>(s: &str) -> Bounded<u8, N> {
    Bounded::try_new(s.as_bytes().to_vec()).unwrap_or_else(|_| panic!("fits"))
}

fn one_creator() -> Bounded<Creator, 32> {
    let c = Creator {
        roles: creator_roles_from(vec![CreatorRole::Composer]),
        party: PartyId::Ipi(ipi_from_stem(42, 9)),
    };
    Bounded::try_new(vec![c]).unwrap_or_else(|_| panic!("fits"))
}

#[test]
fn work_type_from_names_the_codes() {
    assert_eq!(work_type_from(0, &vec![5, 6]), WorkType::Original);
    match work_type_from(1, &vec![5, 6]) {
        WorkType::Medley(refs) => {
            assert_eq!(refs.as_slice(), &[iswc_from_work_code(5), iswc_from_work_code(6)][..])
        },
        other => panic!("expected a medley, got {other:?}"),
    }
    assert_eq!(work_type_from(3, &vec![5, 6]), WorkType::Adaptation(iswc_from_work_code(5)));
    assert_eq!(work_type_from(4, &vec![5]), WorkType::Rearrangement(iswc_from_work_code(5)));
}

#[test]
fn musical_work_v1_from_assembles_a_valid_work() {
    let w = musical_work_v1_from(
        vec![10, 11, 12, 13, 14, 15],
        3,
        2,
        text("Song"),
        Some(2001),
        false,
        None,
        false,
        Some(120),
        None,
        one_creator(),
        None,
        None,
        vec![7, 7, 9],
    );
    assert_eq!(w.iswc, iswc_from_work_code(10));
    assert_eq!(w.work_type, WorkType::Adaptation(iswc_from_work_code(11)));
    assert_eq!(
        w.samples.as_slice(),
        &[
            WorkRef::Iswc(iswc_from_work_code(13)),
            WorkRef::Iswc(iswc_from_work_code(14)),
            WorkRef::Midds(7),
            WorkRef::Midds(9),
        ][..]
    );
    assert!(w.validate_format().is_ok());

    let medley = musical_work_v1_from(
        vec![10, 11, 12],
        1,
        4,
        text("Mix"),
        None,
        true,
        None,
        false,
        None,
        None,
        one_creator(),
        None,
        None,
        vec![],
    );
    assert!(matches!(&medley.work_type, WorkType::Medley(r) if r.len() == 2));
    assert!(medley.samples.as_slice().is_empty());
    assert!(medley.validate_format().is_ok());
}

#[test]
fn recording_v1_from_keeps_pieces_and_genres() {
    let r = recording_v1_from(
        isrc_for_index(3),
        text("Take"),
        vec![text("Alt")],
        PartyId::Ipi(ipi_from_stem(1, 9)),
        vec![],
        WorkRef::Midds(4),
        Some((Genre::Jazz, None)),
        Some(1999),
        None,
        vec![],
        vec![],
        Some(200),
        Some(90),
        None,
        None,
        vec![],
        None,
    );
    assert_eq!(r.genre, Some(Genre::Jazz));
    assert_eq!(r.sub_genre, None);
    assert_eq!(r.title_aliases.len(), 1);
    assert!(r.validate_format().is_ok());
}

#[test]
fn release_v1_from_numbers_distinct_tracks() {
    let rel = release_v1_from(
        upc_for_index(8),
        text("Album"),
        vec![],
        PartyId::Ipi(ipi_from_stem(1, 9)),
        vec![],
        vec![RecordingRef::Midds(1), RecordingRef::Midds(1), RecordingRef::Midds(2)],
        vec![],
        ReleaseStatus::Official,
        ReleaseDate { year: 2020, month: 5, day: 17 },
        Country::Us,
        text("Label"),
        ReleaseType::Album,
        ReleaseFormat::Cd,
        ReleasePackaging::NoPackaging,
        vec![],
        None,
    );
    let numbers: Vec<u16> = rel.tracks.as_slice().iter().map(|t| t.number).collect();
    assert_eq!(numbers, vec![1, 2]);
    assert!(rel.validate_format().is_ok());
}
