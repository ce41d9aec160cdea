use midds::bounded::{Bounded, MiddsString};
use midds::country::Country;
use midds::language::Language;
use midds::midds::Midds;
use midds::musical_work::{
    ClassicalInfo, Creator, CreatorRole, CreatorRoles, MusicalWork, MusicalWorkV1, WorkType,
};
use midds::recording::{
    Genre, Instrument, Performer, ProductionPlaces, Recording, RecordingV1, RecordingVersion,
};
use midds::release::{
    Producer, Release, ReleaseDate, ReleaseFormat, ReleasePackaging, ReleaseStatus, ReleaseType,
    ReleaseV1, Track,
};
use midds::shared::{Mode, MusicalKey, PartyId, PerformerId, PitchClass, RecordingRef, WorkRef};

fn bv<const N: u32>(s: &[u8]) -> MiddsString<N> {
    Bounded::try_new(s.to_vec()).expect("bounded vec build")
}

fn role(r: CreatorRole) -> CreatorRoles {
    let mut set = CreatorRoles::new();
    set.try_insert(r).expect("role within bound");
    set
}

fn reference_work() -> MusicalWorkV1 {
    MusicalWorkV1 {
        iswc: bv(b"T0345246802"),
        title: bv(b"Walk on the Wild Side"),
        creation_year: Some(1972),
        instrumental: false,
        language: Some(Language::En),
        explicit_lyrics: false,
        bpm: None,
        key: Some(MusicalKey { pitch: PitchClass::A, mode: Mode::Minor }),
        work_type: WorkType::Adaptation(bv(b"T9876543210")),
        samples: Bounded::new(),
        creators: Bounded::try_new(vec![
            Creator { roles: role(CreatorRole::Composer), party: PartyId::Ipi(bv(b"123456786")) },
            Creator {
                roles: role(CreatorRole::Author),
                party: PartyId::Isni(bv(b"0000000121032683")),
            },
        ])
        .expect("2 creators within CREATORS_MAX"),
        classical_info: Some(ClassicalInfo {
            opus: Some(bv(b"Op. 27 No. 2")),
            catalog_number: Some(bv(b"K. 545")),
            number_of_voices: Some(4),
        }),
        offchain_extension: Some(bv(b"bafkreigh2akiscaildc")),
    }
}

#[test]
fn version_stability_reference_payload_passes_validate_format() {
    MusicalWork::V1(reference_work())
        .validate_format()
        .expect("reference payload validates on-chain");
}

fn reference_recording() -> RecordingV1 {
    RecordingV1 {
        isrc: bv(b"FRABC2412345"),
        title: bv(b"Walk on the Wild Side (Live)"),
        title_aliases: Bounded::try_new(vec![bv(b"Wild Side"), bv(b"Cote Sauvage")])
            .expect("aliases within bound"),
        artist: PartyId::Ipi(bv(b"123456786")),
        featuring: Bounded::try_new(vec![PartyId::Isni(bv(b"0000000121032683"))])
            .expect("featuring within bound"),
        work: WorkRef::Iswc(bv(b"T0345246802")),
        genre: Some(Genre::Rock),
        sub_genre: Some(Genre::Blues),
        record_year: Some(1972),
        version_type: Some(RecordingVersion::Live),
        performers: Bounded::try_new(vec![Performer {
            id: PerformerId::Ipn(bv(b"12345678")),
            instruments: Bounded::try_new(vec![Instrument::ElectricGuitar, Instrument::Vocals])
                .expect("instruments within bound"),
        }])
        .expect("performers within bound"),
        producers: Bounded::try_new(vec![bv(b"000000012103268X")])
            .expect("producers within bound"),
        duration: Some(255),
        bpm: None,
        key: Some(MusicalKey { pitch: PitchClass::A, mode: Mode::Minor }),
        places: Some(ProductionPlaces {
            recording: Some(bv(b"RCA Studios, New York")),
            mixing: None,
            mastering: Some(bv(b"Sterling Sound")),
        }),
        contributors: Bounded::try_new(vec![PartyId::Ipi(bv(b"00000000171"))])
            .expect("contributors within bound"),
        offchain_extension: Some(bv(b"bafkreigh2akiscaildc")),
    }
}

#[test]
fn recording_version_stability_reference_payload_passes_validate_format() {
    Recording::V1(reference_recording())
        .validate_format()
        .expect("reference payload validates on-chain");
}

fn reference_release() -> ReleaseV1 {
    ReleaseV1 {
        upc: bv(b"4006381333931"),
        title: bv(b"Transformer (Deluxe Edition)"),
        title_aliases: Bounded::try_new(vec![bv(b"Transformer"), bv(b"Transformeur")])
            .expect("aliases within bound"),
        artist: PartyId::Isni(bv(b"0000000121032683")),
        featuring: Bounded::try_new(vec![
            PartyId::Ipi(bv(b"00052210040")),
            PartyId::Both { ipi: bv(b"00073050873"), isni: bv(b"0000000368571195") },
        ])
        .expect("featuring within bound"),
        tracks: Bounded::try_new(vec![
            Track { number: 1, recording: RecordingRef::Isrc(bv(b"USRC17200312")) },
            Track { number: 2, recording: RecordingRef::Midds(880_017) },
        ])
        .expect("tracks within bound"),
        producers: Bounded::try_new(vec![Producer {
            isni: bv(b"000000012103268X"),
            catalog_number: bv(b"RCA LSP-4807"),
        }])
        .expect("producers within bound"),
        status: ReleaseStatus::Official,
        release_date: ReleaseDate { year: 1972, month: 11, day: 8 },
        country: Country::Us,
        distributor_name: bv(b"RCA Records"),
        release_type: ReleaseType::Album,
        format: ReleaseFormat::Vinyl,
        packaging: ReleasePackaging::Gatefold,
        cover_contributors: Bounded::try_new(vec![bv(b"Mick Rock")])
            .expect("cover contributors within bound"),
        offchain_extension: None,
    }
}

#[test]
fn release_version_stability_reference_payload_passes_validate_format() {
    Release::V1(reference_release())
        .validate_format()
        .expect("reference payload validates on-chain");
}

#[test]
fn reference_identifiers_are_the_canonical_codes() {
    assert_eq!(MusicalWork::V1(reference_work()).identifier().as_slice(), b"T0345246802");
    assert_eq!(Recording::V1(reference_recording()).identifier().as_slice(), b"FRABC2412345");
    assert_eq!(Release::V1(reference_release()).identifier().as_slice(), b"4006381333931");
}
