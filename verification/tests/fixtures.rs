use midds::fixtures::{
    gen_n, gen_n_recording, gen_n_release, seeded_rng, MiddsFixtures, RecordingFixtures,
    ReleaseFixtures,
};
use midds::fixtures::identifiers::{isrc_for_index, iswc_for_index, upc_for_index};
use midds::midds::Midds;

#[test]
fn gen_n_is_deterministic() {
    let a = gen_n(0xDEAD_BEEF, 32);
    let b = gen_n(0xDEAD_BEEF, 32);
    assert_eq!(a, b);
}

#[test]
fn gen_n_yields_unique_iswcs() {
    let works = gen_n(42, 256);
    let mut ids: Vec<_> = works.iter().map(|w| w.identifier()).collect();
    ids.sort();
    ids.dedup();
    assert_eq!(ids.len(), works.len(), "ISWCs must be unique");
}

#[test]
fn gen_n_payloads_pass_on_chain_validation() {
    for w in gen_n(7, 64) {
        w.validate_format().expect("generated payload validates");
    }
}

#[test]
fn gen_n_recording_is_deterministic_and_unique() {
    let a = gen_n_recording(0xDEAD_BEEF, 64);
    let b = gen_n_recording(0xDEAD_BEEF, 64);
    assert_eq!(a, b);
    let mut ids: Vec<_> = a.iter().map(|r| r.identifier()).collect();
    ids.sort();
    ids.dedup();
    assert_eq!(ids.len(), a.len(), "ISRCs must be unique");
    for r in &a {
        r.validate_format().expect("generated payload validates");
    }
}

#[test]
fn gen_n_release_is_deterministic_and_unique() {
    let a = gen_n_release(0xDEAD_BEEF, 64);
    let b = gen_n_release(0xDEAD_BEEF, 64);
    assert_eq!(a, b);
    let mut ids: Vec<_> = a.iter().map(|r| r.identifier()).collect();
    ids.sort();
    ids.dedup();
    assert_eq!(ids.len(), a.len(), "UPCs must be unique");
    for r in &a {
        r.validate_format().expect("generated payload validates");
    }
}

#[test]
fn release_fixtures_trait_is_consistent() {
    let bulk = <ReleaseFixtures as MiddsFixtures>::gen_n(0xCAFE, 8);
    assert_eq!(bulk.len(), 8);
    for r in &bulk {
        r.validate_format().expect("gen_n payload validates");
    }

    let pathological = <ReleaseFixtures as MiddsFixtures>::pathological();
    assert!(!pathological.is_empty());
    for r in &pathological {
        r.validate_format().expect("pathological boundary payload validates");
    }

    let mut rng = seeded_rng(0x5EED);
    let mut ids = Vec::new();
    for i in 0..8u32 {
        let real = <ReleaseFixtures as MiddsFixtures>::random_with_index(&mut rng, i);
        let min = <ReleaseFixtures as MiddsFixtures>::min_size_with_index(i);
        let max = <ReleaseFixtures as MiddsFixtures>::max_size_with_index(i);
        for r in [&real, &min, &max] {
            r.validate_format().expect("index-keyed payload validates");
        }
        ids.push(min.identifier().clone());
    }
    ids.sort();
    ids.dedup();
    assert_eq!(ids.len(), 8, "min_size_with_index UPCs must be unique");
}

#[test]
fn recording_fixtures_trait_is_consistent() {
    let bulk = <RecordingFixtures as MiddsFixtures>::gen_n(0xCAFE, 8);
    assert_eq!(bulk.len(), 8);
    for r in &bulk {
        r.validate_format().expect("gen_n payload validates");
    }

    let pathological = <RecordingFixtures as MiddsFixtures>::pathological();
    assert!(!pathological.is_empty());
    for r in &pathological {
        r.validate_format().expect("pathological boundary payload validates");
    }

    let mut rng = seeded_rng(0x5EED);
    let mut ids = Vec::new();
    for i in 0..8u32 {
        let real = <RecordingFixtures as MiddsFixtures>::random_with_index(&mut rng, i);
        let min = <RecordingFixtures as MiddsFixtures>::min_size_with_index(i);
        let max = <RecordingFixtures as MiddsFixtures>::max_size_with_index(i);
        for r in [&real, &min, &max] {
            r.validate_format().expect("index-keyed payload validates");
        }
        ids.push(min.identifier().clone());
    }
    ids.sort();
    ids.dedup();
    assert_eq!(ids.len(), 8, "min_size_with_index ISRCs must be unique");
}

#[test]
fn generated_work_i_carries_iswc_of_index_i() {
    let works = gen_n(3, 16);
    for (i, w) in works.iter().enumerate() {
        assert_eq!(*w.identifier(), iswc_for_index(i as u32));
    }
    let recs = gen_n_recording(3, 16);
    for (i, r) in recs.iter().enumerate() {
        assert_eq!(*r.identifier(), isrc_for_index(i as u32));
    }
    let rels = gen_n_release(3, 16);
    for (i, r) in rels.iter().enumerate() {
        assert_eq!(*r.identifier(), upc_for_index(i as u32));
    }
}

#[test]
fn different_seeds_give_different_batches() {
    assert_ne!(gen_n(1, 8), gen_n(2, 8));
}

#[test]
fn fixture_corpora_are_valid_with_distinct_identifiers() {
    let recs = <RecordingFixtures as MiddsFixtures>::corpus();
    assert_eq!(recs.len(), 32);
    for r in &recs {
        r.validate_format().expect("corpus recording validates");
    }
    let rels = <ReleaseFixtures as MiddsFixtures>::corpus();
    assert_eq!(rels.len(), 32);
    let mut ids: Vec<_> = rels.iter().map(|r| r.identifier()).collect();
    ids.sort();
    ids.dedup();
    assert_eq!(ids.len(), 32);
}

#[test]
fn random_with_index_is_reproducible_from_one_seed() {
    let mut a = seeded_rng(0xC0FFEE);
    let mut b = seeded_rng(0xC0FFEE);
    for i in 0..6u32 {
        let ra = <RecordingFixtures as MiddsFixtures>::random_with_index(&mut a, i);
        let rb = <RecordingFixtures as MiddsFixtures>::random_with_index(&mut b, i);
        assert_eq!(ra, rb);
        let la = <ReleaseFixtures as MiddsFixtures>::random_with_index(&mut a, i);
        let lb = <ReleaseFixtures as MiddsFixtures>::random_with_index(&mut b, i);
        assert_eq!(la, lb);
    }
}

#[test]
fn generated_titles_use_the_fixture_alphabet() {
    for w in gen_n(9, 16) {
        let midds::musical_work::MusicalWork::V1(v) = w;
        let t = v.title.as_slice();
        assert!((8..=64).contains(&t.len()));
        assert!(t.iter().all(|b| b.is_ascii_lowercase() || *b == b' '));
    }
}
