use midds::fixtures::{gen_n, gen_n_recording};
use midds::midds::Midds;
use midds::musical_work::{MusicalWork, WorkType};
use midds::parse::{parse_ipi, parse_isni, parse_isrc, parse_iswc};
use midds::recording::Recording;
use midds::shared::PartyId;

fn text(b: &[u8]) -> &str {
    std::str::from_utf8(b).expect("identifiers are ASCII")
}

fn party_round_trips(p: &PartyId) {
    match p {
        PartyId::Ipi(x) => assert_eq!(parse_ipi(text(x.as_slice())).unwrap(), *x),
        PartyId::Isni(x) => assert_eq!(parse_isni(text(x.as_slice())).unwrap(), *x),
        PartyId::Both { ipi, isni } => {
            assert_eq!(parse_ipi(text(ipi.as_slice())).unwrap(), *ipi);
            assert_eq!(parse_isni(text(isni.as_slice())).unwrap(), *isni);
        }
    }
}

#[test]
fn on_chain_work_identifiers_round_trip_off_chain() {
    for work in gen_n(11, 32) {
        assert!(work.validate_format().is_ok());
        let iswc = work.identifier().clone();
        assert_eq!(parse_iswc(text(iswc.as_slice())).unwrap(), iswc);
        let MusicalWork::V1(v) = work;
        for c in v.creators.as_slice() {
            party_round_trips(&c.party);
        }
        match &v.work_type {
            WorkType::Medley(refs) | WorkType::Mashup(refs) => {
                for r in refs.as_slice() {
                    assert_eq!(parse_iswc(text(r.as_slice())).unwrap(), *r);
                }
            }
            WorkType::Adaptation(r) | WorkType::Rearrangement(r) => {
                assert_eq!(parse_iswc(text(r.as_slice())).unwrap(), *r);
            }
            WorkType::Original => {}
        }
    }
}

#[test]
fn on_chain_recording_identifiers_round_trip_off_chain() {
    for rec in gen_n_recording(12, 32) {
        assert!(rec.validate_format().is_ok());
        let isrc = rec.identifier().clone();
        assert_eq!(parse_isrc(text(isrc.as_slice())).unwrap(), isrc);
        let Recording::V1(v) = rec;
        party_round_trips(&v.artist);
        for p in v.contributors.as_slice() {
            party_round_trips(p);
        }
    }
}
