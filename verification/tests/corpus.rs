use midds::checksum::{verify_ipi_checksum, verify_isni_checksum, verify_iswc_checksum, CheckResult};
use midds::fixtures::corpus::{
    iter_languages, iter_real_ipis, iter_real_isnis, iter_real_iswcs, iter_titles,
    languages_from_codes, try_iter_languages, try_iter_real_isnis, try_iter_real_iswcs,
    try_iter_titles,
};
use midds::language::Language;
use midds::{validate_ipi_format, validate_isni_format, validate_iswc_format};

const RAW_ISWC: &str = r#"["T0345246802", "T0987654320", "T0000000011"]"#;
const RAW_IPI: &str = r#"["123456786", "12345678905"]"#;
const RAW_ISNI: &str = r#"["0000000121032683", "0000000000000001"]"#;
const RAW_LANGUAGES: &str = r#"["en", "fr", "de", "es", "ja"]"#;
const RAW_TITLES: &str = r#"["Yesterday", "Clair de lune", "Bohemian Rhapsody"]"#;

#[test]
fn iswc_corpus_is_structurally_valid() {
    let mut count = 0;
    for iswc in iter_real_iswcs(RAW_ISWC) {
        validate_iswc_format(iswc.as_slice()).expect("iswc structurally valid");
        count += 1;
    }
    assert!(count > 0, "ISWC corpus must not be empty");
}

#[test]
fn iswc_corpus_is_checksum_correct() {
    for iswc in iter_real_iswcs(RAW_ISWC) {
        assert_eq!(verify_iswc_checksum(&iswc), CheckResult::Pass);
    }
}

#[test]
fn ipi_corpus_is_checksum_correct() {
    for ipi in iter_real_ipis(RAW_IPI) {
        validate_ipi_format(ipi.as_slice()).expect("ipi structurally valid");
        assert_eq!(verify_ipi_checksum(&ipi), CheckResult::Pass);
    }
}

#[test]
fn isni_corpus_is_checksum_correct() {
    for isni in iter_real_isnis(RAW_ISNI) {
        validate_isni_format(isni.as_slice()).expect("isni structurally valid");
        assert_eq!(verify_isni_checksum(&isni), CheckResult::Pass);
    }
}

#[test]
fn languages_corpus_parses() {
    let codes: Vec<Language> = iter_languages(RAW_LANGUAGES);
    assert!(!codes.is_empty());
    assert!(codes.contains(&Language::En));
}

#[test]
fn titles_corpus_is_non_empty_strings() {
    let titles: Vec<String> = iter_titles(RAW_TITLES);
    assert!(!titles.is_empty());
    for t in titles {
        assert!(!t.is_empty(), "corpus title must not be empty");
    }
}

#[test]
fn corpus_rejects_non_array_text() {
    assert!(try_iter_titles("{\"a\": 1}").is_none());
    assert!(try_iter_languages("not json").is_none());
}

#[test]
fn unknown_language_code_rejects_corpus() {
    assert!(try_iter_languages(r#"["en", "zz"]"#).is_none());
    assert_eq!(try_iter_languages(r#"["en", "fr"]"#), Some(vec![Language::En, Language::Fr]));
    assert!(languages_from_codes(&vec!["fr".to_string()]).unwrap() == vec![Language::Fr]);
}

#[test]
fn oversized_identifier_rejects_corpus() {
    assert!(try_iter_real_iswcs(r#"["T03452468020"]"#).is_none());
    assert_eq!(try_iter_real_iswcs(RAW_ISWC).unwrap().len(), 3);
    assert!(try_iter_real_isnis(r#"["00000001210326830"]"#).is_none());
    assert_eq!(iter_real_iswcs(RAW_ISWC).len(), 3);
}
