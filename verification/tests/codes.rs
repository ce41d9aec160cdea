use midds::country::Country;
use midds::language::Language;

#[test]
fn country_roundtrip_common_codes() {
    for (raw, expected) in [
        (&b"FR"[..], Country::Fr),
        (b"US", Country::Us),
        (b"GB", Country::Gb),
        (b"DE", Country::De),
        (b"JP", Country::Jp),
        (b"BR", Country::Br),
        (b"ZA", Country::Za),
        (b"AU", Country::Au),
    ] {
        let parsed = Country::from_code(raw).expect("known code");
        assert_eq!(parsed, expected);
        assert_eq!(parsed.as_code(), raw);
    }
}

#[test]
fn country_unknown_code_returns_none() {
    assert!(Country::from_code(b"XX").is_none());
    assert!(Country::from_code(b"").is_none());
    assert!(Country::from_code(b"FRA").is_none());
    assert!(Country::from_code(b"fr").is_none());
}

#[test]
fn country_from_code_ignore_ascii_case_normalises_both_orientations() {
    for raw in [&b"FR"[..], b"fr", b"Fr", b"fR"] {
        assert_eq!(Country::from_code_ignore_ascii_case(raw), Some(Country::Fr), "{:?}", raw);
    }
    assert!(Country::from_code_ignore_ascii_case(b"XX").is_none());
    assert!(Country::from_code_ignore_ascii_case(b"FRA").is_none());
    assert!(Country::from_code_ignore_ascii_case(b"F").is_none());
}

#[test]
fn language_roundtrip_common_codes() {
    for (raw, expected) in [
        (&b"en"[..], Language::En),
        (b"fr", Language::Fr),
        (b"es", Language::Es),
        (b"de", Language::De),
        (b"ja", Language::Ja),
        (b"zh", Language::Zh),
        (b"ar", Language::Ar),
        (b"ru", Language::Ru),
    ] {
        let parsed = Language::from_code(raw).expect("known code");
        assert_eq!(parsed, expected);
        assert_eq!(parsed.as_code(), raw);
    }
}

#[test]
fn language_unknown_code_returns_none() {
    assert!(Language::from_code(b"xx").is_none());
    assert!(Language::from_code(b"").is_none());
    assert!(Language::from_code(b"eng").is_none());
    assert!(Language::from_code(b"EN").is_none());
}

#[test]
fn language_from_code_ignore_ascii_case_normalises_both_orientations() {
    for raw in [&b"en"[..], b"EN", b"En", b"eN"] {
        assert_eq!(Language::from_code_ignore_ascii_case(raw), Some(Language::En), "{:?}", raw);
    }
    assert!(Language::from_code_ignore_ascii_case(b"xx").is_none());
    assert!(Language::from_code_ignore_ascii_case(b"eng").is_none());
    assert!(Language::from_code_ignore_ascii_case(b"e").is_none());
}

#[test]
fn every_country_code_round_trips() {
    for a in b'A'..=b'Z' {
        for b in b'A'..=b'Z' {
            if let Some(c) = Country::from_code(&[a, b]) {
                assert_eq!(c.as_code(), [a, b]);
                assert_eq!(Country::from_code(&c.as_code()), Some(c));
            }
        }
    }
}

#[test]
fn every_language_code_round_trips() {
    for a in b'a'..=b'z' {
        for b in b'a'..=b'z' {
            if let Some(l) = Language::from_code(&[a, b]) {
                assert_eq!(l.as_code(), [a, b]);
                assert_eq!(Language::from_code_ignore_ascii_case(&[a - 32, b - 32]), Some(l));
            }
        }
    }
}
