use midds::error::ParseError;
use midds::parse::{parse_ipi, parse_ipn, parse_isni, parse_isrc, parse_iswc, parse_upc};
use midds::{
    validate_ipi_format, validate_isni_format, validate_isrc_format, validate_iswc_format,
    validate_upc_format,
};

#[test]
fn iswc_canonical_round_trips() {
    let v = parse_iswc("T0345246801").expect("canonical input");
    assert_eq!(v.as_slice(), b"T0345246801");
}

#[test]
fn iswc_with_separators_normalises() {
    let v = parse_iswc("T-034.524.680-1").expect("punctuated input");
    assert_eq!(v.as_slice(), b"T0345246801");
}

#[test]
fn iswc_lowercase_normalises() {
    let v = parse_iswc("t-034.524.680-1").expect("lowercase prefix");
    assert_eq!(v.as_slice(), b"T0345246801");
}

#[test]
fn iswc_trim() {
    let v = parse_iswc("  T0345246801  ").expect("padded");
    assert_eq!(v.as_slice(), b"T0345246801");
}

#[test]
fn iswc_pattern_mismatch() {
    assert_eq!(parse_iswc("X0345246801"), Err(ParseError::PatternMismatch));
    assert_eq!(parse_iswc("T03452468"), Err(ParseError::PatternMismatch));
    assert_eq!(parse_iswc("T03452468AB"), Err(ParseError::PatternMismatch));
    assert_eq!(parse_iswc(""), Err(ParseError::PatternMismatch));
}

#[test]
fn isni_grouped_normalises() {
    let v = parse_isni("0000 0001 2103 2683").expect("space-grouped");
    assert_eq!(v.as_slice(), b"0000000121032683");
}

#[test]
fn isni_dashed_normalises() {
    let v = parse_isni("0000-0001-2103-2683").expect("dash-grouped");
    assert_eq!(v.as_slice(), b"0000000121032683");
}

#[test]
fn isni_with_x_check_digit() {
    let v = parse_isni("000000012103268X").expect("X check digit");
    assert_eq!(v.as_slice(), b"000000012103268X");
}

#[test]
fn isni_lowercase_x_normalises() {
    let v = parse_isni("000000012103268x").expect("lowercase X");
    assert_eq!(v.as_slice(), b"000000012103268X");
}

#[test]
fn isni_pattern_mismatch() {
    assert_eq!(parse_isni("123"), Err(ParseError::PatternMismatch));
    assert_eq!(parse_isni("000000012103268Y"), Err(ParseError::PatternMismatch));
}

#[test]
fn ipi_strips_prefix() {
    let v = parse_ipi("I-123456789").expect("prefixed");
    assert_eq!(v.as_slice(), b"123456789");
}

#[test]
fn ipi_accepts_lengths() {
    for raw in ["123456789", "1234567890", "12345678901"] {
        assert_eq!(parse_ipi(raw).unwrap().as_slice(), raw.as_bytes(), "{raw}");
    }
}

#[test]
fn ipi_pattern_mismatch() {
    assert_eq!(parse_ipi("12345678"), Err(ParseError::PatternMismatch));
    assert_eq!(parse_ipi("123456789012"), Err(ParseError::PatternMismatch));
    assert_eq!(parse_ipi("12345A789"), Err(ParseError::PatternMismatch));
}

#[test]
fn ipi_rejects_non_ascii_digits() {
    assert_eq!(parse_ipi("12345678\u{663}"), Err(ParseError::PatternMismatch));
    assert_eq!(parse_ipi("I-\u{661}23456789"), Err(ParseError::PatternMismatch));
}

#[test]
fn isrc_canonical_round_trips() {
    let v = parse_isrc("USRC17607839").expect("canonical");
    assert_eq!(v.as_slice(), b"USRC17607839");
}

#[test]
fn isrc_dashed_normalises() {
    let v = parse_isrc("US-RC1-76-07839").expect("dashed");
    assert_eq!(v.as_slice(), b"USRC17607839");
}

#[test]
fn isrc_partial_dashes_normalise() {
    let v = parse_isrc("USRC1-76-07839").expect("partial");
    assert_eq!(v.as_slice(), b"USRC17607839");
    let v = parse_isrc("US-RC176-07839").expect("partial alt");
    assert_eq!(v.as_slice(), b"USRC17607839");
}

#[test]
fn isrc_lowercase_normalises() {
    let v = parse_isrc("usrc17607839").expect("lowercase");
    assert_eq!(v.as_slice(), b"USRC17607839");
}

#[test]
fn isrc_trim() {
    let v = parse_isrc("  USRC17607839  ").expect("padded");
    assert_eq!(v.as_slice(), b"USRC17607839");
}

#[test]
fn isrc_pattern_mismatch_too_short() {
    assert_eq!(parse_isrc("USRC1760783"), Err(ParseError::PatternMismatch));
}

#[test]
fn isrc_pattern_mismatch_too_long() {
    assert_eq!(parse_isrc("USRC176078390"), Err(ParseError::PatternMismatch));
}

#[test]
fn isrc_pattern_mismatch_bad_country() {
    assert_eq!(parse_isrc("12RC17607839"), Err(ParseError::PatternMismatch));
}

#[test]
fn isrc_pattern_mismatch_bad_year() {
    assert_eq!(parse_isrc("USRC1A607839"), Err(ParseError::PatternMismatch));
}

#[test]
fn isrc_pattern_mismatch_bad_designation() {
    assert_eq!(parse_isrc("USRC1760783A"), Err(ParseError::PatternMismatch));
}

#[test]
fn isrc_pattern_mismatch_empty() {
    assert_eq!(parse_isrc(""), Err(ParseError::PatternMismatch));
}

#[test]
fn upc_canonical_round_trips() {
    assert_eq!(parse_upc("036000291452").unwrap().as_slice(), b"036000291452");
    assert_eq!(parse_upc("4006381333931").unwrap().as_slice(), b"4006381333931");
}

#[test]
fn upc_strips_separators_and_whitespace() {
    assert_eq!(parse_upc("0-36000-29145-2").unwrap().as_slice(), b"036000291452");
    assert_eq!(parse_upc(" 4 006381 333931 ").unwrap().as_slice(), b"4006381333931");
}

#[test]
fn upc_pattern_mismatch() {
    assert_eq!(parse_upc("03600029145"), Err(ParseError::PatternMismatch));
    assert_eq!(parse_upc("40063813339311"), Err(ParseError::PatternMismatch));
    assert_eq!(parse_upc("03600029145X"), Err(ParseError::PatternMismatch));
    assert_eq!(parse_upc(""), Err(ParseError::PatternMismatch));
}

#[test]
fn ipn_accepts_eight_digits_and_trims() {
    assert_eq!(parse_ipn("12345678").unwrap().as_slice(), b"12345678");
    assert_eq!(parse_ipn("  00000001 ").unwrap().as_slice(), b"00000001");
}

#[test]
fn ipn_pattern_mismatch() {
    assert_eq!(parse_ipn("1234567"), Err(ParseError::PatternMismatch));
    assert_eq!(parse_ipn("123456789"), Err(ParseError::PatternMismatch));
    assert_eq!(parse_ipn("1234567A"), Err(ParseError::PatternMismatch));
    assert_eq!(parse_ipn(""), Err(ParseError::PatternMismatch));
}

#[test]
fn parsed_identifiers_pass_format_validation() {
    assert!(validate_iswc_format(parse_iswc("t-034.524.680-1").unwrap().as_slice()).is_ok());
    assert!(validate_isni_format(parse_isni("0000 0001 2103 268x").unwrap().as_slice()).is_ok());
    assert!(validate_ipi_format(parse_ipi("I-12345678901").unwrap().as_slice()).is_ok());
    assert!(validate_isrc_format(parse_isrc("us-rc1-76-07839").unwrap().as_slice()).is_ok());
    assert!(validate_upc_format(parse_upc("0 36000 29145 2").unwrap().as_slice()).is_ok());
}

#[test]
fn unicode_whitespace_is_trimmed() {
    // U+3000 IDEOGRAPHIC SPACE surrounds the code.
    let v = parse_iswc("\u{3000}T0345246801\u{3000}").expect("unicode padding");
    assert_eq!(v.as_slice(), b"T0345246801");
}

#[test]
fn parse_error_messages_are_distinct() {
    assert_ne!(ParseError::PatternMismatch.message(), ParseError::OutOfBounds.message());
}

#[test]
fn iswc_output_reparses_to_itself() {
    for raw in ["T-034.524.680-1", " t0345246801 ", "T-345246800-8"] {
        let v = parse_iswc(raw).expect("accepted");
        let text = std::str::from_utf8(v.as_slice()).expect("ascii");
        assert_eq!(parse_iswc(text).unwrap().as_slice(), v.as_slice(), "{raw}");
    }
}

#[test]
fn iswc_non_ascii_digits_are_out_of_bounds() {
    assert_eq!(parse_iswc("T-034.524.680-\u{661}"), Err(ParseError::OutOfBounds));
    assert_eq!(parse_iswc("T\u{660}345246801"), Err(ParseError::OutOfBounds));
}

#[test]
fn unicode_white_space_is_trimmed() {
    let v = parse_iswc("\u{3000}T0345246801\u{85}").expect("White_Space trimmed");
    assert_eq!(v.as_slice(), b"T0345246801");
    let v = parse_isni("0000\u{2028}0001\u{a0}2103\u{2009}2683").expect("White_Space separators");
    assert_eq!(v.as_slice(), b"0000000121032683");
    assert_eq!(parse_iswc("\u{200b}T0345246801"), Err(ParseError::PatternMismatch));
}
