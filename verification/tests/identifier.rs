use midds::format_error::MiddsFormatError;
use midds::midds::Midds;
use midds::musical_work::MusicalWork;
use midds::recording::Recording;
use midds::release::Release;
use midds::{
    validate_ipi_format, validate_ipn_format, validate_isni_format, validate_isrc_format,
    validate_iswc_format, validate_offchain_hash, validate_upc_format,
};

#[test]
fn identifier_iswc_pass() {
    assert!(validate_iswc_format(b"T1234567890").is_ok());
    assert!(validate_iswc_format(b"T0000000000").is_ok());
}

#[test]
fn iswc_wrong_length() {
    assert_eq!(validate_iswc_format(b"T123"), Err(MiddsFormatError::OutOfBounds));
    assert_eq!(validate_iswc_format(b"T12345678901"), Err(MiddsFormatError::OutOfBounds));
    assert_eq!(validate_iswc_format(b""), Err(MiddsFormatError::OutOfBounds));
}

#[test]
fn iswc_missing_t_prefix() {
    assert_eq!(
        validate_iswc_format(b"X1234567890"),
        Err(MiddsFormatError::InvalidIdentifierStructure),
    );
}

#[test]
fn iswc_non_digit_payload() {
    assert_eq!(validate_iswc_format(b"T12345A7890"), Err(MiddsFormatError::InvalidCharset));
}

#[test]
fn identifier_isni_pass() {
    assert!(validate_isni_format(b"0000000121032683").is_ok());
    assert!(validate_isni_format(b"000000012103268X").is_ok());
}

#[test]
fn isni_wrong_length() {
    assert_eq!(validate_isni_format(b"123"), Err(MiddsFormatError::OutOfBounds));
    assert_eq!(validate_isni_format(b"00000001210326830"), Err(MiddsFormatError::OutOfBounds));
}

#[test]
fn isni_invalid_charset() {
    assert_eq!(validate_isni_format(b"00000001A1032683"), Err(MiddsFormatError::InvalidCharset));
    assert_eq!(validate_isni_format(b"000000012103268Y"), Err(MiddsFormatError::InvalidCharset));
}

#[test]
fn identifier_ipi_pass() {
    assert!(validate_ipi_format(b"123456789").is_ok());
    assert!(validate_ipi_format(b"1234567890").is_ok());
    assert!(validate_ipi_format(b"12345678901").is_ok());
}

#[test]
fn ipi_wrong_length() {
    assert_eq!(validate_ipi_format(b"12345678"), Err(MiddsFormatError::OutOfBounds));
    assert_eq!(validate_ipi_format(b"123456789012"), Err(MiddsFormatError::OutOfBounds));
}

#[test]
fn ipi_invalid_charset() {
    assert_eq!(validate_ipi_format(b"12345A789"), Err(MiddsFormatError::InvalidCharset));
}

#[test]
fn ipn_pass() {
    assert!(validate_ipn_format(b"12345678").is_ok());
    assert!(validate_ipn_format(b"00000000").is_ok());
}

#[test]
fn ipn_wrong_length() {
    assert_eq!(validate_ipn_format(b"1234567"), Err(MiddsFormatError::OutOfBounds));
    assert_eq!(validate_ipn_format(b"123456789"), Err(MiddsFormatError::OutOfBounds));
    assert_eq!(validate_ipn_format(b""), Err(MiddsFormatError::OutOfBounds));
}

#[test]
fn ipn_invalid_charset() {
    assert_eq!(validate_ipn_format(b"1234567A"), Err(MiddsFormatError::InvalidCharset));
}

#[test]
fn isrc_pass() {
    assert!(validate_isrc_format(b"USRC17607839").is_ok());
    assert!(validate_isrc_format(b"GBAYE0601477").is_ok());
    assert!(validate_isrc_format(b"FR6V82050001").is_ok());
}

#[test]
fn isrc_wrong_length() {
    assert_eq!(validate_isrc_format(b"US"), Err(MiddsFormatError::OutOfBounds));
    assert_eq!(validate_isrc_format(b"USRC176078390"), Err(MiddsFormatError::OutOfBounds));
}

#[test]
fn isrc_invalid_country_code() {
    assert_eq!(validate_isrc_format(b"u5RC17607839"), Err(MiddsFormatError::InvalidCharset));
}

#[test]
fn isrc_invalid_year_or_designation() {
    assert_eq!(validate_isrc_format(b"USRC1760A839"), Err(MiddsFormatError::InvalidCharset));
}

#[test]
fn upc_pass() {
    assert!(validate_upc_format(b"036000291452").is_ok());
    assert!(validate_upc_format(b"4006381333931").is_ok());
    assert!(validate_upc_format(b"000000000000").is_ok());
}

#[test]
fn upc_wrong_length() {
    assert_eq!(validate_upc_format(b"03600029145"), Err(MiddsFormatError::OutOfBounds));
    assert_eq!(validate_upc_format(b"40063813339311"), Err(MiddsFormatError::OutOfBounds));
    assert_eq!(validate_upc_format(b""), Err(MiddsFormatError::OutOfBounds));
}

#[test]
fn upc_invalid_charset() {
    assert_eq!(validate_upc_format(b"03600029145X"), Err(MiddsFormatError::InvalidCharset));
    assert_eq!(validate_upc_format(b"40063813339A"), Err(MiddsFormatError::InvalidCharset));
}

#[test]
fn musical_work_kind_is_pascal_case_singular() {
    assert_eq!(<MusicalWork as Midds>::KIND, "MusicalWork");
}

#[test]
fn recording_and_release_kinds_are_pascal_case_singular() {
    assert_eq!(<Recording as Midds>::KIND, "Recording");
    assert_eq!(<Release as Midds>::KIND, "Release");
}

#[test]
fn offchain_hash_rejects_empty_and_oversized() {
    assert!(validate_offchain_hash(b"bafybeigdyrzt").is_ok());
    assert_eq!(validate_offchain_hash(b""), Err(MiddsFormatError::EmptyMandatoryField));
}

#[test]
fn format_error_messages_are_distinct() {
    let all = [
        MiddsFormatError::InvalidIdentifierStructure,
        MiddsFormatError::InvalidCharset,
        MiddsFormatError::OutOfBounds,
        MiddsFormatError::EmptyMandatoryField,
        MiddsFormatError::DateInconsistency,
        MiddsFormatError::CrossFieldInconsistency,
    ];
    for (i, a) in all.iter().enumerate() {
        for (j, b) in all.iter().enumerate() {
            if i != j {
                assert_ne!(a.message(), b.message());
            }
        }
    }
}
