use midds::checksum::{
    verify_ipi_checksum, verify_isni_checksum, verify_isrc_checksum, verify_iswc_checksum,
    verify_upc_checksum, CheckResult,
};
use midds::{Ipi, Isni, Isrc, Iswc, Upc};

fn iswc(raw: &[u8]) -> Iswc {
    Iswc::try_new(raw.to_vec()).expect("iswc bound")
}

fn isni(raw: &[u8]) -> Isni {
    Isni::try_new(raw.to_vec()).expect("isni bound")
}

fn ipi(raw: &[u8]) -> Ipi {
    Ipi::try_new(raw.to_vec()).expect("ipi bound")
}

fn isrc(raw: &[u8]) -> Isrc {
    Isrc::try_new(raw.to_vec()).expect("isrc bound")
}

fn upc(raw: &[u8]) -> Upc {
    Upc::try_new(raw.to_vec()).expect("upc bound")
}

#[test]
fn checksum_iswc_pass() {
    assert_eq!(verify_iswc_checksum(&iswc(b"T0345246802")), CheckResult::Pass);
}

#[test]
fn iswc_fail() {
    assert_eq!(verify_iswc_checksum(&iswc(b"T0345246809")), CheckResult::Fail);
}

#[test]
fn iswc_not_applicable_when_short() {
    assert_eq!(verify_iswc_checksum(&iswc(b"X0345246802")), CheckResult::NotApplicable);
}

#[test]
fn checksum_isni_pass() {
    assert_eq!(verify_isni_checksum(&isni(b"0000000121032683")), CheckResult::Pass);
}

#[test]
fn isni_fail() {
    assert_eq!(verify_isni_checksum(&isni(b"0000000121032680")), CheckResult::Fail);
}

#[test]
fn isni_x_check_pass() {
    let mut found = None;
    'outer: for pad in [b'0', b'1', b'2', b'3', b'4', b'5', b'6', b'7', b'8', b'9'] {
        for tail in 0u8..=9 {
            let mut buf = [pad; 16];
            buf[14] = b'0' + tail;
            buf[15] = b'X';
            let mut r: u32 = 0;
            for &b in &buf[..15] {
                r = ((r + (b - b'0') as u32) * 2) % 11;
            }
            if (12 - r) % 11 == 10 {
                found = Some(buf);
                break 'outer;
            }
        }
    }
    let buf = found.expect("at least one MOD 11,2 check evaluates to X");
    assert_eq!(verify_isni_checksum(&isni(&buf)), CheckResult::Pass);
}

#[test]
fn checksum_ipi_pass() {
    assert_eq!(verify_ipi_checksum(&ipi(b"123456786")), CheckResult::Pass);
}

#[test]
fn ipi_fail() {
    assert_eq!(verify_ipi_checksum(&ipi(b"123456789")), CheckResult::Fail);
}

#[test]
fn ipi_not_applicable_when_too_short_to_be_meaningful() {
    assert_eq!(verify_ipi_checksum(&ipi(b"123A56786")), CheckResult::NotApplicable);
}

#[test]
fn isrc_pass_real_world_examples() {
    for raw in [
        b"USRC17607839" as &[u8],
        b"GBAYE0601477",
        b"FR6V82050001",
        b"JPK001500001",
        b"DEAA51900001",
    ] {
        assert_eq!(verify_isrc_checksum(&isrc(raw)), CheckResult::Pass, "{:?}", raw);
    }
}

#[test]
fn isrc_not_applicable_bad_country_code() {
    assert_eq!(verify_isrc_checksum(&isrc(b"1SRC17607839")), CheckResult::NotApplicable);
}

#[test]
fn isrc_not_applicable_lowercase_country() {
    assert_eq!(verify_isrc_checksum(&isrc(b"usRC17607839")), CheckResult::NotApplicable);
}

#[test]
fn isrc_not_applicable_bad_year() {
    assert_eq!(verify_isrc_checksum(&isrc(b"USRC1A607839")), CheckResult::NotApplicable);
}

#[test]
fn isrc_not_applicable_bad_designation() {
    assert_eq!(verify_isrc_checksum(&isrc(b"USRC1760783A")), CheckResult::NotApplicable);
}

#[test]
fn isrc_not_applicable_lowercase_registrant() {
    assert_eq!(verify_isrc_checksum(&isrc(b"USrC17607839")), CheckResult::NotApplicable);
}

#[test]
fn upc_pass_upc_a_and_ean_13() {
    assert_eq!(verify_upc_checksum(&upc(b"036000291452")), CheckResult::Pass);
    assert_eq!(verify_upc_checksum(&upc(b"4006381333931")), CheckResult::Pass);
}

#[test]
fn upc_fail_wrong_check_digit() {
    assert_eq!(verify_upc_checksum(&upc(b"036000291453")), CheckResult::Fail);
    assert_eq!(verify_upc_checksum(&upc(b"4006381333930")), CheckResult::Fail);
}

#[test]
fn upc_not_applicable_bad_shape() {
    assert_eq!(verify_upc_checksum(&upc(b"03600029145")), CheckResult::NotApplicable);
    assert_eq!(verify_upc_checksum(&upc(b"03600029145X")), CheckResult::NotApplicable);
}

#[test]
fn iswc_fail_for_every_wrong_check_digit() {
    for d in b'0'..=b'9' {
        let mut raw = *b"T0345246802";
        raw[10] = d;
        let expected = if d == b'2' { CheckResult::Pass } else { CheckResult::Fail };
        assert_eq!(verify_iswc_checksum(&iswc(&raw)), expected);
    }
}

#[test]
fn ipi_eleven_digit_check_weights_ten_body_digits() {
    // Body 1234567890 weighted 1..10: 285 -> check digit 5.
    assert_eq!(verify_ipi_checksum(&ipi(b"12345678905")), CheckResult::Pass);
    assert_eq!(verify_ipi_checksum(&ipi(b"12345678906")), CheckResult::Fail);
}
