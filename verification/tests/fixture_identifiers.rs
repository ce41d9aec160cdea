use midds::fixtures::identifiers::{
    gtin_check_digit, ipi_from_stem, ipi_random, ipn_from_stem, ipn_random, isni_from_body,
    isni_random, isrc_for_index, isrc_random, iswc_for_index, iswc_from_work_code, upc_for_index,
    upc_random,
};
use midds::fixtures::seeded_rng;
use midds::checksum::{
    verify_ipi_checksum, verify_isni_checksum, verify_iswc_checksum, verify_upc_checksum,
    CheckResult,
};
use midds::{
    validate_ipi_format, validate_ipn_format, validate_isni_format, validate_isrc_format,
    validate_iswc_format, validate_upc_format,
};

#[test]
fn iswc_from_work_code_is_structurally_valid() {
    for code in [0u32, 1, 999_999_999, 345_246_801, 12_345_678] {
        let iswc = iswc_from_work_code(code);
        assert_eq!(iswc.len(), 11);
        assert!(validate_iswc_format(iswc.as_slice()).is_ok());
    }
}

#[test]
fn iswc_from_work_code_known_check_digit() {
    let iswc = iswc_from_work_code(34_524_680);
    assert_eq!(iswc.as_slice(), b"T0345246802");
}

#[test]
fn iswc_for_index_is_unique_in_range() {
    let mut seen = std::collections::HashSet::new();
    for i in 0..2048u32 {
        assert!(seen.insert(iswc_for_index(i)));
    }
}

#[test]
fn ipi_from_stem_for_each_supported_length() {
    for len in 9..=11usize {
        let ipi = ipi_from_stem(123_456_789, len);
        assert_eq!(ipi.len(), len);
        assert!(validate_ipi_format(ipi.as_slice()).is_ok());
    }
}

#[test]
fn ipi_known_check_digit() {
    let ipi = ipi_from_stem(123_456_789, 9);
    assert_eq!(ipi.as_slice(), b"123456786");
}

#[test]
fn isni_from_body_is_structurally_valid() {
    let isni = isni_from_body([0; 15]);
    assert_eq!(isni.len(), 16);
    assert!(validate_isni_format(isni.as_slice()).is_ok());
}

#[test]
fn isni_known_value() {
    let isni = isni_from_body([0, 0, 0, 0, 0, 0, 0, 1, 2, 1, 0, 3, 2, 6, 8]);
    assert_eq!(isni.as_slice(), b"0000000121032683");
}

#[test]
fn random_ids_validate() {
    let mut rng = seeded_rng(0xDEAD_BEEF);
    for _ in 0..32 {
        assert!(validate_ipi_format(ipi_random(&mut rng).as_slice()).is_ok());
        assert!(validate_ipn_format(ipn_random(&mut rng).as_slice()).is_ok());
        assert!(validate_isni_format(isni_random(&mut rng).as_slice()).is_ok());
        assert!(validate_isrc_format(isrc_random(&mut rng).as_slice()).is_ok());
        assert!(validate_upc_format(upc_random(&mut rng).as_slice()).is_ok());
    }
}

#[test]
fn ipn_from_stem_is_structurally_valid() {
    for stem in [0u64, 1, 12_345, 99_999_999_999, u64::MAX] {
        let ipn = ipn_from_stem(stem);
        assert_eq!(ipn.len(), 8);
        assert!(validate_ipn_format(ipn.as_slice()).is_ok());
    }
}

#[test]
fn upc_for_index_is_structurally_valid() {
    for i in [0u32, 1, 99_999, 1_234_567, u32::MAX] {
        let upc = upc_for_index(i);
        assert_eq!(upc.len(), 13);
        assert!(validate_upc_format(upc.as_slice()).is_ok());
    }
}

#[test]
fn upc_for_index_is_unique_in_range() {
    let mut seen = std::collections::HashSet::new();
    for i in 0..2048u32 {
        assert!(seen.insert(upc_for_index(i)));
    }
}

#[test]
fn upc_known_check_digit() {
    assert_eq!(gtin_check_digit(&[4, 0, 0, 6, 3, 8, 1, 3, 3, 3, 9, 3]), 1);
    let upc = upc_for_index(12_345);
    assert_eq!(&upc.as_slice()[..12], b"000000012345");
    assert!(validate_upc_format(upc.as_slice()).is_ok());
}

#[test]
fn isrc_for_index_is_structurally_valid() {
    for i in [0u32, 1, 99_999, 1_234_567, u32::MAX / 2] {
        let isrc = isrc_for_index(i);
        assert_eq!(isrc.len(), 12);
        assert!(
            validate_isrc_format(isrc.as_slice()).is_ok(),
            "{:?}",
            core::str::from_utf8(isrc.as_slice()).unwrap_or("?"),
        );
    }
}

#[test]
fn generated_identifiers_pass_their_checksums() {
    let mut rng = seeded_rng(7);
    for i in 0..64u32 {
        assert_eq!(verify_iswc_checksum(&iswc_for_index(i)), CheckResult::Pass);
        assert_eq!(verify_upc_checksum(&upc_for_index(i)), CheckResult::Pass);
        assert_eq!(verify_ipi_checksum(&ipi_random(&mut rng)), CheckResult::Pass);
        assert_eq!(verify_isni_checksum(&isni_random(&mut rng)), CheckResult::Pass);
    }
}

#[test]
fn isrc_for_index_is_unique_in_range() {
    let mut seen = std::collections::HashSet::new();
    for i in 0..2048u32 {
        assert!(seen.insert(isrc_for_index(i)));
    }
}

#[test]
fn seeded_rng_is_deterministic() {
    let mut a = seeded_rng(42);
    let mut b = seeded_rng(42);
    for _ in 0..16 {
        assert_eq!(ipi_random(&mut a), ipi_random(&mut b));
    }
}

#[test]
fn gtin_check_digit_completes_a_passing_upc() {
    let data = [4u8, 0, 0, 6, 3, 8, 1, 3, 3, 3, 9, 3];
    let check = gtin_check_digit(&data);
    let mut bytes: Vec<u8> = data.iter().map(|d| b'0' + d).collect();
    bytes.push(b'0' + check);
    assert_eq!(bytes, b"4006381333931".to_vec());
    let upc = midds::Upc::try_new(bytes).expect("13 digits fit");
    assert_eq!(verify_upc_checksum(&upc), CheckResult::Pass);
}
