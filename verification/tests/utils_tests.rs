use slsk::constants::{ByteSize, DownloadStatus, Percentage, Token};
use slsk::utils::{
    bytes_to_hex, decimal_string, hex_lower_string, latin1_to_string, md5_digest, num_as_bytes,
    num_as_str,
};

#[test]
fn hex_dumps_are_upper_case_and_spaced() {
    assert_eq!(bytes_to_hex(&vec![0x01, 0xab, 0xff]), "01 AB FF ");
    assert_eq!(bytes_to_hex(&Vec::new()), "");
}

#[test]
fn lower_hex_has_no_spaces() {
    assert_eq!(hex_lower_string(&[0x0f, 0xa0]), "0fa0");
}

#[test]
fn latin1_maps_each_byte_to_its_code_point() {
    assert_eq!(latin1_to_string(&[b'a', 0xe9, 0xff]), "aéÿ");
    assert_eq!(latin1_to_string(&[]), "");
}

#[test]
fn md5_digests_known_values() {
    assert_eq!(md5_digest(b"hello"), "5d41402abc4b2a76b9719d911017c592");
    assert_eq!(md5_digest(b""), "d41d8cd98f00b204e9800998ecf8427e");
}

#[test]
fn decimal_strings() {
    assert_eq!(decimal_string(0), "0");
    assert_eq!(decimal_string(1234567890), "1234567890");
    assert_eq!(decimal_string(u64::MAX), "18446744073709551615");
}

#[test]
fn counts_are_grouped_by_thousands() {
    assert_eq!(num_as_str(0), "0");
    assert_eq!(num_as_str(999), "999");
    assert_eq!(num_as_str(1000), "1,000");
    assert_eq!(num_as_str(1234567), "1,234,567");
    assert_eq!(num_as_str(1000001), "1,000,001");
}

#[test]
fn byte_counts_use_the_nearest_decimal_unit() {
    assert_eq!(num_as_bytes(10000), "10.00 KB");
    assert_eq!(num_as_bytes(1_500_000), "1.50 MB");
    assert_eq!(ByteSize(10000).to_string(), "10.00 KB");
    assert_ne!(num_as_bytes(1500), "1500");
}

#[test]
fn byte_sizes_add() {
    assert_eq!(ByteSize(1).add(ByteSize(2)), ByteSize(3));
}

#[test]
fn statuses_percentages_and_tokens_print() {
    assert_eq!(DownloadStatus::Queued.str(), "Queued");
    assert_eq!(DownloadStatus::Downloading.to_string(), "Downloading");
    assert_eq!(DownloadStatus::Failed.to_string(), "Failed");
    assert_eq!(Percentage(42).to_string(), "42%");
    assert_eq!(Percentage(100).to_string(), "100%");
    assert_eq!(Token(4294967295).to_string(), "4294967295");
}
