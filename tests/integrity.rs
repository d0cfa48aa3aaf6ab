use curseforge_pack_downloader::error::DownloadError;
use curseforge_pack_downloader::integrity::{digest_matches, finish_validation, FileDigest};
use curseforge_pack_downloader::text::bytes_to_hex_string;

const FOX: &str = "The quick brown fox jumps over the lazy dog";
const FOX_MD5: &str = "9e107d9d372bb6826bd81d3542a419d6";

#[test]
fn hex_string_of_bytes() {
    assert_eq!(bytes_to_hex_string(&[0x00, 0xff, 0x1a, 0x09]), "00ff1a09");
    assert_eq!(bytes_to_hex_string(&[]), "");
}

#[test]
fn streamed_digest_matches_expected() {
    let mut d = FileDigest::new();
    for chunk in FOX.as_bytes().chunks(7) {
        d.update(chunk);
    }
    assert!(d.matches(FOX_MD5));
}

#[test]
fn digest_of_nothing() {
    let d = FileDigest::new();
    assert!(d.matches("d41d8cd98f00b204e9800998ecf8427e"));
}

#[test]
fn single_byte_mutation_fails_validation() {
    let mut bytes = FOX.as_bytes().to_vec();
    bytes[10] ^= 1;
    let mut d = FileDigest::new();
    d.update(&bytes);
    assert!(!d.matches(FOX_MD5));
}

#[test]
fn comparison_is_case_sensitive() {
    let mut d = FileDigest::new();
    d.update(b"hello");
    assert!(!d.matches("5D41402ABC4B2A76B9719D911017C592"));
    let mut d = FileDigest::new();
    d.update(b"hello");
    assert!(d.matches("5d41402abc4b2a76b9719d911017c592"));
}

#[test]
fn digest_matches_compares_hex() {
    assert!(digest_matches(&[0xab, 0x01], "ab01"));
    assert!(!digest_matches(&[0xab, 0x01], "ab02"));
    assert!(!digest_matches(&[0xab, 0x01], "AB01"));
}

#[test]
fn finish_validation_reports_mismatch() {
    let mut d = FileDigest::new();
    d.update(FOX.as_bytes());
    assert_eq!(finish_validation(d, FOX_MD5), Ok(()));
    let mut d = FileDigest::new();
    d.update(b"other");
    assert_eq!(finish_validation(d, FOX_MD5), Err(DownloadError::ValidationFailed));
}
