//! Identifier validation and version comparison.

use kp_sync::ids::is_valid_kp_id;
use kp_sync::version::{parse_version, version_older_than};

#[test]
fn short_alphanumeric_keys() {
    assert!(is_valid_kp_id("xAd8"));
    assert!(is_valid_kp_id("abc"));
    assert!(is_valid_kp_id("A1b2C3d4E5f6G7h8I"));
}

#[test]
fn account_names() {
    assert!(is_valid_kp_id("jennah.1234"));
    assert!(is_valid_kp_id("a.0000"));
    assert!(is_valid_kp_id("longeraccountname.9999"));
}

#[test]
fn rejected_identifiers() {
    assert!(!is_valid_kp_id(""));
    assert!(!is_valid_kp_id("ab"));
    assert!(!is_valid_kp_id("abcdefghijklmnopqr"));
    assert!(!is_valid_kp_id("abc.123"));
    assert!(!is_valid_kp_id("abc.12345"));
    assert!(!is_valid_kp_id(".1234"));
    assert!(!is_valid_kp_id("abc!"));
    assert!(!is_valid_kp_id("jennah.12a4"));
}

#[test]
fn version_parsing() {
    assert_eq!(parse_version("1.2.3"), Some((1, 2, 3)));
    assert_eq!(parse_version("0.9.6"), Some((0, 9, 6)));
    assert_eq!(parse_version("10.20.30"), Some((10, 20, 30)));
    assert_eq!(parse_version("1.2"), None);
    assert_eq!(parse_version("1.2.3.4"), None);
    assert_eq!(parse_version("abc"), None);
    assert_eq!(parse_version("1..3"), None);
    assert_eq!(parse_version(""), None);
    assert_eq!(parse_version("1.2.x"), None);
}

#[test]
fn version_ordering() {
    assert!(version_older_than("0.9.5", "0.9.6"));
    assert!(version_older_than("0.9.6", "1.0.0"));
    assert!(version_older_than("1.0.0", "1.1.0"));
    assert!(!version_older_than("0.9.6", "0.9.6"));
    assert!(!version_older_than("1.0.0", "0.9.6"));
    assert!(!version_older_than("not-a-version", "1.0.0"));
    assert!(!version_older_than("1.0.0", "not-a-version"));
}
