//! The character-sequence utilities: decimal rendering, substring search,
//! and lexicographic comparison.

use mcp_webcam::text::str_contains;
use mcp_webcam::text::str_contains_ci;
use mcp_webcam::text::str_eq;
use mcp_webcam::text::str_le;
use mcp_webcam::text::u64_to_string;

#[test]
fn decimal_rendering_is_exact() {
    assert_eq!(u64_to_string(0).as_str(), "0");
    assert_eq!(u64_to_string(7).as_str(), "7");
    assert_eq!(u64_to_string(105).as_str(), "105");
    assert_eq!(u64_to_string(4294967295).as_str(), "4294967295");
    assert_eq!(u64_to_string(u64::MAX).as_str(), "18446744073709551615");
}

#[test]
fn exact_search_is_case_sensitive() {
    assert!(str_contains("Content-Type: multipart/x-mixed-replace", "multipart"));
    assert!(!str_contains("MULTIPART", "multipart"));
    assert!(str_contains("abc", ""));
    assert!(!str_contains("ab", "abc"));
}

#[test]
fn case_insensitive_search_folds_ascii_only() {
    assert!(str_contains_ci("Content-Type: MULTIPART/X-Mixed-Replace", "multipart/x-mixed-replace"));
    assert!(str_contains_ci("MJPEG stream", "mjpeg"));
    assert!(!str_contains_ci("mjpg", "mjpeg"));
}

#[test]
fn lexicographic_order_is_by_code_point() {
    assert!(str_le("1.1.1.1", "2.2.2.2"));
    assert!(!str_le("2.2.2.2", "1.1.1.1"));
    assert!(str_le("abc", "abc"));
    assert!(str_le("ab", "abc"));
    assert!(!str_le("abd", "abc"));
}

#[test]
fn string_equality_compares_contents() {
    assert!(str_eq("abc", "abc"));
    assert!(!str_eq("abc", "abd"));
    assert!(!str_eq("abc", "ab"));
}
