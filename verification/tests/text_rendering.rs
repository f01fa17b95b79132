//! Text utilities, decimal rendering, timestamp rendering and the full
//! summary string.

use fxbridge::post::Post;
use fxbridge::summary::{build_summary, format_timestamp};
use fxbridge::text::{after_last, contains_substr, ends_with_str, eq_ignore_ascii_lower, i64_to_dec, str_eq, u64_to_dec};

#[test]
fn substring_search_finds_post_marker() {
    assert!(contains_substr("/user/status/123", "/status/"));
    assert!(!contains_substr("/user/profile", "/status/"));
    assert!(contains_substr("abc", ""));
    assert!(!contains_substr("ab", "abc"));
}

#[test]
fn suffix_test() {
    assert!(ends_with_str("video.mp4", ".mp4"));
    assert!(!ends_with_str("video.mp4x", ".mp4"));
    assert!(!ends_with_str("p4", ".mp4"));
}

#[test]
fn string_equality() {
    assert!(str_eq("https", "https"));
    assert!(!str_eq("https", "http"));
    assert!(!str_eq("", "x"));
}

#[test]
fn case_insensitive_hostname_match() {
    assert!(eq_ignore_ascii_lower("X.COM", "x.com"));
    assert!(eq_ignore_ascii_lower("x.com", "x.com"));
    assert!(!eq_ignore_ascii_lower("y.com", "x.com"));
    assert!(!eq_ignore_ascii_lower("x.com.", "x.com"));
}

#[test]
fn filename_from_path() {
    assert_eq!(after_last("/2/video/abc.mp4", '/'), "abc.mp4");
    assert_eq!(after_last("abc.tar.gz", '.'), "gz");
    assert_eq!(after_last("noslash", '/'), "noslash");
    assert_eq!(after_last("trailing/", '/'), "");
}

#[test]
fn decimal_rendering() {
    assert_eq!(u64_to_dec(0), "0");
    assert_eq!(u64_to_dec(7), "7");
    assert_eq!(u64_to_dec(1234567890), "1234567890");
    assert_eq!(u64_to_dec(u64::MAX), "18446744073709551615");
    assert_eq!(i64_to_dec(-42), "-42");
    assert_eq!(i64_to_dec(0), "0");
    assert_eq!(i64_to_dec(i64::MIN), "-9223372036854775808");
}

#[test]
fn timestamp_rendering_epoch() {
    assert_eq!(format_timestamp(0), "1970-01-01 00:00:00");
}

#[test]
fn timestamp_rendering_recent() {
    assert_eq!(format_timestamp(1700000000), "2023-11-14 22:13:20");
}

#[test]
fn timestamp_rendering_leap_day() {
    assert_eq!(format_timestamp(1709164800), "2024-02-29 00:00:00");
}

#[test]
fn timestamp_rendering_year_end() {
    assert_eq!(format_timestamp(1704067199), "2023-12-31 23:59:59");
}

fn sample_post(media: Option<fxbridge::post::MediaSet>) -> Post {
    Post {
        id: "123".to_string(),
        author_name: "Alice".to_string(),
        author_handle: "alice".to_string(),
        text: "hello".to_string(),
        replies: 1,
        retweets: 2,
        likes: 3,
        views: 4,
        created_timestamp: 1700000000,
        media,
    }
}

#[test]
fn summary_exact_rendering() {
    let p = sample_post(None);
    let s = build_summary(&p);
    assert_eq!(
        s,
        "Alice (@alice)\nhello\n\u{1f4ac}1 \u{267b}\u{fe0f}2 \u{2764}\u{fe0f}3 \u{1f441}\u{fe0f}4\n2023-11-14 22:13:20"
    );
}
