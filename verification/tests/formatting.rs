//! Duration and title formatting behaviour.

use voicequeue::duration::{format_duration, format_duration_live, parse_duration};
use voicequeue::text::{format_with_url, remove_md_characters, truncate_title};

#[test]
fn format_duration_exact_values() {
    assert_eq!(format_duration(0), "0:00");
    assert_eq!(format_duration(5), "0:05");
    assert_eq!(format_duration(59), "0:59");
    assert_eq!(format_duration(60), "1:00");
    assert_eq!(format_duration(125), "2:05");
    assert_eq!(format_duration(3599), "59:59");
    assert_eq!(format_duration(3600), "1:00:00");
    assert_eq!(format_duration(3661), "1:01:01");
    assert_eq!(format_duration(7325), "2:02:05");
    assert_eq!(format_duration(86399), "23:59:59");
    assert_eq!(format_duration(90000), "25:00:00");
    assert_eq!(format_duration(360000), "100:00:00");
}

#[test]
fn format_parse_round_trip_is_stable() {
    for d in [
        0u64,
        1,
        59,
        60,
        61,
        125,
        3599,
        3600,
        3661,
        86399,
        86400,
        123456789,
        u64::MAX,
    ] {
        let formatted = format_duration(d);
        let reparsed = parse_duration(formatted.as_str()).expect("formatted duration must parse");
        assert_eq!(format_duration(reparsed), formatted);
        assert_eq!(reparsed, d);
    }
}

#[test]
fn parse_duration_accepts_only_canonical_strings() {
    assert_eq!(parse_duration("2:05"), Some(125));
    assert_eq!(parse_duration("0:00"), Some(0));
    assert_eq!(parse_duration("59:59"), Some(3599));
    assert_eq!(parse_duration("1:00:00"), Some(3600));
    assert_eq!(parse_duration(""), None);
    assert_eq!(parse_duration("1:5"), None);
    assert_eq!(parse_duration("01:00"), None);
    assert_eq!(parse_duration("1:60"), None);
    assert_eq!(parse_duration("60:00"), None);
    assert_eq!(parse_duration("0:00:00"), None);
    assert_eq!(parse_duration("1:000"), None);
    assert_eq!(parse_duration("1:00:00:00"), None);
    assert_eq!(parse_duration("abc"), None);
    assert_eq!(parse_duration(":00"), None);
    assert_eq!(parse_duration("2:0x"), None);
}

#[test]
fn absent_duration_is_live_for_any_title() {
    for title in ["", "some title", "LIVE", "a*b_c"] {
        let (text, live) = format_duration_live(None, title);
        assert_eq!(text, "LIVE");
        assert!(live);
    }
}

#[test]
fn zero_duration_sentinel_is_live() {
    let (text, live) = format_duration_live(Some(0), "t");
    assert_eq!(text, "LIVE");
    assert!(live);
}

#[test]
fn fixed_duration_formats_and_is_not_live() {
    let (text, live) = format_duration_live(Some(125), "t");
    assert_eq!(text, "2:05");
    assert!(!live);
}

#[test]
fn markup_glyphs_are_stripped() {
    assert_eq!(remove_md_characters("a*b_c~d`e"), "abcde");
    assert_eq!(remove_md_characters("**bold** _i_ ~s~ `c`"), "bold i s c");
    assert_eq!(remove_md_characters("plain title"), "plain title");
    assert_eq!(remove_md_characters(""), "");
}

#[test]
fn long_titles_truncate_on_character_boundaries() {
    let long: String = "x".repeat(85);
    let cut = truncate_title(long.as_str(), 70);
    assert_eq!(cut.chars().count(), 70);
    assert_eq!(cut, format!("{}...", "x".repeat(67)));
    let cut40 = truncate_title(long.as_str(), 40);
    assert_eq!(cut40, format!("{}...", "x".repeat(37)));

    let multibyte: String = "ü".repeat(85);
    let cut_mb = truncate_title(multibyte.as_str(), 70);
    assert_eq!(cut_mb.chars().count(), 70);
    assert_eq!(cut_mb, format!("{}...", "ü".repeat(67)));
}

#[test]
fn short_titles_pass_through_untruncated() {
    let exact: String = "y".repeat(70);
    assert_eq!(truncate_title(exact.as_str(), 70), exact);
    assert_eq!(truncate_title("short", 40), "short");
}

#[test]
fn titles_link_to_their_url() {
    assert_eq!(
        format_with_url("song".to_string(), Some("https://example.invalid/v".to_string())),
        "[song](https://example.invalid/v)"
    );
    assert_eq!(format_with_url("song".to_string(), None), "song");
}
