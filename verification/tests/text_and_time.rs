use azapptoolkit_views::text::{
    any_same, contains_ignore_case, count, has_char, has_prefix,
    has_substring, is_blank, is_white, join, long_enough, number,
    parse_lines, parse_number, same, search_needle, to_uris, trim, trimmed_or_none,
};
use azapptoolkit_views::time::{
    days_until, fmt_date, plural_text, relative_time, signed_number, Timestamp, FIRST_SECOND,
    LAST_SECOND,
};
use chrono::{DateTime, TimeZone, Utc};

fn strings(v: &[&str]) -> Vec<String> {
    v.iter().map(|s| s.to_string()).collect()
}

#[test]
fn texts_compare_as_in_the_standard_library() {
    let texts = ["", "a", "ab", "ba", "aab", "abab", "é", "aé", "éa", "a\u{0}b"];
    for a in texts {
        for b in texts {
            assert_eq!(same(a, b), a == b, "{a:?} {b:?}");
            assert_eq!(has_prefix(a, b), a.starts_with(b), "{a:?} {b:?}");
            assert_eq!(has_substring(a, b), a.contains(b), "{a:?} {b:?}");
        }
    }
}

#[test]
fn a_search_is_compared_trimmed_and_in_lower_case() {
    assert_eq!(search_needle("  PayRoll\t"), "payroll");
    assert_eq!(search_needle("   "), "");
}

#[test]
fn white_space_is_that_of_the_standard_library() {
    for n in 0..=0x10ffff_u32 {
        if let Some(c) = char::from_u32(n) {
            assert_eq!(is_white(c), c.is_whitespace(), "U+{n:04X}");
        }
    }
}

#[test]
fn trimming_agrees_with_the_standard_library() {
    for s in ["", " ", "a", "  a b\t", "\u{a0}x\u{3000}", "\u{2028}\u{2029}", "ü ", "\r\nx\r\n"] {
        assert_eq!(trim(s), s.trim());
        assert_eq!(is_blank(s), s.trim().is_empty());
        assert_eq!(trimmed_or_none(s).is_none(), s.trim().is_empty());
    }
    assert_eq!(trimmed_or_none(" x "), Some("x".to_string()));
}

#[test]
fn lines_are_trimmed_and_blank_ones_dropped() {
    assert_eq!(parse_lines(" a \r\n\r\n\tb\nc"), strings(&["a", "b", "c"]));
    assert!(parse_lines("\n \n").is_empty());
    assert!(parse_lines("").is_empty());
    assert_eq!(to_uris(&strings(&[" x ", "", "  ", "y"])), strings(&["x", "y"]));
}

#[test]
fn numbers_are_read_as_the_standard_library_reads_them() {
    for s in [
        "0", "7", "+7", "007", "", "+", "-1", "1a", " 1", "18446744073709551615",
        "18446744073709551616", "99999999999999999999999", "++1", "١",
    ] {
        assert_eq!(parse_number(s), s.parse::<u64>().ok(), "{s:?}");
    }
}

#[test]
fn numbers_are_written_as_the_standard_library_writes_them() {
    for n in [0_u64, 9, 10, 42, 100, 1_234_567_890, u64::MAX] {
        assert_eq!(number(n), n.to_string());
        assert_eq!(parse_number(&number(n)), Some(n));
    }
    assert_eq!(count(301), "301");
    for n in [0_i64, -1, 5, -40, i64::MAX, i64::MIN] {
        assert_eq!(signed_number(n), n.to_string());
    }
}

#[test]
fn small_helpers() {
    assert_eq!(join(&strings(&["a", "b", "c"]), ", "), "a, b, c");
    assert_eq!(join(&strings(&["a"]), ", "), "a");
    assert_eq!(join(&strings(&[]), ", "), "");
    assert!(any_same(&strings(&["a", "b"]), "b"));
    assert!(!any_same(&strings(&["a", "b"]), "B"));
    assert!(has_char("a@b", '@'));
    assert!(!has_char("ab", '@'));
    assert!(contains_ignore_case("Payroll API", "roll a"));
    assert!(!contains_ignore_case("Payroll API", "ROLL"));
    assert!(contains_ignore_case("ΣΊΣΥΦΟΣ", "σίσυφος"));
    assert_eq!(plural_text(1), "");
    assert_eq!(plural_text(0), "s");
}

#[test]
fn a_query_is_measured_in_bytes() {
    for s in ["", "a", " a ", "ab", "ü", "越", " a b "] {
        assert_eq!(long_enough(s), s.trim().len() >= 2, "{s:?}");
    }
}

fn at(t: DateTime<Utc>) -> Timestamp {
    Timestamp::new(t.timestamp(), t.timestamp_subsec_nanos()).unwrap()
}

#[test]
fn the_calendar_has_ends() {
    assert!(Timestamp::new(FIRST_SECOND, 0).is_some());
    assert!(Timestamp::new(FIRST_SECOND - 1, 0).is_none());
    assert!(Timestamp::new(LAST_SECOND, 999_999_999).is_some());
    assert!(Timestamp::new(LAST_SECOND + 1, 0).is_none());
    assert!(Timestamp::new(0, 1_000_000_000).is_none());
    // The whole range prints and can be subtracted.
    let first = Timestamp::new(FIRST_SECOND, 0).unwrap();
    let last = Timestamp::new(LAST_SECOND, 999_999_999).unwrap();
    assert!(!fmt_date(Some(first)).is_empty());
    assert!(!fmt_date(Some(last)).is_empty());
    assert!(days_until(first, last) > 0);
    assert!(days_until(last, first) < 0);
}

#[test]
fn days_are_whole_and_drop_the_fraction() {
    let now = Utc.with_ymd_and_hms(2026, 9, 2, 12, 0, 0).unwrap();
    for secs in [0, 1, 86_399, 86_400, 86_401, -1, -86_399, -86_400, -86_401, 30 * 86_400 - 1] {
        let end = now + chrono::Duration::seconds(secs);
        assert_eq!(days_until(at(now), at(end)), (end - now).num_days(), "{secs}");
        assert_eq!(at(now).not_after(at(end)), now <= end);
    }
    let half = now + chrono::Duration::nanoseconds(-1);
    assert_eq!(days_until(at(now), at(half)), 0);
}

#[test]
fn dates_print_as_the_calendar_has_them() {
    let t = Utc.with_ymd_and_hms(2024, 2, 29, 23, 59, 59).unwrap();
    assert_eq!(fmt_date(Some(at(t))), "2024-02-29");
    assert_eq!(fmt_date(None), "—");
    assert_eq!(at(t).day(), t.timestamp().div_euclid(86_400));
    let before = Utc.with_ymd_and_hms(1969, 12, 31, 23, 0, 0).unwrap();
    assert_eq!(at(before).day(), -1);
}

#[test]
fn the_past_is_told_in_the_largest_unit() {
    let now = Utc.with_ymd_and_hms(2026, 9, 2, 12, 0, 0).unwrap();
    let ago = |secs: i64| relative_time(at(now), at(now - chrono::Duration::seconds(secs)));
    assert_eq!(ago(0), "just now");
    assert_eq!(ago(59), "just now");
    assert_eq!(ago(60), "1 minute ago");
    assert_eq!(ago(3_599), "59 minutes ago");
    assert_eq!(ago(3_600), "1 hour ago");
    assert_eq!(ago(86_399), "23 hours ago");
    assert_eq!(ago(86_400), "1 day ago");
    assert_eq!(ago(3 * 86_400), "3 days ago");
}
