use codex_plus_manager_native::clock::{current_utc_time, format_utc_time};
use codex_plus_manager_native::string_set::text_less;
use codex_plus_manager_native::format::{
    chars_of, digits_only, find_text, string_of, text_eq, trim_chars,
};

#[test]
fn refresh_time_is_stable_and_explicitly_utc() {
    assert_eq!(format_utc_time(3_661), "01:01:01 UTC");
    assert_eq!(format_utc_time(86_400), "00:00:00 UTC");
}

#[test]
fn utc_time_wraps_at_midnight_and_pads_each_field() {
    assert_eq!(format_utc_time(86_399), "23:59:59 UTC");
    assert_eq!(format_utc_time(86_400 * 3 + 45_296), "12:34:56 UTC");
    assert_eq!(format_utc_time(0), "00:00:00 UTC");
    let now = current_utc_time();
    assert_eq!(now.len(), 12);
    assert!(now.ends_with(" UTC"));
}

#[test]
fn digits_only_keeps_ascii_digits_in_order() {
    assert_eq!(digits_only("2x00 000".to_string()), "200000");
    assert_eq!(digits_only("abc".to_string()), "");
    assert_eq!(digits_only("١٢3".to_string()), "3");
}

#[test]
fn text_helpers_trim_search_and_compare() {
    let trimmed = trim_chars(&chars_of("  \tHello World \n"));
    assert_eq!(string_of(&trimmed), "Hello World");
    assert!(trim_chars(&chars_of(" \u{3000} ")).is_empty());
    assert!(find_text(&chars_of("session-title"), &chars_of("title")));
    assert!(!find_text(&chars_of("abc"), &chars_of("abcd")));
    assert!(find_text(&chars_of("abc"), &chars_of("")));
    assert!(text_eq("会话", "会话"));
    assert!(!text_eq("a", "b"));
}

#[test]
fn text_order_matches_str_order() {
    let samples = ["", "a", "ab", "b", "B", "é", "中", "a\u{10000}", "a\u{ffff}", "OPENAI_", "OPENAI_A"];
    for a in samples {
        for b in samples {
            assert_eq!(text_less(a, b), a < b, "{a:?} < {b:?}");
        }
    }
}
