use discord_spotify_bot::text::{cut_before, decimal_text, find_char, parse_numeral, replace_once, same_text, strip_prefix};

#[test]
fn a_number_is_written_in_base_ten() {
    assert_eq!(decimal_text(0), "0");
    assert_eq!(decimal_text(9), "9");
    assert_eq!(decimal_text(10), "10");
    assert_eq!(decimal_text(1_234_567_890), "1234567890");
    assert_eq!(decimal_text(u64::MAX), u64::MAX.to_string());
}

#[test]
fn a_numeral_is_read() {
    assert_eq!(parse_numeral("0", 9), Some(0));
    assert_eq!(parse_numeral("007", 9), Some(7));
    assert_eq!(parse_numeral("+7", 9), Some(7));
    assert_eq!(parse_numeral("18446744073709551615", u64::MAX), Some(u64::MAX));
}

#[test]
fn what_is_no_numeral_is_refused() {
    for text in ["", "+", "-1", "++1", " 1", "1 ", "1_000", "0x10", "10", "\u{0663}"] {
        assert_eq!(parse_numeral(text, 9), None, "{text:?}");
    }
    assert_eq!(parse_numeral("18446744073709551616", u64::MAX), None);
    assert_eq!(parse_numeral("99999999999999999999999", u64::MAX), None);
}

#[test]
fn a_numeral_is_read_as_the_standard_library_reads_it() {
    for text in ["", "+", "-0", "0", "+0", "65535", "65536", "00065535", "a", "1a", "\u{00e9}"] {
        assert_eq!(parse_numeral(text, 65535), text.parse::<u16>().ok().map(u64::from), "{text:?}");
    }
}

#[test]
fn a_written_number_reads_back() {
    for number in [0, 1, 10, 99, 100, 65535, u64::MAX] {
        assert_eq!(parse_numeral(&decimal_text(number), u64::MAX), Some(number));
    }
}

#[test]
fn a_prefix_is_stripped() {
    assert_eq!(strip_prefix("spotify:track", "spotify:"), Some("track"));
    assert_eq!(strip_prefix("spotify:", "spotify:"), Some(""));
    assert_eq!(strip_prefix("spotif", "spotify:"), None);
    assert_eq!(strip_prefix("Spotify:track", "spotify:"), None);
    assert_eq!(strip_prefix("\u{00e9}t\u{00e9}", "\u{00e9}"), Some("t\u{00e9}"));
}

#[test]
fn a_character_is_found() {
    assert_eq!(find_char("a?b?c", '?'), 1);
    assert_eq!(find_char("\u{00e9}?", '?'), 1);
    assert_eq!(find_char("abc", '?'), 3);
    assert_eq!(find_char("", '?'), 0);
}

#[test]
fn a_text_is_cut() {
    assert_eq!(cut_before("token?si=1?2", '?'), "token");
    assert_eq!(cut_before("token", '?'), "token");
    assert_eq!(cut_before("?si=1", '?'), "");
}

#[test]
fn only_the_first_character_is_replaced() {
    assert_eq!(replace_once("track:a:b", ':', "/"), "track/a:b");
    assert_eq!(replace_once("track", ':', "/"), "track");
}

#[test]
fn texts_are_compared() {
    assert!(same_text("a", "a"));
    assert!(!same_text("a", "A"));
    assert!(!same_text("a", "aa"));
}
