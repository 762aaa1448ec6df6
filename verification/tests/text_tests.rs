use tuidal::text::{decimal_string, minutes_seconds_string, starts_with, to_uppercase, trim};

#[test]
fn decimal_numbers() {
    assert_eq!(decimal_string(0), "0");
    assert_eq!(decimal_string(9), "9");
    assert_eq!(decimal_string(10), "10");
    assert_eq!(decimal_string(44100), "44100");
    assert_eq!(decimal_string(u64::MAX), u64::MAX.to_string());
}

#[test]
fn minutes_and_seconds() {
    assert_eq!(minutes_seconds_string(0), "0:00");
    assert_eq!(minutes_seconds_string(5), "0:05");
    assert_eq!(minutes_seconds_string(65), "1:05");
    assert_eq!(minutes_seconds_string(600), "10:00");
    assert_eq!(minutes_seconds_string(3599), "59:59");
    assert_eq!(minutes_seconds_string(3600), "60:00");
}

#[test]
fn trims_white_space_like_str_trim() {
    for s in ["", "  ", " a ", "\n[1, 2]\n", "\u{3000}x\u{a0}", "x", "\t\r\n"] {
        assert_eq!(trim(s), s.trim());
    }
}

#[test]
fn prefixes() {
    assert!(starts_with("https://x", "https://"));
    assert!(!starts_with("link.tidal.com", "http://"));
    assert!(starts_with("abc", ""));
    assert!(!starts_with("ab", "abc"));
}

#[test]
fn upper_case() {
    assert_eq!(to_uppercase("flac"), "FLAC");
    assert_eq!(to_uppercase("straße"), "STRASSE");
}
