use oncaptions_backend::text::{
    str_after_first, str_contains, str_eq_ignore_ascii_case, str_replace, str_split_once,
    str_trim, str_trim_end_char, strip_suffix, is_whitespace,
};

#[test]
fn replace_fills_placeholders_left_to_right() {
    assert_eq!(str_replace("{a}-{a}-{b}", "{a}", "x"), "x-x-{b}");
    assert_eq!(str_replace("aaa", "aa", "b"), "ba");
    assert_eq!(str_replace("no placeholder", "{a}", "x"), "no placeholder");
    assert_eq!(str_replace("", "{a}", "x"), "");
}

#[test]
fn trim_removes_unicode_white_space() {
    assert_eq!(str_trim("  hello world \n\t"), "hello world");
    assert_eq!(str_trim("\u{3000}こんにちは\u{3000}"), "こんにちは");
    assert_eq!(str_trim("   "), "");
    assert_eq!(str_trim("x"), "x");
}

#[test]
fn suffixes_and_prefixes() {
    assert_eq!(strip_suffix("alsa_output.monitor", ".monitor"), Some("alsa_output".to_string()));
    assert_eq!(strip_suffix("alsa_output", ".monitor"), None);
    assert_eq!(str_trim_end_char("https://api.x/v1///", '/'), "https://api.x/v1");
    assert_eq!(str_trim_end_char("///", '/'), "");
}

#[test]
fn split_once_takes_the_first_separator() {
    assert_eq!(
        str_split_once("host:node:1", ':'),
        Some(("host".to_string(), "node:1".to_string()))
    );
    assert_eq!(str_split_once("node", ':'), None);
    assert_eq!(str_after_first("host:node", ':'), "node");
    assert_eq!(str_after_first("node", ':'), "node");
}

#[test]
fn contains_and_case_folding() {
    assert!(str_contains("alsa xrun detected", "xrun"));
    assert!(str_contains("abc", ""));
    assert!(!str_contains("ab", "abc"));
    assert!(str_eq_ignore_ascii_case("PipeWire", "pipewire"));
    assert!(str_eq_ignore_ascii_case("PIPEWIRE", "PipeWire"));
    assert!(!str_eq_ignore_ascii_case("PipeWire", "PipeWir"));
    assert!(!str_eq_ignore_ascii_case("Ä", "ä"));
}

#[test]
fn white_space_matches_std() {
    for c in ['\u{0}', 'a', '\u{8}', '\u{9}', '\u{d}', '\u{e}', ' ', '\u{85}', '\u{a0}', '\u{1680}',
              '\u{180e}', '\u{2000}', '\u{200a}', '\u{200b}', '\u{2028}', '\u{2029}', '\u{202f}',
              '\u{205f}', '\u{3000}', '\u{feff}', 'あ'] {
        assert_eq!(is_whitespace(c), c.is_whitespace(), "{:?}", c);
    }
    for c in (0u32..0x11000).filter_map(char::from_u32) {
        assert_eq!(is_whitespace(c), c.is_whitespace(), "{:?}", c);
    }
}
