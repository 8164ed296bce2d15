use shortcut_finder::overlay::calculate_overlay_width;
use shortcut_finder::text::contains_char;
use shortcut_finder::text::contains_str;
use shortcut_finder::text::count_char_str;
use shortcut_finder::text::str_eq;
use shortcut_finder::text::strip_suffix_repeated;

#[test]
fn substring_search() {
    assert!(contains_str("google chrome - tab", "chrome"));
    assert!(contains_str("chrome", "chrome"));
    assert!(!contains_str("chrome", "chromium"));
    assert!(!contains_str("", "a"));
    // The empty needle occurs everywhere, even in the empty string.
    assert!(contains_str("", ""));
    assert!(contains_str("abc", ""));
    // Multi-byte characters count as single positions.
    assert!(contains_str("a\u{2318}b", "\u{2318}b"));
}

#[test]
fn character_search_and_count() {
    assert!(contains_char("a+b", '+'));
    assert!(!contains_char("ab", '+'));
    assert_eq!(count_char_str("Ctrl+Shift+K", '+'), 2);
    assert_eq!(count_char_str("", '+'), 0);
    assert_eq!(count_char_str("+++", '+'), 3);
}

#[test]
fn string_equality_is_by_characters() {
    assert!(str_eq("abc", "abc"));
    assert!(!str_eq("abc", "abd"));
    assert!(!str_eq("abc", "ABC"));
}

#[test]
fn suffix_stripping_repeats() {
    assert_eq!(strip_suffix_repeated("foo.exe.exe", ".exe"), "foo");
    assert_eq!(strip_suffix_repeated("foo", ".exe"), "foo");
    assert_eq!(strip_suffix_repeated(".exe", ".exe"), "");
}

#[test]
fn spelled_out_modifier_counts_once() {
    // "Control" is detected like "Ctrl", and only one increment is added.
    assert_eq!(calculate_overlay_width("Control+K"), 250);
    assert_eq!(calculate_overlay_width("Ctrl+K"), 250);
}
