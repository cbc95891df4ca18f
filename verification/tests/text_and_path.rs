use quicklook::path::{dotted_extension, extension, file_name};
use quicklook::text::{chars_of, contains, lowercase, starts_with, string_of, text_equals};

#[test]
fn chars_and_strings_round_trip() {
    let v = chars_of("a\u{e9}\u{4e2d}\u{1f600}");
    assert_eq!(v, vec!['a', '\u{e9}', '\u{4e2d}', '\u{1f600}']);
    assert_eq!(string_of(&v), "a\u{e9}\u{4e2d}\u{1f600}");
    assert_eq!(string_of(&Vec::new()), "");
}

#[test]
fn text_equality_is_by_content() {
    assert!(text_equals("Audio", "Audio"));
    assert!(!text_equals("Audio", "audio"));
    assert!(!text_equals("Audio", "Audi"));
    assert!(text_equals("", ""));
}

#[test]
fn contains_finds_a_pattern_anywhere() {
    assert!(contains("CabinetWClass", "CabinetWClass"));
    assert!(contains("xxCabinetWClassyy", "CabinetWClass"));
    assert!(contains("abc", ""));
    assert!(contains("", ""));
    assert!(!contains("", "a"));
    assert!(!contains("Cabinet", "CabinetWClass"));
    assert!(contains("aab", "ab"));
    assert!(!contains("abab", "ba b"));
}

#[test]
fn starts_with_looks_at_the_beginning_only() {
    assert!(starts_with("Listary_WidgetWin_0", "Listary_WidgetWin_"));
    assert!(!starts_with("xListary_WidgetWin_0", "Listary_WidgetWin_"));
    assert!(starts_with("abc", ""));
    assert!(!starts_with("ab", "abc"));
}

#[test]
fn lowercase_of_ascii_text() {
    assert_eq!(lowercase("MD"), "md");
    assert_eq!(lowercase("Tar.GZ"), "tar.gz");
    assert_eq!(lowercase("a1_Z@["), "a1_z@[");
    assert_eq!(lowercase(""), "");
}

#[test]
fn lowercase_of_other_text_follows_unicode() {
    assert_eq!(lowercase("\u{c0}B"), "\u{e0}b");
    assert_eq!(lowercase("\u{212a}T"), "kt");
}

#[test]
fn file_name_is_what_follows_the_last_separator() {
    assert_eq!(file_name("C:\\Notes\\draft.md"), "draft.md");
    assert_eq!(file_name("C:/Notes/draft.md"), "draft.md");
    assert_eq!(file_name("C:\\Notes/sub\\a.b.c"), "a.b.c");
    assert_eq!(file_name("draft.md"), "draft.md");
    assert_eq!(file_name("C:\\Notes\\"), "");
    assert_eq!(file_name(""), "");
}

#[test]
fn extension_is_what_follows_the_last_dot() {
    assert_eq!(extension("draft.md"), Some("md".to_string()));
    assert_eq!(extension("a.tar.GZ"), Some("GZ".to_string()));
    assert_eq!(extension("Makefile"), None);
    assert_eq!(extension(".bashrc"), None);
    assert_eq!(extension(".config.json"), Some("json".to_string()));
    assert_eq!(extension("name."), Some("".to_string()));
    assert_eq!(extension(""), None);
}

#[test]
fn dotted_extension_keeps_the_case() {
    assert_eq!(dotted_extension("C:\\a\\Photo.JPG"), Some(".JPG".to_string()));
    assert_eq!(dotted_extension("C:\\a\\Makefile"), None);
}
