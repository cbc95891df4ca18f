use quicklook::file::{classify_key, get_file_info, File};
use quicklook::kind::{
    build_name_to_lang, classify_extension, kind_from_label, lookup, ContentKind,
};
use quicklook::route::{route_path_to_url, WebRoute};

#[test]
fn what_is_not_a_file_has_no_descriptor() {
    assert!(get_file_info("C:\\Notes\\draft.md", false, 1, 2).is_none());
    assert!(get_file_info("", false, 0, 0).is_none());
}

#[test]
fn extension_is_matched_in_lower_case() {
    let file = get_file_info("D:/Pictures/Holiday.JPEG", true, 9, 10).unwrap();
    assert_eq!(file.get_file_type(), "Image");
    assert_eq!(file.get_extension(), "jpeg");
    assert_eq!(file.get_name(), "Holiday.JPEG");
    assert_eq!(file.get_size(), 9);
    assert_eq!(file.get_last_modified(), 10);
}

#[test]
fn an_extension_of_other_letters_goes_by_its_unicode_lower_case() {
    let file = get_file_info("C:\\src\\Main.\u{212a}T", true, 1, 2).unwrap();
    assert_eq!(file.get_file_type(), "Code");
    assert_eq!(file.get_extension(), "kt");
}

#[test]
fn the_later_entry_counts_for_an_extension_listed_twice() {
    assert_eq!(classify_extension("3gp"), ContentKind::Audio);
    assert_eq!(classify_extension("3g2"), ContentKind::Video);
}

#[test]
fn kinds_of_the_extension_table() {
    assert_eq!(classify_extension("md"), ContentKind::Markdown);
    assert_eq!(classify_extension("markdown"), ContentKind::Markdown);
    assert_eq!(classify_extension("csv"), ContentKind::Document);
    assert_eq!(classify_extension("woff2"), ContentKind::Font);
    assert_eq!(classify_extension("psd"), ContentKind::Image);
    assert_eq!(classify_extension("mkv"), ContentKind::Video);
    assert_eq!(classify_extension("mp3"), ContentKind::Audio);
    assert_eq!(classify_extension("7z"), ContentKind::Archive);
    assert_eq!(classify_extension("pdf"), ContentKind::Book);
    assert_eq!(classify_extension("txt"), ContentKind::Code);
    assert_eq!(classify_extension("bash"), ContentKind::Code);
}

#[test]
fn labels_of_the_kinds() {
    assert_eq!(ContentKind::Markdown.label(), "Markdown");
    assert_eq!(ContentKind::Document.label(), "Doc");
    assert_eq!(ContentKind::Text.label(), "Text");
    assert_eq!(ContentKind::Unsupported.label(), "Unsupported");
}

#[test]
fn a_well_known_name_is_never_unsupported() {
    for (name, language) in build_name_to_lang().iter() {
        let path = format!("C:\\repo\\{}", name);
        let file = get_file_info(&path, true, 1, 2).unwrap();
        assert_eq!(file.get_extension(), *language);
        assert_eq!(file.get_name(), *name);
        let expected = match *language {
            "markdown" => "Markdown",
            _ => "Code",
        };
        assert_eq!(file.get_file_type(), expected);
    }
}

#[test]
fn a_name_without_extension_that_is_not_known_is_plain_text() {
    let file = get_file_info("C:\\repo\\notes", true, 1, 2).unwrap();
    assert_eq!(file.get_extension(), "txt");
    assert_eq!(file.get_file_type(), "Code");
}

#[test]
fn a_key_from_an_extension_is_not_rescued() {
    assert_eq!(classify_key("makefile", true), ContentKind::Unsupported);
    assert_eq!(classify_key("makefile", false), ContentKind::Code);
    assert_eq!(classify_key("markdown", false), ContentKind::Markdown);
    assert_eq!(classify_key("png", true), ContentKind::Image);
    assert!(get_file_info("C:\\repo\\build.makefile", true, 1, 2).is_none());
}

#[test]
fn lookup_takes_the_last_entry_of_a_key() {
    let table = vec![("a", 1u8), ("b", 2u8), ("a", 3u8)];
    assert_eq!(lookup(&table, "a"), Some(3));
    assert_eq!(lookup(&table, "b"), Some(2));
    assert_eq!(lookup(&table, "c"), None);
    assert_eq!(lookup(&Vec::<(&'static str, u8)>::new(), "a"), None);
}

#[test]
fn each_kind_has_its_route() {
    let file = File::new("Code", "C:\\a.rs".to_string(), "rs".to_string(), 1, 2, "a.rs".to_string());
    let cases = [
        ("Markdown", "/preview/md"),
        ("Image", "/preview/image"),
        ("Audio", "/preview/audio"),
        ("Video", "/preview/video"),
        ("Font", "/preview/font"),
        ("Code", "/preview/code"),
        ("Book", "/preview/book"),
        ("Archive", "/preview/archive"),
        ("Doc", "/preview/document"),
        ("Text", "/preview/not-support"),
        ("Unsupported", "/preview/not-support"),
        ("", "/preview/not-support"),
    ];
    for (kind, path) in cases.iter() {
        let route = WebRoute::get_route(kind, &file);
        assert_eq!(route.path(), path);
        assert_eq!(route.query(), &file);
    }
}

#[test]
fn only_the_path_is_percent_encoded() {
    let file = File::new(
        "Image",
        "C:\\My Pics\\\u{e9}t\u{e9} 100%~-_.png".to_string(),
        "png".to_string(),
        0,
        18446744073709551615,
        "\u{e9}t\u{e9} 100%~-_.png".to_string(),
    );
    let route = WebRoute::new("/preview/image".to_string(), file);
    assert_eq!(
        route.to_url(),
        "/preview/image?file_type=Image&path=C%3A%5CMy%20Pics%5C%C3%A9t%C3%A9%20100%25~-_.png&extension=png&size=0&last_modified=18446744073709551615&name=\u{e9}t\u{e9} 100%~-_.png"
    );
}

#[test]
fn numbers_are_written_in_decimal() {
    let file = File::new("Code", "a".to_string(), "rs".to_string(), 10, 907, "a".to_string());
    let route = WebRoute::new("/p".to_string(), file);
    assert_eq!(
        route.to_url(),
        "/p?file_type=Code&path=a&extension=rs&size=10&last_modified=907&name=a"
    );
}

#[test]
fn what_cannot_be_previewed_has_no_address() {
    assert_eq!(route_path_to_url("C:\\a\\setup.exe", true, 1, 2), None);
    assert_eq!(route_path_to_url("C:\\a\\draft.md", false, 1, 2), None);
}

#[test]
fn a_descriptor_knows_its_kind() {
    let file = get_file_info("C:\\a\\song.ogg", true, 1, 2).unwrap();
    assert_eq!(file.content_kind(), ContentKind::Audio);
    let sheet = get_file_info("C:\\a\\table.xlsx", true, 1, 2).unwrap();
    assert_eq!(sheet.content_kind(), ContentKind::Document);
    let odd = File::new("Nothing", "a".to_string(), "b".to_string(), 1, 2, "c".to_string());
    assert_eq!(odd.content_kind(), ContentKind::Unsupported);
    for kind in [
        ContentKind::Markdown,
        ContentKind::Text,
        ContentKind::Image,
        ContentKind::Audio,
        ContentKind::Video,
        ContentKind::Font,
        ContentKind::Code,
        ContentKind::Archive,
        ContentKind::Document,
        ContentKind::Book,
        ContentKind::Unsupported,
    ]
    .iter()
    {
        assert_eq!(kind_from_label(kind.label()), *kind);
    }
}
