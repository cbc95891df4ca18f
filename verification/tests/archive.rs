use quicklook::archive::{
    archive_format, build_tree_recursive, entries_under, name_precedes, parent_name,
    seven_zip_entry, seven_zip_extract, sort_entries, trim_name, ArchiveError, ArchiveFormat,
    Extract,
};
use quicklook::text::chars_of;

fn file(name: &str, size: u64) -> Extract {
    Extract::new(name.to_string(), size, "2024-01-02 03:04:05".to_string(), false)
}

fn dir(name: &str) -> Extract {
    Extract::new(name.to_string(), 0, "2024-01-02 03:04:05".to_string(), true)
}

fn with_children(mut entry: Extract, children: Vec<Extract>) -> Extract {
    entry.children = Some(children);
    entry
}

#[test]
fn a_new_entry_has_no_children() {
    let entry = Extract::new("a/b.txt".to_string(), 3, "t".to_string(), false);
    assert_eq!(entry.name, "a/b.txt");
    assert_eq!(entry.size, 3);
    assert_eq!(entry.last_modified, "t");
    assert!(!entry.dir);
    assert_eq!(entry.children, None);
    assert_eq!(entry.clone(), entry);
}

#[test]
fn names_are_ordered_as_in_a_dictionary() {
    let le = |a: &str, b: &str| name_precedes(&chars_of(a), &chars_of(b));
    assert!(le("", ""));
    assert!(le("", "a"));
    assert!(!le("a", ""));
    assert!(le("a", "a"));
    assert!(le("a", "ab"));
    assert!(!le("ab", "a"));
    assert!(le("a/b", "a0"));
    assert!(le("B", "a"));
    assert!(!le("b", "a"));
    assert!(le("z", "\u{e9}"));
}

#[test]
fn sorting_is_by_name_and_keeps_the_order_of_equal_names() {
    let entries = vec![file("b", 1), file("a", 2), file("b", 3), file("a/x", 4), file("a", 5)];
    let sorted = sort_entries(&entries);
    let seen: Vec<(String, u64)> = sorted.iter().map(|e| (e.name.clone(), e.size)).collect();
    assert_eq!(
        seen,
        vec![
            ("a".to_string(), 2),
            ("a".to_string(), 5),
            ("a/x".to_string(), 4),
            ("b".to_string(), 1),
            ("b".to_string(), 3),
        ]
    );
    assert_eq!(sort_entries(&Vec::new()), Vec::new());
}

#[test]
fn trailing_slashes_do_not_count() {
    assert_eq!(trim_name("docs/"), chars_of("docs"));
    assert_eq!(trim_name("docs///"), chars_of("docs"));
    assert_eq!(trim_name("docs/a"), chars_of("docs/a"));
    assert_eq!(trim_name("/"), chars_of(""));
    assert_eq!(trim_name(""), chars_of(""));
}

#[test]
fn the_parent_is_what_stands_before_the_last_slash() {
    assert_eq!(parent_name("docs/a.txt"), Some(chars_of("docs")));
    assert_eq!(parent_name("docs/sub/"), Some(chars_of("docs")));
    assert_eq!(parent_name("docs/sub/a.txt"), Some(chars_of("docs/sub")));
    assert_eq!(parent_name("docs/"), None);
    assert_eq!(parent_name("a.txt"), None);
    assert_eq!(parent_name("/a.txt"), Some(chars_of("")));
    assert_eq!(parent_name(""), None);
}

#[test]
fn entries_are_found_by_their_directory() {
    let entries = vec![dir("docs/"), file("docs/a.txt", 1), file("b.txt", 2), file("docs/c.txt", 3)];
    let roots = entries_under(&entries, &None);
    assert_eq!(roots, vec![dir("docs/"), file("b.txt", 2)]);
    let below = entries_under(&entries, &Some(chars_of("docs")));
    assert_eq!(below, vec![file("docs/a.txt", 1), file("docs/c.txt", 3)]);
    assert_eq!(entries_under(&entries, &Some(chars_of("other"))), Vec::new());
}

#[test]
fn a_flat_listing_becomes_a_tree() {
    let entries = vec![
        file("readme.md", 10),
        file("src/main.rs", 20),
        dir("src/"),
        dir("src/util/"),
        file("src/util/a.rs", 30),
        dir("empty/"),
        file("Cargo.toml", 40),
    ];
    let tree = Extract::build_tree(entries);
    let expected = vec![
        file("Cargo.toml", 40),
        dir("empty/"),
        file("readme.md", 10),
        with_children(
            dir("src/"),
            vec![
                file("src/main.rs", 20),
                with_children(dir("src/util/"), vec![file("src/util/a.rs", 30)]),
            ],
        ),
    ];
    assert_eq!(tree, expected);
}

#[test]
fn entries_whose_directory_is_not_listed_are_left_out() {
    let entries = vec![file("orphan/a.txt", 1), file("top.txt", 2), file("notdir", 3), file("notdir/x", 4)];
    let tree = Extract::build_tree(entries);
    assert_eq!(tree, vec![file("notdir", 3), file("top.txt", 2)]);
    assert_eq!(Extract::build_tree(Vec::new()), Vec::new());
}

#[test]
fn nesting_is_followed_as_deep_as_asked() {
    let entries = vec![dir("a"), dir("a/b"), file("a/b/c", 1)];
    let roots = vec![dir("a")];
    assert_eq!(build_tree_recursive(&roots, &entries, 0), vec![dir("a")]);
    assert_eq!(
        build_tree_recursive(&roots, &entries, 1),
        vec![with_children(dir("a"), vec![dir("a/b")])]
    );
    let full = vec![with_children(
        dir("a"),
        vec![with_children(dir("a/b"), vec![file("a/b/c", 1)])],
    )];
    assert_eq!(build_tree_recursive(&roots, &entries, 2), full);
    assert_eq!(build_tree_recursive(&roots, &entries, 3), full);
    assert_eq!(Extract::build_tree(entries), full);
}

#[test]
fn the_format_goes_by_the_extension() {
    assert_eq!(archive_format("C:\\a\\x.zip"), Ok(ArchiveFormat::Zip));
    assert_eq!(archive_format("C:\\a\\x.TAR"), Ok(ArchiveFormat::Tar));
    assert_eq!(archive_format("C:\\a\\x.tar.gz"), Ok(ArchiveFormat::TarGz));
    assert_eq!(archive_format("x.tgz"), Ok(ArchiveFormat::TarGz));
    assert_eq!(archive_format("x.tar.bz2"), Ok(ArchiveFormat::TarBz2));
    assert_eq!(archive_format("x.tbz2"), Ok(ArchiveFormat::TarBz2));
    assert_eq!(archive_format("x.tar.xz"), Ok(ArchiveFormat::TarXz));
    assert_eq!(archive_format("x.txz"), Ok(ArchiveFormat::TarXz));
    assert_eq!(archive_format("x.7Z"), Ok(ArchiveFormat::SevenZ));
}

#[test]
fn an_unknown_extension_is_an_unsupported_format() {
    assert_eq!(
        archive_format("C:\\a\\x.RAR"),
        Err(ArchiveError::UnsupportedFormat("rar".to_string()))
    );
    assert_eq!(archive_format("C:\\a\\x"), Err(ArchiveError::UnsupportedFormat(String::new())));
    let listing = vec![file("a.txt", 1)];
    assert_eq!(
        Extract::list_archive_tree("C:\\a\\x.rar", listing),
        Err(ArchiveError::UnsupportedFormat("rar".to_string()))
    );
}

#[test]
fn the_tree_of_a_supported_archive_is_built() {
    let listing = vec![file("d/a.txt", 1), dir("d")];
    let tree = Extract::list_archive_tree("C:\\a\\x.zip", listing);
    assert_eq!(tree, Ok(vec![with_children(dir("d"), vec![file("d/a.txt", 1)])]));
}

#[test]
fn errors_say_what_went_wrong() {
    assert_eq!(ArchiveError::IoError("denied".to_string()).to_string(), "IO error: denied");
    assert_eq!(ArchiveError::ZipError("bad".to_string()).to_string(), "ZIP error: bad");
    assert_eq!(ArchiveError::SevenZError("bad".to_string()).to_string(), "7Z error: bad");
    assert_eq!(
        ArchiveError::UnsupportedFormat("rar".to_string()).to_string(),
        "Unsupported format: rar"
    );
    assert_eq!(ArchiveError::InvalidPath("?".to_string()).to_string(), "Invalid path: ?");
    assert_eq!(ArchiveError::Other("x".to_string()).to_string(), "Error: x");
}

#[test]
fn seven_zip_entries_without_a_stream_are_empty() {
    let with_stream = seven_zip_entry("a.txt".to_string(), true, 12, false);
    assert_eq!(
        with_stream,
        Extract::new("a.txt".to_string(), 12, "1970-01-01T00:00:00Z".to_string(), false)
    );
    let without = seven_zip_entry("d".to_string(), false, 12, true);
    assert_eq!(without, Extract::new("d".to_string(), 0, "1970-01-01T00:00:00Z".to_string(), true));
    let tree = seven_zip_extract(vec![seven_zip_entry("d/a".to_string(), true, 1, false), without]);
    assert_eq!(tree.len(), 1);
    assert_eq!(tree[0].children.as_ref().unwrap().len(), 1);
}
