use quicklook::file::get_file_info;
use quicklook::kind::{classify_extension, detect_language_no_ext, file_type_mapping, ContentKind};
use quicklook::route::{route_path_to_url, WebRoute};

#[test]
fn markdown_path_is_routed_to_the_markdown_page() {
    let file = get_file_info("C:\\Notes\\draft.md", true, 120, 1700000000).unwrap();
    assert_eq!(file.get_file_type(), "Markdown");
    assert_eq!(file.get_extension(), "md");
    assert_eq!(file.get_name(), "draft.md");
    assert_eq!(file.get_path(), "C:\\Notes\\draft.md");
    let route = WebRoute::get_route(&file.get_file_type(), &file);
    assert_eq!(
        route.to_url(),
        "/preview/md?file_type=Markdown&path=C%3A%5CNotes%5Cdraft.md&extension=md&size=120&last_modified=1700000000&name=draft.md"
    );
}

#[test]
fn makefile_without_extension_is_code() {
    let file = get_file_info("C:\\Tools\\Makefile", true, 1, 2).unwrap();
    assert_eq!(file.get_file_type(), "Code");
    assert_eq!(file.get_extension(), "makefile");
    assert_eq!(file.get_name(), "Makefile");
}

#[test]
fn every_listed_extension_has_its_kind() {
    let table = file_type_mapping();
    assert_eq!(table.len(), 97);
    for (extension, kind) in table.iter() {
        if *extension == "3gp" {
            assert_eq!(classify_extension(extension), ContentKind::Audio);
        } else {
            assert_eq!(classify_extension(extension), *kind);
        }
    }
}

#[test]
fn unlisted_extension_is_unsupported() {
    assert_eq!(classify_extension("exe"), ContentKind::Unsupported);
    assert_eq!(classify_extension(""), ContentKind::Unsupported);
    assert_eq!(classify_extension("MD"), ContentKind::Unsupported);
    assert!(get_file_info("C:\\Apps\\setup.exe", true, 1, 2).is_none());
}

#[test]
fn well_known_names_have_their_language() {
    assert_eq!(detect_language_no_ext("README"), "markdown");
    assert_eq!(detect_language_no_ext("Dockerfile"), "docker");
    assert_eq!(detect_language_no_ext(".bashrc"), "bash");
    assert_eq!(detect_language_no_ext("notes"), "txt");
}

#[test]
fn routing_twice_gives_the_same_address() {
    let first = route_path_to_url("C:\\Music\\a b.MP3", true, 7, 8);
    let second = route_path_to_url("C:\\Music\\a b.MP3", true, 7, 8);
    assert_eq!(first, second);
    assert_eq!(
        first.unwrap(),
        "/preview/audio?file_type=Audio&path=C%3A%5CMusic%5Ca%20b.MP3&extension=mp3&size=7&last_modified=8&name=a b.MP3"
    );
}
