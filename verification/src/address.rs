//! The address control of an open or save dialog: from the text it shows to
//! the directory it stands for.
//!
//! The control shows either a path that begins at a drive, or the display
//! name of a known folder or of a library. A display name is turned into a
//! query that the caller puts to the system.

use crate::kind::{lookup, table_get};
use crate::text::{
    chars_of, contains, contains_text, find_from, first_occurrence, lemma_first_occurrence,
    push_text, string_of, string_of_range,
};
use vstd::prelude::*;

verus! {

/// The logical folders that the address control names by display name.
#[derive(Clone, Copy, Debug, PartialEq, Eq, Structural)]
pub enum KnownFolder {
    Downloads,
    Music,
    Pictures,
    Documents,
    Videos,
    Desktop,
}

/// What has to be asked to find the directory of a dialog.
#[derive(Debug, PartialEq, Eq)]
pub enum DirectoryQuery {
    /// Nothing: the address is the directory's path.
    Literal(String),
    /// The path of a known folder.
    Known(KnownFolder),
    /// The path behind the library of this name.
    Library(String),
}

/// The display names of the known folders.
pub open spec fn folder_table() -> Seq<(&'static str, KnownFolder)> {
    seq![
        ("下载", KnownFolder::Downloads),
        ("Downloads", KnownFolder::Downloads),
        ("音乐", KnownFolder::Music),
        ("Music", KnownFolder::Music),
        ("图片", KnownFolder::Pictures),
        ("Pictures", KnownFolder::Pictures),
        ("文档", KnownFolder::Documents),
        ("Documents", KnownFolder::Documents),
        ("视频", KnownFolder::Videos),
        ("Videos", KnownFolder::Videos),
        ("桌面", KnownFolder::Desktop),
        ("Desktop", KnownFolder::Desktop),
    ]
}

/// What separates the label of the address control from the address.
pub open spec fn label_separator() -> Seq<char> {
    ": "@
}

/// What marks a path that begins at a drive.
pub open spec fn drive_marker() -> Seq<char> {
    ":\\"@
}

/// The address in the text of the address control. Where the text holds the
/// label separator, the address is what stands between its first occurrence
/// and the next one, or the end; else it is the whole text.
pub open spec fn address_of(text: Seq<char>) -> Seq<char> {
    match first_occurrence(text, label_separator(), 0) {
        None => text,
        Some(at) => {
            let rest = text.subrange(at + label_separator().len(), text.len() as int);
            match first_occurrence(rest, label_separator(), 0) {
                None => rest,
                Some(end) => rest.subrange(0, end),
            }
        },
    }
}

/// What `query` asks, as plain values.
pub open spec fn is_query(query: DirectoryQuery, address: Seq<char>) -> bool {
    if contains_text(address, drive_marker()) {
        query matches DirectoryQuery::Literal(path) && path@ == address
    } else {
        match table_get(folder_table(), address) {
            Some(folder) => query == DirectoryQuery::Known(folder),
            None => query matches DirectoryQuery::Library(name) && name@ == address,
        }
    }
}

/// The file that describes the library called `name`, in the folder
/// `libraries`.
pub open spec fn library_file_of(libraries: Seq<char>, name: Seq<char>) -> Seq<char> {
    libraries + seq!['\\'] + name + ".library-ms"@
}

/// The address in the text of the address control.
pub fn address_text(text: &str) -> (address: String)
    ensures
        address@ == address_of(text@),
{
    let t = chars_of(text);
    let separator = chars_of(": ");
    match find_from(&t, &separator, 0) {
        None => string_of(&t),
        Some(at) => {
            proof {
                lemma_first_occurrence(t@, separator@, 0);
            }
            let total: usize = t.len();
            let start: usize = at + separator.len();
            let rest = chars_of(string_of_range(&t, start, total).as_str());
            match find_from(&rest, &separator, 0) {
                None => string_of(&rest),
                Some(end) => {
                    proof {
                        lemma_first_occurrence(rest@, separator@, 0);
                    }
                    string_of_range(&rest, 0, end)
                },
            }
        },
    }
}

/// The query for the folder or library that the address control shows as
/// `name`: a known folder where `name` is the display name of one, and the
/// library called `name` otherwise.
pub fn get_library_path(name: &str) -> (query: DirectoryQuery)
    ensures
        match table_get(folder_table(), name@) {
            Some(folder) => query == DirectoryQuery::Known(folder),
            None => query matches DirectoryQuery::Library(library) && library@ == name@,
        },
{
    let table: Vec<(&'static str, KnownFolder)> = vec![
        ("下载", KnownFolder::Downloads),
        ("Downloads", KnownFolder::Downloads),
        ("音乐", KnownFolder::Music),
        ("Music", KnownFolder::Music),
        ("图片", KnownFolder::Pictures),
        ("Pictures", KnownFolder::Pictures),
        ("文档", KnownFolder::Documents),
        ("Documents", KnownFolder::Documents),
        ("视频", KnownFolder::Videos),
        ("Videos", KnownFolder::Videos),
        ("桌面", KnownFolder::Desktop),
        ("Desktop", KnownFolder::Desktop),
    ];
    match lookup(&table, name) {
        Some(folder) => DirectoryQuery::Known(folder),
        None => DirectoryQuery::Library(string_of(&chars_of(name))),
    }
}

/// What has to be asked to find the directory of a dialog whose address
/// control shows `text`.
pub fn directory_query(text: &str) -> (query: DirectoryQuery)
    ensures
        is_query(query, address_of(text@)),
{
    let address = address_text(text);
    if contains(address.as_str(), ":\\") {
        DirectoryQuery::Literal(address)
    } else {
        get_library_path(address.as_str())
    }
}

/// The path of the file that describes the library called `name`, where
/// `libraries` is the folder that holds the libraries.
pub fn library_file(libraries: &str, name: &str) -> (file: String)
    ensures
        file@ == library_file_of(libraries@, name@),
{
    let mut out = chars_of(libraries);
    out.push('\\');
    push_text(&mut out, name);
    push_text(&mut out, ".library-ms");
    string_of(&out)
}

/// Whether a child window of the class `class_name` is the shell view of a
/// dialog.
pub fn dialog_defview_proc(class_name: &str) -> (hit: bool)
    ensures
        hit == contains_text(class_name@, "SHELLDLL_DefView"@),
{
    contains(class_name, "SHELLDLL_DefView")
}

/// Whether a child window of the class `class_name` holds the address
/// control of a dialog.
pub fn breadcrumb_proc(class_name: &str) -> (hit: bool)
    ensures
        hit == contains_text(class_name@, "Breadcrumb Parent"@),
{
    contains(class_name, "Breadcrumb Parent")
}

} // verus!
