//! The descriptor of a file that is to be previewed.

use crate::kind::{
    classify_extension, detect_language_no_ext, extension_kind, kind_from_label, kind_of_label,
    language_of_name, ContentKind,
};
use crate::path::{extension, extension_of, file_name, file_name_of};
use crate::text::{chars_of, lowercase, lowercased, string_of};
use vstd::prelude::*;

verus! {

/// What a file descriptor holds, as plain values.
pub struct FileView {
    pub file_type: Seq<char>,
    pub path: Seq<char>,
    pub extension: Seq<char>,
    pub size: u64,
    pub last_modified: u64,
    pub name: Seq<char>,
}

/// A file that can be previewed: its path and name, the key and the kind it
/// was classified by, its size and the time it was last written.
#[derive(Debug, PartialEq, Eq)]
pub struct File {
    file_type: String,
    path: String,
    extension: String,
    size: u64,
    last_modified: u64,
    name: String,
}

impl View for File {
    type V = FileView;

    closed spec fn view(&self) -> FileView {
        FileView {
            file_type: self.file_type@,
            path: self.path@,
            extension: self.extension@,
            size: self.size,
            last_modified: self.last_modified,
            name: self.name@,
        }
    }
}

impl Clone for File {
    fn clone(&self) -> (copy: Self)
        ensures
            copy@ == self@,
    {
        File {
            file_type: self.file_type.clone(),
            path: self.path.clone(),
            extension: self.extension.clone(),
            size: self.size,
            last_modified: self.last_modified,
            name: self.name.clone(),
        }
    }
}

impl File {
    /// A descriptor with the given fields.
    pub fn new(
        file_type: &str,
        path: String,
        extension: String,
        size: u64,
        last_modified: u64,
        name: String,
    ) -> (file: File)
        ensures
            file@ == (FileView {
                file_type: file_type@,
                path: path@,
                extension: extension@,
                size,
                last_modified,
                name: name@,
            }),
    {
        File {
            file_type: string_of(&chars_of(file_type)),
            path,
            extension,
            size,
            last_modified,
            name,
        }
    }

    /// The name of the file's kind.
    pub fn get_file_type(&self) -> (file_type: String)
        ensures
            file_type@ == self@.file_type,
    {
        self.file_type.clone()
    }

    /// The kind of the file.
    pub fn content_kind(&self) -> (kind: ContentKind)
        ensures
            kind == kind_of_label(self@.file_type),
    {
        kind_from_label(self.file_type.as_str())
    }

    /// The path of the file.
    pub fn get_path(&self) -> (path: String)
        ensures
            path@ == self@.path,
    {
        self.path.clone()
    }

    /// The key the file was classified by: its lower-case extension, or the
    /// language of its well-known name.
    pub fn get_extension(&self) -> (extension: String)
        ensures
            extension@ == self@.extension,
    {
        self.extension.clone()
    }

    /// The size of the file in bytes.
    pub fn get_size(&self) -> (size: u64)
        ensures
            size == self@.size,
    {
        self.size
    }

    /// The time the file was last written.
    pub fn get_last_modified(&self) -> (last_modified: u64)
        ensures
            last_modified == self@.last_modified,
    {
        self.last_modified
    }

    /// The last component of the file's path.
    pub fn get_name(&self) -> (name: String)
        ensures
            name@ == self@.name,
    {
        self.name.clone()
    }
}

/// The key by which a file called `name` is classified: its extension in
/// lower case, or the language of the name where it has no extension.
pub open spec fn key_of_name(name: Seq<char>) -> Seq<char> {
    match extension_of(name) {
        Some(ext) => lowercased(ext),
        None => language_of_name(name),
    }
}

/// The kind that the key `key` stands for. A key taken from an extension
/// is looked up in the extension table and nowhere else. The language of an
/// extension-less name always gives a kind that can be shown: that of the
/// extension table where it lists the language, and `Code` otherwise.
pub open spec fn kind_of_key(key: Seq<char>, from_extension: bool) -> ContentKind {
    let listed = extension_kind(key);
    if !from_extension && listed == ContentKind::Unsupported {
        ContentKind::Code
    } else {
        listed
    }
}

/// The kind of a file called `name`.
pub open spec fn kind_of_name(name: Seq<char>) -> ContentKind {
    kind_of_key(key_of_name(name), extension_of(name) is Some)
}

/// The descriptor of the file at `path`, where it can be previewed.
pub open spec fn file_info_of(
    path: Seq<char>,
    is_file: bool,
    size: u64,
    last_modified: u64,
) -> Option<FileView> {
    let name = file_name_of(path);
    if !is_file || kind_of_name(name) == ContentKind::Unsupported {
        None
    } else {
        Some(
            FileView {
                file_type: kind_of_name(name).label_text(),
                path,
                extension: key_of_name(name),
                size,
                last_modified,
                name,
            },
        )
    }
}

/// A file without an extension can always be previewed: its kind is that of
/// its language where the extension table lists the language, and `Code`
/// otherwise, whether its name is a well-known one or not. A file with an
/// extension that the extension table does not list is unsupported.
pub proof fn lemma_kind_of_name(name: Seq<char>)
    ensures
        extension_of(name) is None ==> kind_of_name(name) != ContentKind::Unsupported,
        extension_of(name) matches Some(ext) ==> kind_of_name(name) == extension_kind(
            lowercased(ext),
        ),
{
}

/// The kind that the key `key` stands for; `from_extension` tells whether the
/// key was taken from an extension or from a well-known name.
pub fn classify_key(key: &str, from_extension: bool) -> (kind: ContentKind)
    ensures
        kind == kind_of_key(key@, from_extension),
{
    let listed = classify_extension(key);
    if !from_extension && listed == ContentKind::Unsupported {
        ContentKind::Code
    } else {
        listed
    }
}

/// Builds the descriptor of the file at `path`. `is_file` tells whether the
/// path names an existing regular file; `size` and `last_modified` are what
/// the file system reports for it.
///
/// There is no descriptor for what is not a file, nor for a file whose
/// extension the extension table does not list.
pub fn get_file_info(path: &str, is_file: bool, size: u64, last_modified: u64) -> (info: Option<
    File,
>)
    ensures
        match info {
            Some(file) => file_info_of(path@, is_file, size, last_modified) == Some(file@),
            None => file_info_of(path@, is_file, size, last_modified) is None,
        },
{
    if !is_file {
        return None;
    }
    let name = file_name(path);
    let (key, from_extension) = match extension(name.as_str()) {
        Some(ext) => (lowercase(ext.as_str()), true),
        None => (detect_language_no_ext(name.as_str()), false),
    };
    let kind = classify_key(key.as_str(), from_extension);
    if kind == ContentKind::Unsupported {
        return None;
    }
    Some(File::new(kind.label(), string_of(&chars_of(path)), key, size, last_modified, name))
}

} // verus!
