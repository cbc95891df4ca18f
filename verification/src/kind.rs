//! Content kinds, and the two closed tables that decide them: file extension
//! to kind, and well-known file name to language.

use crate::text::{chars_equal, chars_of, string_of};
use vstd::prelude::*;

verus! {

/// What a file holds, as far as the preview surface needs to know.
#[derive(Clone, Copy, Debug, PartialEq, Eq, Structural)]
pub enum ContentKind {
    Markdown,
    Text,
    Image,
    Audio,
    Video,
    Font,
    Code,
    Archive,
    Document,
    Book,
    Unsupported,
}

impl ContentKind {
    /// The name under which the preview surface knows this kind.
    pub open spec fn label_text(self) -> Seq<char> {
        match self {
            ContentKind::Markdown => "Markdown"@,
            ContentKind::Text => "Text"@,
            ContentKind::Image => "Image"@,
            ContentKind::Audio => "Audio"@,
            ContentKind::Video => "Video"@,
            ContentKind::Font => "Font"@,
            ContentKind::Code => "Code"@,
            ContentKind::Archive => "Archive"@,
            ContentKind::Document => "Doc"@,
            ContentKind::Book => "Book"@,
            ContentKind::Unsupported => "Unsupported"@,
        }
    }

    /// The name under which the preview surface knows this kind.
    pub fn label(&self) -> (name: &'static str)
        ensures
            name@ == self.label_text(),
    {
        match self {
            ContentKind::Markdown => "Markdown",
            ContentKind::Text => "Text",
            ContentKind::Image => "Image",
            ContentKind::Audio => "Audio",
            ContentKind::Video => "Video",
            ContentKind::Font => "Font",
            ContentKind::Code => "Code",
            ContentKind::Archive => "Archive",
            ContentKind::Document => "Doc",
            ContentKind::Book => "Book",
            ContentKind::Unsupported => "Unsupported",
        }
    }
}

/// The kinds, each by its name.
pub open spec fn label_table() -> Seq<(&'static str, ContentKind)> {
    seq![
        ("Markdown", ContentKind::Markdown),
        ("Text", ContentKind::Text),
        ("Image", ContentKind::Image),
        ("Audio", ContentKind::Audio),
        ("Video", ContentKind::Video),
        ("Font", ContentKind::Font),
        ("Code", ContentKind::Code),
        ("Archive", ContentKind::Archive),
        ("Doc", ContentKind::Document),
        ("Book", ContentKind::Book),
    ]
}

/// The kind that is named `label`; a name that names no kind stands for
/// `Unsupported`.
pub open spec fn kind_of_label(label: Seq<char>) -> ContentKind {
    match table_get(label_table(), label) {
        Some(kind) => kind,
        None => ContentKind::Unsupported,
    }
}

/// The kind that is named `label`.
pub fn kind_from_label(label: &str) -> (kind: ContentKind)
    ensures
        kind == kind_of_label(label@),
{
    let table: Vec<(&'static str, ContentKind)> = vec![
        ("Markdown", ContentKind::Markdown),
        ("Text", ContentKind::Text),
        ("Image", ContentKind::Image),
        ("Audio", ContentKind::Audio),
        ("Video", ContentKind::Video),
        ("Font", ContentKind::Font),
        ("Code", ContentKind::Code),
        ("Archive", ContentKind::Archive),
        ("Doc", ContentKind::Document),
        ("Book", ContentKind::Book),
    ];
    match lookup(&table, label) {
        Some(kind) => kind,
        None => ContentKind::Unsupported,
    }
}

/// The value that `table` gives for `key`. Where a key is listed more than
/// once the last entry counts, as in a map filled from the list in order.
pub open spec fn table_get<V>(table: Seq<(&'static str, V)>, key: Seq<char>) -> Option<V>
    decreases table.len(),
{
    if table.len() == 0 {
        None
    } else if table.last().0@ == key {
        Some(table.last().1)
    } else {
        table_get(table.drop_last(), key)
    }
}

/// A key has a value in a table exactly when some entry lists it, and then the
/// value is that of an entry that lists it.
pub proof fn lemma_table_get<V>(table: Seq<(&'static str, V)>, key: Seq<char>)
    ensures
        table_get(table, key) is Some <==> exists|i: int|
            0 <= i < table.len() && (#[trigger] table[i]).0@ == key,
        table_get(table, key) matches Some(v) ==> exists|i: int|
            0 <= i < table.len() && (#[trigger] table[i]).0@ == key && table[i].1 == v,
    decreases table.len(),
{
    if table.len() > 0 && table.last().0@ != key {
        let rest = table.drop_last();
        lemma_table_get(rest, key);
        if table_get(rest, key) is Some {
            let i = choose|i: int|
                0 <= i < rest.len() && (#[trigger] rest[i]).0@ == key && rest[i].1 == table_get(
                    rest,
                    key,
                )->0;
            assert(table[i].0@ == key && table[i].1 == table_get(table, key)->0);
        } else {
            assert forall|i: int| 0 <= i < table.len() implies (#[trigger] table[i]).0@ != key by {
                if i < rest.len() {
                    assert(rest[i].0@ != key);
                }
            }
        }
    }
}

/// Looks `key` up in `table`.
pub fn lookup<V: Copy>(table: &Vec<(&'static str, V)>, key: &str) -> (found: Option<V>)
    ensures
        found == table_get(table@, key@),
{
    let wanted = chars_of(key);
    let mut i: usize = table.len();
    assert(table@.take(i as int) == table@);
    while i > 0
        invariant
            i <= table.len(),
            wanted@ == key@,
            table_get(table@, key@) == table_get(table@.take(i as int), key@),
        decreases i,
    {
        let entry = table[i - 1];
        let listed = chars_of(entry.0);
        if chars_equal(&listed, &wanted) {
            return Some(entry.1);
        }
        assert(table@.take(i as int).drop_last() == table@.take(i - 1));
        i = i - 1;
    }
    None
}

/// The extensions that can be previewed, lower-case and without the dot, each
/// with its kind.
pub open spec fn extension_table() -> Seq<(&'static str, ContentKind)> {
    seq![
        ("markdown", ContentKind::Markdown),
        ("md", ContentKind::Markdown),
        ("docx", ContentKind::Document),
        ("xls", ContentKind::Document),
        ("xlsx", ContentKind::Document),
        ("xlsm", ContentKind::Document),
        ("xlsb", ContentKind::Document),
        ("xla", ContentKind::Document),
        ("xlam", ContentKind::Document),
        ("ods", ContentKind::Document),
        ("csv", ContentKind::Document),
        ("ttf", ContentKind::Font),
        ("otf", ContentKind::Font),
        ("woff2", ContentKind::Font),
        ("woff", ContentKind::Font),
        ("jpg", ContentKind::Image),
        ("jpeg", ContentKind::Image),
        ("png", ContentKind::Image),
        ("gif", ContentKind::Image),
        ("webp", ContentKind::Image),
        ("bmp", ContentKind::Image),
        ("ico", ContentKind::Image),
        ("svg", ContentKind::Image),
        ("apng", ContentKind::Image),
        ("psd", ContentKind::Image),
        ("mp4", ContentKind::Video),
        ("webm", ContentKind::Video),
        ("mkv", ContentKind::Video),
        ("avi", ContentKind::Video),
        ("mov", ContentKind::Video),
        ("wmv", ContentKind::Video),
        ("mpg", ContentKind::Video),
        ("mpeg", ContentKind::Video),
        ("m4v", ContentKind::Video),
        ("3gp", ContentKind::Video),
        ("3g2", ContentKind::Video),
        ("mp3", ContentKind::Audio),
        ("3gp", ContentKind::Audio),
        ("ogg", ContentKind::Audio),
        ("m4a", ContentKind::Audio),
        ("7z", ContentKind::Archive),
        ("zip", ContentKind::Archive),
        ("tar", ContentKind::Archive),
        ("gz", ContentKind::Archive),
        ("tgz", ContentKind::Archive),
        ("bz2", ContentKind::Archive),
        ("tbz2", ContentKind::Archive),
        ("xz", ContentKind::Archive),
        ("txz", ContentKind::Archive),
        ("pdf", ContentKind::Book),
        ("txt", ContentKind::Code),
        ("cpp", ContentKind::Code),
        ("js", ContentKind::Code),
        ("mjs", ContentKind::Code),
        ("cjs", ContentKind::Code),
        ("ts", ContentKind::Code),
        ("mts", ContentKind::Code),
        ("tsx", ContentKind::Code),
        ("rs", ContentKind::Code),
        ("py", ContentKind::Code),
        ("java", ContentKind::Code),
        ("html", ContentKind::Code),
        ("css", ContentKind::Code),
        ("scss", ContentKind::Code),
        ("sass", ContentKind::Code),
        ("less", ContentKind::Code),
        ("styl", ContentKind::Code),
        ("c", ContentKind::Code),
        ("cs", ContentKind::Code),
        ("go", ContentKind::Code),
        ("vue", ContentKind::Code),
        ("svelte", ContentKind::Code),
        ("astro", ContentKind::Code),
        ("jsx", ContentKind::Code),
        ("json", ContentKind::Code),
        ("yml", ContentKind::Code),
        ("yaml", ContentKind::Code),
        ("toml", ContentKind::Code),
        ("bat", ContentKind::Code),
        ("ps1", ContentKind::Code),
        ("ini", ContentKind::Code),
        ("swift", ContentKind::Code),
        ("kt", ContentKind::Code),
        ("php", ContentKind::Code),
        ("h", ContentKind::Code),
        ("xml", ContentKind::Code),
        ("sql", ContentKind::Code),
        ("pug", ContentKind::Code),
        ("lua", ContentKind::Code),
        ("r", ContentKind::Code),
        ("d", ContentKind::Code),
        ("vb", ContentKind::Code),
        ("pas", ContentKind::Code),
        ("scala", ContentKind::Code),
        ("m", ContentKind::Code),
        ("log", ContentKind::Code),
        ("bash", ContentKind::Code),
    ]
}

/// The kind of a file whose lower-case extension is `extension`:
/// what the extension table says, and `Unsupported` for what it does not list.
pub open spec fn extension_kind(extension: Seq<char>) -> ContentKind {
    match table_get(extension_table(), extension) {
        Some(kind) => kind,
        None => ContentKind::Unsupported,
    }
}

/// The classifier follows the extension table: an extension that the table
/// lists gets the kind of an entry that lists it, and an extension that the
/// table does not list is unsupported.
pub proof fn lemma_classifier_follows_table(extension: Seq<char>)
    ensures
        (exists|i: int|
            0 <= i < extension_table().len() && (#[trigger] extension_table()[i]).0@ == extension)
            ==> exists|i: int|
            0 <= i < extension_table().len() && (#[trigger] extension_table()[i]).0@ == extension
                && extension_table()[i].1 == extension_kind(extension),
        (forall|i: int|
            0 <= i < extension_table().len() ==> (#[trigger] extension_table()[i]).0@ != extension)
            ==> extension_kind(extension) == ContentKind::Unsupported,
{
    lemma_table_get(extension_table(), extension);
}

/// The extension table.
pub fn file_type_mapping() -> (table: Vec<(&'static str, ContentKind)>)
    ensures
        table@ == extension_table(),
{
    vec![
        ("markdown", ContentKind::Markdown),
        ("md", ContentKind::Markdown),
        ("docx", ContentKind::Document),
        ("xls", ContentKind::Document),
        ("xlsx", ContentKind::Document),
        ("xlsm", ContentKind::Document),
        ("xlsb", ContentKind::Document),
        ("xla", ContentKind::Document),
        ("xlam", ContentKind::Document),
        ("ods", ContentKind::Document),
        ("csv", ContentKind::Document),
        ("ttf", ContentKind::Font),
        ("otf", ContentKind::Font),
        ("woff2", ContentKind::Font),
        ("woff", ContentKind::Font),
        ("jpg", ContentKind::Image),
        ("jpeg", ContentKind::Image),
        ("png", ContentKind::Image),
        ("gif", ContentKind::Image),
        ("webp", ContentKind::Image),
        ("bmp", ContentKind::Image),
        ("ico", ContentKind::Image),
        ("svg", ContentKind::Image),
        ("apng", ContentKind::Image),
        ("psd", ContentKind::Image),
        ("mp4", ContentKind::Video),
        ("webm", ContentKind::Video),
        ("mkv", ContentKind::Video),
        ("avi", ContentKind::Video),
        ("mov", ContentKind::Video),
        ("wmv", ContentKind::Video),
        ("mpg", ContentKind::Video),
        ("mpeg", ContentKind::Video),
        ("m4v", ContentKind::Video),
        ("3gp", ContentKind::Video),
        ("3g2", ContentKind::Video),
        ("mp3", ContentKind::Audio),
        ("3gp", ContentKind::Audio),
        ("ogg", ContentKind::Audio),
        ("m4a", ContentKind::Audio),
        ("7z", ContentKind::Archive),
        ("zip", ContentKind::Archive),
        ("tar", ContentKind::Archive),
        ("gz", ContentKind::Archive),
        ("tgz", ContentKind::Archive),
        ("bz2", ContentKind::Archive),
        ("tbz2", ContentKind::Archive),
        ("xz", ContentKind::Archive),
        ("txz", ContentKind::Archive),
        ("pdf", ContentKind::Book),
        ("txt", ContentKind::Code),
        ("cpp", ContentKind::Code),
        ("js", ContentKind::Code),
        ("mjs", ContentKind::Code),
        ("cjs", ContentKind::Code),
        ("ts", ContentKind::Code),
        ("mts", ContentKind::Code),
        ("tsx", ContentKind::Code),
        ("rs", ContentKind::Code),
        ("py", ContentKind::Code),
        ("java", ContentKind::Code),
        ("html", ContentKind::Code),
        ("css", ContentKind::Code),
        ("scss", ContentKind::Code),
        ("sass", ContentKind::Code),
        ("less", ContentKind::Code),
        ("styl", ContentKind::Code),
        ("c", ContentKind::Code),
        ("cs", ContentKind::Code),
        ("go", ContentKind::Code),
        ("vue", ContentKind::Code),
        ("svelte", ContentKind::Code),
        ("astro", ContentKind::Code),
        ("jsx", ContentKind::Code),
        ("json", ContentKind::Code),
        ("yml", ContentKind::Code),
        ("yaml", ContentKind::Code),
        ("toml", ContentKind::Code),
        ("bat", ContentKind::Code),
        ("ps1", ContentKind::Code),
        ("ini", ContentKind::Code),
        ("swift", ContentKind::Code),
        ("kt", ContentKind::Code),
        ("php", ContentKind::Code),
        ("h", ContentKind::Code),
        ("xml", ContentKind::Code),
        ("sql", ContentKind::Code),
        ("pug", ContentKind::Code),
        ("lua", ContentKind::Code),
        ("r", ContentKind::Code),
        ("d", ContentKind::Code),
        ("vb", ContentKind::Code),
        ("pas", ContentKind::Code),
        ("scala", ContentKind::Code),
        ("m", ContentKind::Code),
        ("log", ContentKind::Code),
        ("bash", ContentKind::Code),
    ]
}

/// The kind of a file whose lower-case extension is `extension`.
pub fn classify_extension(extension: &str) -> (kind: ContentKind)
    ensures
        kind == extension_kind(extension@),
{
    let table = file_type_mapping();
    match lookup(&table, extension) {
        Some(kind) => kind,
        None => ContentKind::Unsupported,
    }
}

/// File names that carry no extension and are known all the same, each with
/// the language its content is written in.
pub open spec fn name_table() -> Seq<(&'static str, &'static str)> {
    seq![
        ("README", "markdown"),
        ("CHANGELOG", "markdown"),
        ("TODO", "markdown"),
        ("LICENSE", "text"),
        ("COPYING", "text"),
        ("AUTHORS", "text"),
        ("CONTRIBUTORS", "text"),
        ("Makefile", "makefile"),
        ("Dockerfile", "docker"),
        ("Jenkinsfile", "groovy"),
        ("Rakefile", "ruby"),
        ("Gemfile", "ruby"),
        ("Capfile", "ruby"),
        ("Podfile", "ruby"),
        ("Fastfile", "ruby"),
        ("Guardfile", "ruby"),
        ("Brewfile", "ruby"),
        ("Procfile", "yaml"),
        ("Vagrantfile", "ruby"),
        ("Caskfile", "ruby"),
        ("Appfile", "ruby"),
        ("Dangerfile", "ruby"),
        ("Deliverfile", "ruby"),
        ("Snapfile", "ruby"),
        (".npmrc", "ini"),
        (".yarnrc", "ini"),
        (".editorconfig", "ini"),
        (".gitconfig", "ini"),
        (".env", "ini"),
        (".bashrc", "bash"),
        (".zshrc", "bash"),
        (".profile", "bash"),
        (".bash_profile", "bash"),
        ("PKGBUILD", "bash"),
        ("Justfile", "makefile"),
        ("Snakefile", "python"),
        ("BUILD", "python"),
        ("WORKSPACE", "python"),
    ]
}

/// The language of an extension-less file called `name`: what the name table
/// says, and plain text (`txt`) for a name it does not list.
pub open spec fn language_of_name(name: Seq<char>) -> Seq<char> {
    match table_get(name_table(), name) {
        Some(language) => language@,
        None => "txt"@,
    }
}

/// The name table.
pub fn build_name_to_lang() -> (table: Vec<(&'static str, &'static str)>)
    ensures
        table@ == name_table(),
{
    vec![
        ("README", "markdown"),
        ("CHANGELOG", "markdown"),
        ("TODO", "markdown"),
        ("LICENSE", "text"),
        ("COPYING", "text"),
        ("AUTHORS", "text"),
        ("CONTRIBUTORS", "text"),
        ("Makefile", "makefile"),
        ("Dockerfile", "docker"),
        ("Jenkinsfile", "groovy"),
        ("Rakefile", "ruby"),
        ("Gemfile", "ruby"),
        ("Capfile", "ruby"),
        ("Podfile", "ruby"),
        ("Fastfile", "ruby"),
        ("Guardfile", "ruby"),
        ("Brewfile", "ruby"),
        ("Procfile", "yaml"),
        ("Vagrantfile", "ruby"),
        ("Caskfile", "ruby"),
        ("Appfile", "ruby"),
        ("Dangerfile", "ruby"),
        ("Deliverfile", "ruby"),
        ("Snapfile", "ruby"),
        (".npmrc", "ini"),
        (".yarnrc", "ini"),
        (".editorconfig", "ini"),
        (".gitconfig", "ini"),
        (".env", "ini"),
        (".bashrc", "bash"),
        (".zshrc", "bash"),
        (".profile", "bash"),
        (".bash_profile", "bash"),
        ("PKGBUILD", "bash"),
        ("Justfile", "makefile"),
        ("Snakefile", "python"),
        ("BUILD", "python"),
        ("WORKSPACE", "python"),
    ]
}

/// The language of an extension-less file called `file_name`.
pub fn detect_language_no_ext(file_name: &str) -> (language: String)
    ensures
        language@ == language_of_name(file_name@),
{
    let table = build_name_to_lang();
    let found = match lookup(&table, file_name) {
        Some(language) => language,
        None => "txt",
    };
    string_of(&chars_of(found))
}

} // verus!
