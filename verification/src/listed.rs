//! The extension table read entry by entry: what the classifier makes of each
//! extension that the table lists.

use crate::kind::{extension_kind, extension_table, table_get, ContentKind};
use vstd::prelude::*;

verus! {

/// The entry at index `i` decides the value of its key if no later entry
/// lists the key again.
pub proof fn lemma_last_entry_counts<V>(table: Seq<(&'static str, V)>, i: int)
    requires
        0 <= i < table.len(),
        forall|j: int| i < j < table.len() ==> (#[trigger] table[j]).0@ != table[i].0@,
    ensures
        table_get(table, table[i].0@) == Some(table[i].1),
    decreases table.len(),
{
    if i < table.len() - 1 {
        let rest = table.drop_last();
        assert(rest[i] == table[i]);
        assert forall|j: int| i < j < rest.len() implies (#[trigger] rest[j]).0@ != rest[i].0@ by {
            assert(rest[j] == table[j]);
        }
        lemma_last_entry_counts(rest, i);
    }
}

/// The letters of the extensions that the table lists.
proof fn lemma_extension_letters()
    ensures
        "markdown"@.len() == 8 && "markdown"@[0] == 'm' && "markdown"@[1] == 'a'
            && "markdown"@[2] == 'r' && "markdown"@[3] == 'k' && "markdown"@[4] == 'd'
            && "markdown"@[5] == 'o' && "markdown"@[6] == 'w' && "markdown"@[7] == 'n',
        "md"@.len() == 2 && "md"@[0] == 'm' && "md"@[1] == 'd',
        "docx"@.len() == 4 && "docx"@[0] == 'd' && "docx"@[1] == 'o' && "docx"@[2] == 'c'
            && "docx"@[3] == 'x',
        "xls"@.len() == 3 && "xls"@[0] == 'x' && "xls"@[1] == 'l' && "xls"@[2] == 's',
        "xlsx"@.len() == 4 && "xlsx"@[0] == 'x' && "xlsx"@[1] == 'l' && "xlsx"@[2] == 's'
            && "xlsx"@[3] == 'x',
        "xlsm"@.len() == 4 && "xlsm"@[0] == 'x' && "xlsm"@[1] == 'l' && "xlsm"@[2] == 's'
            && "xlsm"@[3] == 'm',
        "xlsb"@.len() == 4 && "xlsb"@[0] == 'x' && "xlsb"@[1] == 'l' && "xlsb"@[2] == 's'
            && "xlsb"@[3] == 'b',
        "xla"@.len() == 3 && "xla"@[0] == 'x' && "xla"@[1] == 'l' && "xla"@[2] == 'a',
        "xlam"@.len() == 4 && "xlam"@[0] == 'x' && "xlam"@[1] == 'l' && "xlam"@[2] == 'a'
            && "xlam"@[3] == 'm',
        "ods"@.len() == 3 && "ods"@[0] == 'o' && "ods"@[1] == 'd' && "ods"@[2] == 's',
        "csv"@.len() == 3 && "csv"@[0] == 'c' && "csv"@[1] == 's' && "csv"@[2] == 'v',
        "ttf"@.len() == 3 && "ttf"@[0] == 't' && "ttf"@[1] == 't' && "ttf"@[2] == 'f',
        "otf"@.len() == 3 && "otf"@[0] == 'o' && "otf"@[1] == 't' && "otf"@[2] == 'f',
        "woff2"@.len() == 5 && "woff2"@[0] == 'w' && "woff2"@[1] == 'o' && "woff2"@[2] == 'f'
            && "woff2"@[3] == 'f' && "woff2"@[4] == '2',
        "woff"@.len() == 4 && "woff"@[0] == 'w' && "woff"@[1] == 'o' && "woff"@[2] == 'f'
            && "woff"@[3] == 'f',
        "jpg"@.len() == 3 && "jpg"@[0] == 'j' && "jpg"@[1] == 'p' && "jpg"@[2] == 'g',
        "jpeg"@.len() == 4 && "jpeg"@[0] == 'j' && "jpeg"@[1] == 'p' && "jpeg"@[2] == 'e'
            && "jpeg"@[3] == 'g',
        "png"@.len() == 3 && "png"@[0] == 'p' && "png"@[1] == 'n' && "png"@[2] == 'g',
        "gif"@.len() == 3 && "gif"@[0] == 'g' && "gif"@[1] == 'i' && "gif"@[2] == 'f',
        "webp"@.len() == 4 && "webp"@[0] == 'w' && "webp"@[1] == 'e' && "webp"@[2] == 'b'
            && "webp"@[3] == 'p',
        "bmp"@.len() == 3 && "bmp"@[0] == 'b' && "bmp"@[1] == 'm' && "bmp"@[2] == 'p',
        "ico"@.len() == 3 && "ico"@[0] == 'i' && "ico"@[1] == 'c' && "ico"@[2] == 'o',
        "svg"@.len() == 3 && "svg"@[0] == 's' && "svg"@[1] == 'v' && "svg"@[2] == 'g',
        "apng"@.len() == 4 && "apng"@[0] == 'a' && "apng"@[1] == 'p' && "apng"@[2] == 'n'
            && "apng"@[3] == 'g',
        "psd"@.len() == 3 && "psd"@[0] == 'p' && "psd"@[1] == 's' && "psd"@[2] == 'd',
        "mp4"@.len() == 3 && "mp4"@[0] == 'm' && "mp4"@[1] == 'p' && "mp4"@[2] == '4',
        "webm"@.len() == 4 && "webm"@[0] == 'w' && "webm"@[1] == 'e' && "webm"@[2] == 'b'
            && "webm"@[3] == 'm',
        "mkv"@.len() == 3 && "mkv"@[0] == 'm' && "mkv"@[1] == 'k' && "mkv"@[2] == 'v',
        "avi"@.len() == 3 && "avi"@[0] == 'a' && "avi"@[1] == 'v' && "avi"@[2] == 'i',
        "mov"@.len() == 3 && "mov"@[0] == 'm' && "mov"@[1] == 'o' && "mov"@[2] == 'v',
        "wmv"@.len() == 3 && "wmv"@[0] == 'w' && "wmv"@[1] == 'm' && "wmv"@[2] == 'v',
        "mpg"@.len() == 3 && "mpg"@[0] == 'm' && "mpg"@[1] == 'p' && "mpg"@[2] == 'g',
        "mpeg"@.len() == 4 && "mpeg"@[0] == 'm' && "mpeg"@[1] == 'p' && "mpeg"@[2] == 'e'
            && "mpeg"@[3] == 'g',
        "m4v"@.len() == 3 && "m4v"@[0] == 'm' && "m4v"@[1] == '4' && "m4v"@[2] == 'v',
        "3gp"@.len() == 3 && "3gp"@[0] == '3' && "3gp"@[1] == 'g' && "3gp"@[2] == 'p',
        "3g2"@.len() == 3 && "3g2"@[0] == '3' && "3g2"@[1] == 'g' && "3g2"@[2] == '2',
        "mp3"@.len() == 3 && "mp3"@[0] == 'm' && "mp3"@[1] == 'p' && "mp3"@[2] == '3',
        "ogg"@.len() == 3 && "ogg"@[0] == 'o' && "ogg"@[1] == 'g' && "ogg"@[2] == 'g',
        "m4a"@.len() == 3 && "m4a"@[0] == 'm' && "m4a"@[1] == '4' && "m4a"@[2] == 'a',
        "7z"@.len() == 2 && "7z"@[0] == '7' && "7z"@[1] == 'z',
        "zip"@.len() == 3 && "zip"@[0] == 'z' && "zip"@[1] == 'i' && "zip"@[2] == 'p',
        "tar"@.len() == 3 && "tar"@[0] == 't' && "tar"@[1] == 'a' && "tar"@[2] == 'r',
        "gz"@.len() == 2 && "gz"@[0] == 'g' && "gz"@[1] == 'z',
        "tgz"@.len() == 3 && "tgz"@[0] == 't' && "tgz"@[1] == 'g' && "tgz"@[2] == 'z',
        "bz2"@.len() == 3 && "bz2"@[0] == 'b' && "bz2"@[1] == 'z' && "bz2"@[2] == '2',
        "tbz2"@.len() == 4 && "tbz2"@[0] == 't' && "tbz2"@[1] == 'b' && "tbz2"@[2] == 'z'
            && "tbz2"@[3] == '2',
        "xz"@.len() == 2 && "xz"@[0] == 'x' && "xz"@[1] == 'z',
        "txz"@.len() == 3 && "txz"@[0] == 't' && "txz"@[1] == 'x' && "txz"@[2] == 'z',
        "pdf"@.len() == 3 && "pdf"@[0] == 'p' && "pdf"@[1] == 'd' && "pdf"@[2] == 'f',
        "txt"@.len() == 3 && "txt"@[0] == 't' && "txt"@[1] == 'x' && "txt"@[2] == 't',
        "cpp"@.len() == 3 && "cpp"@[0] == 'c' && "cpp"@[1] == 'p' && "cpp"@[2] == 'p',
        "js"@.len() == 2 && "js"@[0] == 'j' && "js"@[1] == 's',
        "mjs"@.len() == 3 && "mjs"@[0] == 'm' && "mjs"@[1] == 'j' && "mjs"@[2] == 's',
        "cjs"@.len() == 3 && "cjs"@[0] == 'c' && "cjs"@[1] == 'j' && "cjs"@[2] == 's',
        "ts"@.len() == 2 && "ts"@[0] == 't' && "ts"@[1] == 's',
        "mts"@.len() == 3 && "mts"@[0] == 'm' && "mts"@[1] == 't' && "mts"@[2] == 's',
        "tsx"@.len() == 3 && "tsx"@[0] == 't' && "tsx"@[1] == 's' && "tsx"@[2] == 'x',
        "rs"@.len() == 2 && "rs"@[0] == 'r' && "rs"@[1] == 's',
        "py"@.len() == 2 && "py"@[0] == 'p' && "py"@[1] == 'y',
        "java"@.len() == 4 && "java"@[0] == 'j' && "java"@[1] == 'a' && "java"@[2] == 'v'
            && "java"@[3] == 'a',
        "html"@.len() == 4 && "html"@[0] == 'h' && "html"@[1] == 't' && "html"@[2] == 'm'
            && "html"@[3] == 'l',
        "css"@.len() == 3 && "css"@[0] == 'c' && "css"@[1] == 's' && "css"@[2] == 's',
        "scss"@.len() == 4 && "scss"@[0] == 's' && "scss"@[1] == 'c' && "scss"@[2] == 's'
            && "scss"@[3] == 's',
        "sass"@.len() == 4 && "sass"@[0] == 's' && "sass"@[1] == 'a' && "sass"@[2] == 's'
            && "sass"@[3] == 's',
        "less"@.len() == 4 && "less"@[0] == 'l' && "less"@[1] == 'e' && "less"@[2] == 's'
            && "less"@[3] == 's',
        "styl"@.len() == 4 && "styl"@[0] == 's' && "styl"@[1] == 't' && "styl"@[2] == 'y'
            && "styl"@[3] == 'l',
        "c"@.len() == 1 && "c"@[0] == 'c',
        "cs"@.len() == 2 && "cs"@[0] == 'c' && "cs"@[1] == 's',
        "go"@.len() == 2 && "go"@[0] == 'g' && "go"@[1] == 'o',
        "vue"@.len() == 3 && "vue"@[0] == 'v' && "vue"@[1] == 'u' && "vue"@[2] == 'e',
        "svelte"@.len() == 6 && "svelte"@[0] == 's' && "svelte"@[1] == 'v' && "svelte"@[2] == 'e'
            && "svelte"@[3] == 'l' && "svelte"@[4] == 't' && "svelte"@[5] == 'e',
        "astro"@.len() == 5 && "astro"@[0] == 'a' && "astro"@[1] == 's' && "astro"@[2] == 't'
            && "astro"@[3] == 'r' && "astro"@[4] == 'o',
        "jsx"@.len() == 3 && "jsx"@[0] == 'j' && "jsx"@[1] == 's' && "jsx"@[2] == 'x',
        "json"@.len() == 4 && "json"@[0] == 'j' && "json"@[1] == 's' && "json"@[2] == 'o'
            && "json"@[3] == 'n',
        "yml"@.len() == 3 && "yml"@[0] == 'y' && "yml"@[1] == 'm' && "yml"@[2] == 'l',
        "yaml"@.len() == 4 && "yaml"@[0] == 'y' && "yaml"@[1] == 'a' && "yaml"@[2] == 'm'
            && "yaml"@[3] == 'l',
        "toml"@.len() == 4 && "toml"@[0] == 't' && "toml"@[1] == 'o' && "toml"@[2] == 'm'
            && "toml"@[3] == 'l',
        "bat"@.len() == 3 && "bat"@[0] == 'b' && "bat"@[1] == 'a' && "bat"@[2] == 't',
        "ps1"@.len() == 3 && "ps1"@[0] == 'p' && "ps1"@[1] == 's' && "ps1"@[2] == '1',
        "ini"@.len() == 3 && "ini"@[0] == 'i' && "ini"@[1] == 'n' && "ini"@[2] == 'i',
        "swift"@.len() == 5 && "swift"@[0] == 's' && "swift"@[1] == 'w' && "swift"@[2] == 'i'
            && "swift"@[3] == 'f' && "swift"@[4] == 't',
        "kt"@.len() == 2 && "kt"@[0] == 'k' && "kt"@[1] == 't',
        "php"@.len() == 3 && "php"@[0] == 'p' && "php"@[1] == 'h' && "php"@[2] == 'p',
        "h"@.len() == 1 && "h"@[0] == 'h',
        "xml"@.len() == 3 && "xml"@[0] == 'x' && "xml"@[1] == 'm' && "xml"@[2] == 'l',
        "sql"@.len() == 3 && "sql"@[0] == 's' && "sql"@[1] == 'q' && "sql"@[2] == 'l',
        "pug"@.len() == 3 && "pug"@[0] == 'p' && "pug"@[1] == 'u' && "pug"@[2] == 'g',
        "lua"@.len() == 3 && "lua"@[0] == 'l' && "lua"@[1] == 'u' && "lua"@[2] == 'a',
        "r"@.len() == 1 && "r"@[0] == 'r',
        "d"@.len() == 1 && "d"@[0] == 'd',
        "vb"@.len() == 2 && "vb"@[0] == 'v' && "vb"@[1] == 'b',
        "pas"@.len() == 3 && "pas"@[0] == 'p' && "pas"@[1] == 'a' && "pas"@[2] == 's',
        "scala"@.len() == 5 && "scala"@[0] == 's' && "scala"@[1] == 'c' && "scala"@[2] == 'a'
            && "scala"@[3] == 'l' && "scala"@[4] == 'a',
        "m"@.len() == 1 && "m"@[0] == 'm',
        "log"@.len() == 3 && "log"@[0] == 'l' && "log"@[1] == 'o' && "log"@[2] == 'g',
        "bash"@.len() == 4 && "bash"@[0] == 'b' && "bash"@[1] == 'a' && "bash"@[2] == 's'
            && "bash"@[3] == 'h',
{
    reveal_strlit("markdown");
    reveal_strlit("md");
    reveal_strlit("docx");
    reveal_strlit("xls");
    reveal_strlit("xlsx");
    reveal_strlit("xlsm");
    reveal_strlit("xlsb");
    reveal_strlit("xla");
    reveal_strlit("xlam");
    reveal_strlit("ods");
    reveal_strlit("csv");
    reveal_strlit("ttf");
    reveal_strlit("otf");
    reveal_strlit("woff2");
    reveal_strlit("woff");
    reveal_strlit("jpg");
    reveal_strlit("jpeg");
    reveal_strlit("png");
    reveal_strlit("gif");
    reveal_strlit("webp");
    reveal_strlit("bmp");
    reveal_strlit("ico");
    reveal_strlit("svg");
    reveal_strlit("apng");
    reveal_strlit("psd");
    reveal_strlit("mp4");
    reveal_strlit("webm");
    reveal_strlit("mkv");
    reveal_strlit("avi");
    reveal_strlit("mov");
    reveal_strlit("wmv");
    reveal_strlit("mpg");
    reveal_strlit("mpeg");
    reveal_strlit("m4v");
    reveal_strlit("3gp");
    reveal_strlit("3g2");
    reveal_strlit("mp3");
    reveal_strlit("ogg");
    reveal_strlit("m4a");
    reveal_strlit("7z");
    reveal_strlit("zip");
    reveal_strlit("tar");
    reveal_strlit("gz");
    reveal_strlit("tgz");
    reveal_strlit("bz2");
    reveal_strlit("tbz2");
    reveal_strlit("xz");
    reveal_strlit("txz");
    reveal_strlit("pdf");
    reveal_strlit("txt");
    reveal_strlit("cpp");
    reveal_strlit("js");
    reveal_strlit("mjs");
    reveal_strlit("cjs");
    reveal_strlit("ts");
    reveal_strlit("mts");
    reveal_strlit("tsx");
    reveal_strlit("rs");
    reveal_strlit("py");
    reveal_strlit("java");
    reveal_strlit("html");
    reveal_strlit("css");
    reveal_strlit("scss");
    reveal_strlit("sass");
    reveal_strlit("less");
    reveal_strlit("styl");
    reveal_strlit("c");
    reveal_strlit("cs");
    reveal_strlit("go");
    reveal_strlit("vue");
    reveal_strlit("svelte");
    reveal_strlit("astro");
    reveal_strlit("jsx");
    reveal_strlit("json");
    reveal_strlit("yml");
    reveal_strlit("yaml");
    reveal_strlit("toml");
    reveal_strlit("bat");
    reveal_strlit("ps1");
    reveal_strlit("ini");
    reveal_strlit("swift");
    reveal_strlit("kt");
    reveal_strlit("php");
    reveal_strlit("h");
    reveal_strlit("xml");
    reveal_strlit("sql");
    reveal_strlit("pug");
    reveal_strlit("lua");
    reveal_strlit("r");
    reveal_strlit("d");
    reveal_strlit("vb");
    reveal_strlit("pas");
    reveal_strlit("scala");
    reveal_strlit("m");
    reveal_strlit("log");
    reveal_strlit("bash");
}

/// No entry from index 0 up to index 8 is listed again further down, but
/// for the first entry for `3gp`.
proof fn lemma_listed_once_0()
    ensures
        forall|i: int, j: int|
            0 <= i < 8 && i != 34 && i < j < 97 ==> (#[trigger] extension_table()[j]).0@
                != (#[trigger] extension_table()[i]).0@,
{
    lemma_extension_letters();
    let table = extension_table();
    assert(forall|j: int| 0 < j < 97 ==> (#[trigger] table[j]).0@ != table[0].0@);
    assert(forall|j: int| 1 < j < 97 ==> (#[trigger] table[j]).0@ != table[1].0@);
    assert(forall|j: int| 2 < j < 97 ==> (#[trigger] table[j]).0@ != table[2].0@);
    assert(forall|j: int| 3 < j < 97 ==> (#[trigger] table[j]).0@ != table[3].0@);
    assert(forall|j: int| 4 < j < 97 ==> (#[trigger] table[j]).0@ != table[4].0@);
    assert(forall|j: int| 5 < j < 97 ==> (#[trigger] table[j]).0@ != table[5].0@);
    assert(forall|j: int| 6 < j < 97 ==> (#[trigger] table[j]).0@ != table[6].0@);
    assert(forall|j: int| 7 < j < 97 ==> (#[trigger] table[j]).0@ != table[7].0@);
}

/// No entry from index 8 up to index 16 is listed again further down, but
/// for the first entry for `3gp`.
proof fn lemma_listed_once_8()
    ensures
        forall|i: int, j: int|
            8 <= i < 16 && i != 34 && i < j < 97 ==> (#[trigger] extension_table()[j]).0@
                != (#[trigger] extension_table()[i]).0@,
{
    lemma_extension_letters();
    let table = extension_table();
    assert(forall|j: int| 8 < j < 97 ==> (#[trigger] table[j]).0@ != table[8].0@);
    assert(forall|j: int| 9 < j < 97 ==> (#[trigger] table[j]).0@ != table[9].0@);
    assert(forall|j: int| 10 < j < 97 ==> (#[trigger] table[j]).0@ != table[10].0@);
    assert(forall|j: int| 11 < j < 97 ==> (#[trigger] table[j]).0@ != table[11].0@);
    assert(forall|j: int| 12 < j < 97 ==> (#[trigger] table[j]).0@ != table[12].0@);
    assert(forall|j: int| 13 < j < 97 ==> (#[trigger] table[j]).0@ != table[13].0@);
    assert(forall|j: int| 14 < j < 97 ==> (#[trigger] table[j]).0@ != table[14].0@);
    assert(forall|j: int| 15 < j < 97 ==> (#[trigger] table[j]).0@ != table[15].0@);
}

/// No entry from index 16 up to index 24 is listed again further down, but
/// for the first entry for `3gp`.
proof fn lemma_listed_once_16()
    ensures
        forall|i: int, j: int|
            16 <= i < 24 && i != 34 && i < j < 97 ==> (#[trigger] extension_table()[j]).0@
                != (#[trigger] extension_table()[i]).0@,
{
    lemma_extension_letters();
    let table = extension_table();
    assert(forall|j: int| 16 < j < 97 ==> (#[trigger] table[j]).0@ != table[16].0@);
    assert(forall|j: int| 17 < j < 97 ==> (#[trigger] table[j]).0@ != table[17].0@);
    assert(forall|j: int| 18 < j < 97 ==> (#[trigger] table[j]).0@ != table[18].0@);
    assert(forall|j: int| 19 < j < 97 ==> (#[trigger] table[j]).0@ != table[19].0@);
    assert(forall|j: int| 20 < j < 97 ==> (#[trigger] table[j]).0@ != table[20].0@);
    assert(forall|j: int| 21 < j < 97 ==> (#[trigger] table[j]).0@ != table[21].0@);
    assert(forall|j: int| 22 < j < 97 ==> (#[trigger] table[j]).0@ != table[22].0@);
    assert(forall|j: int| 23 < j < 97 ==> (#[trigger] table[j]).0@ != table[23].0@);
}

/// No entry from index 24 up to index 32 is listed again further down, but
/// for the first entry for `3gp`.
proof fn lemma_listed_once_24()
    ensures
        forall|i: int, j: int|
            24 <= i < 32 && i != 34 && i < j < 97 ==> (#[trigger] extension_table()[j]).0@
                != (#[trigger] extension_table()[i]).0@,
{
    lemma_extension_letters();
    let table = extension_table();
    assert(forall|j: int| 24 < j < 97 ==> (#[trigger] table[j]).0@ != table[24].0@);
    assert(forall|j: int| 25 < j < 97 ==> (#[trigger] table[j]).0@ != table[25].0@);
    assert(forall|j: int| 26 < j < 97 ==> (#[trigger] table[j]).0@ != table[26].0@);
    assert(forall|j: int| 27 < j < 97 ==> (#[trigger] table[j]).0@ != table[27].0@);
    assert(forall|j: int| 28 < j < 97 ==> (#[trigger] table[j]).0@ != table[28].0@);
    assert(forall|j: int| 29 < j < 97 ==> (#[trigger] table[j]).0@ != table[29].0@);
    assert(forall|j: int| 30 < j < 97 ==> (#[trigger] table[j]).0@ != table[30].0@);
    assert(forall|j: int| 31 < j < 97 ==> (#[trigger] table[j]).0@ != table[31].0@);
}

/// No entry from index 32 up to index 40 is listed again further down, but
/// for the first entry for `3gp`.
proof fn lemma_listed_once_32()
    ensures
        forall|i: int, j: int|
            32 <= i < 40 && i != 34 && i < j < 97 ==> (#[trigger] extension_table()[j]).0@
                != (#[trigger] extension_table()[i]).0@,
{
    lemma_extension_letters();
    let table = extension_table();
    assert(forall|j: int| 32 < j < 97 ==> (#[trigger] table[j]).0@ != table[32].0@);
    assert(forall|j: int| 33 < j < 97 ==> (#[trigger] table[j]).0@ != table[33].0@);
    assert(forall|j: int| 35 < j < 97 ==> (#[trigger] table[j]).0@ != table[35].0@);
    assert(forall|j: int| 36 < j < 97 ==> (#[trigger] table[j]).0@ != table[36].0@);
    assert(forall|j: int| 37 < j < 97 ==> (#[trigger] table[j]).0@ != table[37].0@);
    assert(forall|j: int| 38 < j < 97 ==> (#[trigger] table[j]).0@ != table[38].0@);
    assert(forall|j: int| 39 < j < 97 ==> (#[trigger] table[j]).0@ != table[39].0@);
}

/// No entry from index 40 up to index 48 is listed again further down, but
/// for the first entry for `3gp`.
proof fn lemma_listed_once_40()
    ensures
        forall|i: int, j: int|
            40 <= i < 48 && i != 34 && i < j < 97 ==> (#[trigger] extension_table()[j]).0@
                != (#[trigger] extension_table()[i]).0@,
{
    lemma_extension_letters();
    let table = extension_table();
    assert(forall|j: int| 40 < j < 97 ==> (#[trigger] table[j]).0@ != table[40].0@);
    assert(forall|j: int| 41 < j < 97 ==> (#[trigger] table[j]).0@ != table[41].0@);
    assert(forall|j: int| 42 < j < 97 ==> (#[trigger] table[j]).0@ != table[42].0@);
    assert(forall|j: int| 43 < j < 97 ==> (#[trigger] table[j]).0@ != table[43].0@);
    assert(forall|j: int| 44 < j < 97 ==> (#[trigger] table[j]).0@ != table[44].0@);
    assert(forall|j: int| 45 < j < 97 ==> (#[trigger] table[j]).0@ != table[45].0@);
    assert(forall|j: int| 46 < j < 97 ==> (#[trigger] table[j]).0@ != table[46].0@);
    assert(forall|j: int| 47 < j < 97 ==> (#[trigger] table[j]).0@ != table[47].0@);
}

/// No entry from index 48 up to index 56 is listed again further down, but
/// for the first entry for `3gp`.
proof fn lemma_listed_once_48()
    ensures
        forall|i: int, j: int|
            48 <= i < 56 && i != 34 && i < j < 97 ==> (#[trigger] extension_table()[j]).0@
                != (#[trigger] extension_table()[i]).0@,
{
    lemma_extension_letters();
    let table = extension_table();
    assert(forall|j: int| 48 < j < 97 ==> (#[trigger] table[j]).0@ != table[48].0@);
    assert(forall|j: int| 49 < j < 97 ==> (#[trigger] table[j]).0@ != table[49].0@);
    assert(forall|j: int| 50 < j < 97 ==> (#[trigger] table[j]).0@ != table[50].0@);
    assert(forall|j: int| 51 < j < 97 ==> (#[trigger] table[j]).0@ != table[51].0@);
    assert(forall|j: int| 52 < j < 97 ==> (#[trigger] table[j]).0@ != table[52].0@);
    assert(forall|j: int| 53 < j < 97 ==> (#[trigger] table[j]).0@ != table[53].0@);
    assert(forall|j: int| 54 < j < 97 ==> (#[trigger] table[j]).0@ != table[54].0@);
    assert(forall|j: int| 55 < j < 97 ==> (#[trigger] table[j]).0@ != table[55].0@);
}

/// No entry from index 56 up to index 64 is listed again further down, but
/// for the first entry for `3gp`.
proof fn lemma_listed_once_56()
    ensures
        forall|i: int, j: int|
            56 <= i < 64 && i != 34 && i < j < 97 ==> (#[trigger] extension_table()[j]).0@
                != (#[trigger] extension_table()[i]).0@,
{
    lemma_extension_letters();
    let table = extension_table();
    assert(forall|j: int| 56 < j < 97 ==> (#[trigger] table[j]).0@ != table[56].0@);
    assert(forall|j: int| 57 < j < 97 ==> (#[trigger] table[j]).0@ != table[57].0@);
    assert(forall|j: int| 58 < j < 97 ==> (#[trigger] table[j]).0@ != table[58].0@);
    assert(forall|j: int| 59 < j < 97 ==> (#[trigger] table[j]).0@ != table[59].0@);
    assert(forall|j: int| 60 < j < 97 ==> (#[trigger] table[j]).0@ != table[60].0@);
    assert(forall|j: int| 61 < j < 97 ==> (#[trigger] table[j]).0@ != table[61].0@);
    assert(forall|j: int| 62 < j < 97 ==> (#[trigger] table[j]).0@ != table[62].0@);
    assert(forall|j: int| 63 < j < 97 ==> (#[trigger] table[j]).0@ != table[63].0@);
}

/// No entry from index 64 up to index 72 is listed again further down, but
/// for the first entry for `3gp`.
proof fn lemma_listed_once_64()
    ensures
        forall|i: int, j: int|
            64 <= i < 72 && i != 34 && i < j < 97 ==> (#[trigger] extension_table()[j]).0@
                != (#[trigger] extension_table()[i]).0@,
{
    lemma_extension_letters();
    let table = extension_table();
    assert(forall|j: int| 64 < j < 97 ==> (#[trigger] table[j]).0@ != table[64].0@);
    assert(forall|j: int| 65 < j < 97 ==> (#[trigger] table[j]).0@ != table[65].0@);
    assert(forall|j: int| 66 < j < 97 ==> (#[trigger] table[j]).0@ != table[66].0@);
    assert(forall|j: int| 67 < j < 97 ==> (#[trigger] table[j]).0@ != table[67].0@);
    assert(forall|j: int| 68 < j < 97 ==> (#[trigger] table[j]).0@ != table[68].0@);
    assert(forall|j: int| 69 < j < 97 ==> (#[trigger] table[j]).0@ != table[69].0@);
    assert(forall|j: int| 70 < j < 97 ==> (#[trigger] table[j]).0@ != table[70].0@);
    assert(forall|j: int| 71 < j < 97 ==> (#[trigger] table[j]).0@ != table[71].0@);
}

/// No entry from index 72 up to index 80 is listed again further down, but
/// for the first entry for `3gp`.
proof fn lemma_listed_once_72()
    ensures
        forall|i: int, j: int|
            72 <= i < 80 && i != 34 && i < j < 97 ==> (#[trigger] extension_table()[j]).0@
                != (#[trigger] extension_table()[i]).0@,
{
    lemma_extension_letters();
    let table = extension_table();
    assert(forall|j: int| 72 < j < 97 ==> (#[trigger] table[j]).0@ != table[72].0@);
    assert(forall|j: int| 73 < j < 97 ==> (#[trigger] table[j]).0@ != table[73].0@);
    assert(forall|j: int| 74 < j < 97 ==> (#[trigger] table[j]).0@ != table[74].0@);
    assert(forall|j: int| 75 < j < 97 ==> (#[trigger] table[j]).0@ != table[75].0@);
    assert(forall|j: int| 76 < j < 97 ==> (#[trigger] table[j]).0@ != table[76].0@);
    assert(forall|j: int| 77 < j < 97 ==> (#[trigger] table[j]).0@ != table[77].0@);
    assert(forall|j: int| 78 < j < 97 ==> (#[trigger] table[j]).0@ != table[78].0@);
    assert(forall|j: int| 79 < j < 97 ==> (#[trigger] table[j]).0@ != table[79].0@);
}

/// No entry from index 80 up to index 88 is listed again further down, but
/// for the first entry for `3gp`.
proof fn lemma_listed_once_80()
    ensures
        forall|i: int, j: int|
            80 <= i < 88 && i != 34 && i < j < 97 ==> (#[trigger] extension_table()[j]).0@
                != (#[trigger] extension_table()[i]).0@,
{
    lemma_extension_letters();
    let table = extension_table();
    assert(forall|j: int| 80 < j < 97 ==> (#[trigger] table[j]).0@ != table[80].0@);
    assert(forall|j: int| 81 < j < 97 ==> (#[trigger] table[j]).0@ != table[81].0@);
    assert(forall|j: int| 82 < j < 97 ==> (#[trigger] table[j]).0@ != table[82].0@);
    assert(forall|j: int| 83 < j < 97 ==> (#[trigger] table[j]).0@ != table[83].0@);
    assert(forall|j: int| 84 < j < 97 ==> (#[trigger] table[j]).0@ != table[84].0@);
    assert(forall|j: int| 85 < j < 97 ==> (#[trigger] table[j]).0@ != table[85].0@);
    assert(forall|j: int| 86 < j < 97 ==> (#[trigger] table[j]).0@ != table[86].0@);
    assert(forall|j: int| 87 < j < 97 ==> (#[trigger] table[j]).0@ != table[87].0@);
}

/// No entry from index 88 up to index 96 is listed again further down, but
/// for the first entry for `3gp`.
proof fn lemma_listed_once_88()
    ensures
        forall|i: int, j: int|
            88 <= i < 96 && i != 34 && i < j < 97 ==> (#[trigger] extension_table()[j]).0@
                != (#[trigger] extension_table()[i]).0@,
{
    lemma_extension_letters();
    let table = extension_table();
    assert(forall|j: int| 88 < j < 97 ==> (#[trigger] table[j]).0@ != table[88].0@);
    assert(forall|j: int| 89 < j < 97 ==> (#[trigger] table[j]).0@ != table[89].0@);
    assert(forall|j: int| 90 < j < 97 ==> (#[trigger] table[j]).0@ != table[90].0@);
    assert(forall|j: int| 91 < j < 97 ==> (#[trigger] table[j]).0@ != table[91].0@);
    assert(forall|j: int| 92 < j < 97 ==> (#[trigger] table[j]).0@ != table[92].0@);
    assert(forall|j: int| 93 < j < 97 ==> (#[trigger] table[j]).0@ != table[93].0@);
    assert(forall|j: int| 94 < j < 97 ==> (#[trigger] table[j]).0@ != table[94].0@);
    assert(forall|j: int| 95 < j < 97 ==> (#[trigger] table[j]).0@ != table[95].0@);
}

/// No entry from index 96 up to index 97 is listed again further down, but
/// for the first entry for `3gp`.
proof fn lemma_listed_once_96()
    ensures
        forall|i: int, j: int|
            96 <= i < 97 && i != 34 && i < j < 97 ==> (#[trigger] extension_table()[j]).0@
                != (#[trigger] extension_table()[i]).0@,
{
    lemma_extension_letters();
    let table = extension_table();
    assert(forall|j: int| 96 < j < 97 ==> (#[trigger] table[j]).0@ != table[96].0@);
}

/// The classifier gives every extension the kind that the table lists it
/// with. The one entry of which this does not hold is the first of the two
/// for `3gp`, which the second overrides.
pub proof fn lemma_listed_kind(i: int)
    requires
        0 <= i < extension_table().len(),
        !(extension_table()[i].0@ == "3gp"@ && extension_table()[i].1 == ContentKind::Video),
    ensures
        extension_kind(extension_table()[i].0@) == extension_table()[i].1,
{
    let table = extension_table();
    assert(table.len() == 97);
    assert(table[34].0@ == "3gp"@ && table[34].1 == ContentKind::Video);
    lemma_listed_once_0();
    lemma_listed_once_8();
    lemma_listed_once_16();
    lemma_listed_once_24();
    lemma_listed_once_32();
    lemma_listed_once_40();
    lemma_listed_once_48();
    lemma_listed_once_56();
    lemma_listed_once_64();
    lemma_listed_once_72();
    lemma_listed_once_80();
    lemma_listed_once_88();
    lemma_listed_once_96();
    lemma_last_entry_counts(table, i);
}

} // verus!
