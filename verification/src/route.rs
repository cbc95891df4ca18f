//! Navigation targets of the preview surface: one logical route for each
//! kind, with the file's descriptor carried as query parameters.

use crate::file::{file_info_of, get_file_info, File, FileView};
use crate::kind::{lookup, table_get};
use crate::text::{chars_of, decimal, push_decimal, push_text, string_of};
use vstd::prelude::*;
use vstd::utf8::encode_utf8;

verus! {

/// The byte `b` stands for itself in a percent-encoded text: it is an ASCII
/// letter or digit, or one of `-`, `.`, `_`, `~`.
pub open spec fn is_unreserved(b: u8) -> bool {
    ||| 0x30 <= b <= 0x39
    ||| 0x41 <= b <= 0x5a
    ||| 0x61 <= b <= 0x7a
    ||| b == 0x2d
    ||| b == 0x2e
    ||| b == 0x5f
    ||| b == 0x7e
}

/// The upper-case hexadecimal digit for `d`, where `0 <= d < 16`.
pub open spec fn hex_digit(d: int) -> char {
    if d < 10 {
        (48 + d) as char
    } else {
        (55 + d) as char
    }
}

/// How one byte is written in a percent-encoded text.
pub open spec fn encoded_byte(b: u8) -> Seq<char> {
    if is_unreserved(b) {
        seq![b as char]
    } else {
        seq!['%', hex_digit(b as int / 16), hex_digit(b as int % 16)]
    }
}

/// The percent-encoded form of `bytes`.
pub open spec fn percent_encoded(bytes: Seq<u8>) -> Seq<char>
    decreases bytes.len(),
{
    if bytes.len() == 0 {
        Seq::empty()
    } else {
        encoded_byte(bytes[0]) + percent_encoded(bytes.drop_first())
    }
}

/// The percent-encoded form of the UTF-8 bytes of `s`.
///
/// Trusted: stands for `urlencoding::encode`, which keeps ASCII letters,
/// digits and `-`, `.`, `_`, `~` as they are and writes every other byte of
/// the text's UTF-8 form as `%` and two upper-case hexadecimal digits.
#[verifier::external_body]
fn percent_encode(s: &str) -> (encoded: String)
    ensures
        encoded@ == percent_encoded(encode_utf8(s@)),
{
    urlencoding::encode(s).into_owned()
}

/// What a route holds, as plain values.
pub struct WebRouteView {
    pub path: Seq<char>,
    pub query: FileView,
}

/// A navigation target: the logical path of a preview page and the descriptor
/// of the file that the page is to show.
#[derive(Debug, PartialEq, Eq)]
pub struct WebRoute {
    path: String,
    query: File,
}

impl View for WebRoute {
    type V = WebRouteView;

    closed spec fn view(&self) -> WebRouteView {
        WebRouteView { path: self.path@, query: self.query@ }
    }
}

impl Clone for WebRoute {
    fn clone(&self) -> (copy: Self)
        ensures
            copy@ == self@,
    {
        WebRoute { path: self.path.clone(), query: self.query.clone() }
    }
}

/// The kinds that have a preview page of their own, each by its name, with
/// the page's logical path.
pub open spec fn route_table() -> Seq<(&'static str, &'static str)> {
    seq![
        ("Markdown", "/preview/md"),
        ("Image", "/preview/image"),
        ("Audio", "/preview/audio"),
        ("Video", "/preview/video"),
        ("Font", "/preview/font"),
        ("Code", "/preview/code"),
        ("Book", "/preview/book"),
        ("Archive", "/preview/archive"),
        ("Doc", "/preview/document"),
    ]
}

/// The logical path of the page that previews files of the kind named
/// `type_str`; any other name leads to the page that says so.
pub open spec fn route_path(type_str: Seq<char>) -> Seq<char> {
    match table_get(route_table(), type_str) {
        Some(path) => path@,
        None => "/preview/not-support"@,
    }
}

/// The address that the preview surface is sent to for `route`: the logical
/// path, then the descriptor as query parameters, of which only the path is
/// percent-encoded.
pub open spec fn url_of(route: WebRouteView) -> Seq<char> {
    route.path + "?file_type="@ + route.query.file_type + "&path="@ + percent_encoded(
        encode_utf8(route.query.path),
    ) + "&extension="@ + route.query.extension + "&size="@ + decimal(route.query.size as nat)
        + "&last_modified="@ + decimal(route.query.last_modified as nat) + "&name="@
        + route.query.name
}

impl WebRoute {
    /// The route with the given logical path and descriptor.
    pub fn new(path: String, query: File) -> (route: Self)
        ensures
            route@ == (WebRouteView { path: path@, query: query@ }),
    {
        Self { path, query }
    }

    /// The route on which `file_info` is previewed as a file of the kind named
    /// `type_str`.
    pub fn get_route(type_str: &str, file_info: &File) -> (route: WebRoute)
        ensures
            route@ == (WebRouteView { path: route_path(type_str@), query: file_info@ }),
    {
        let table: Vec<(&'static str, &'static str)> = vec![
            ("Markdown", "/preview/md"),
            ("Image", "/preview/image"),
            ("Audio", "/preview/audio"),
            ("Video", "/preview/video"),
            ("Font", "/preview/font"),
            ("Code", "/preview/code"),
            ("Book", "/preview/book"),
            ("Archive", "/preview/archive"),
            ("Doc", "/preview/document"),
        ];
        let path = match lookup(&table, type_str) {
            Some(path) => path,
            None => "/preview/not-support",
        };
        WebRoute::new(string_of(&chars_of(path)), file_info.clone())
    }

    /// The logical path of the preview page.
    pub fn path(&self) -> (path: &String)
        ensures
            path@ == self@.path,
    {
        &self.path
    }

    /// The descriptor of the file that the page is to show.
    pub fn query(&self) -> (query: &File)
        ensures
            query@ == self@.query,
    {
        &self.query
    }

    /// The address that the preview surface is sent to.
    pub fn to_url(&self) -> (url: String)
        ensures
            url@ == url_of(self@),
    {
        let mut out = chars_of(self.path.as_str());
        push_text(&mut out, "?file_type=");
        push_text(&mut out, self.query.get_file_type().as_str());
        push_text(&mut out, "&path=");
        push_text(&mut out, percent_encode(self.query.get_path().as_str()).as_str());
        push_text(&mut out, "&extension=");
        push_text(&mut out, self.query.get_extension().as_str());
        push_text(&mut out, "&size=");
        push_decimal(&mut out, self.query.get_size());
        push_text(&mut out, "&last_modified=");
        push_decimal(&mut out, self.query.get_last_modified());
        push_text(&mut out, "&name=");
        push_text(&mut out, self.query.get_name().as_str());
        string_of(&out)
    }
}

/// The address at which a file described by `file` is previewed: that of the
/// route of its kind.
pub open spec fn navigation_of(file: FileView) -> Seq<char> {
    url_of(WebRouteView { path: route_path(file.file_type), query: file })
}

/// The address at which the file at `path` is previewed, where it can be.
pub open spec fn navigation_of_path(
    path: Seq<char>,
    is_file: bool,
    size: u64,
    last_modified: u64,
) -> Option<Seq<char>> {
    match file_info_of(path, is_file, size, last_modified) {
        Some(file) => Some(navigation_of(file)),
        None => None,
    }
}

/// Routes a resolved path: builds its descriptor and from it the address that
/// the preview surface is sent to. There is none for what cannot be previewed.
pub fn route_path_to_url(path: &str, is_file: bool, size: u64, last_modified: u64) -> (url: Option<
    String,
>)
    ensures
        match url {
            Some(address) => navigation_of_path(path@, is_file, size, last_modified) == Some(
                address@,
            ),
            None => navigation_of_path(path@, is_file, size, last_modified) is None,
        },
{
    match get_file_info(path, is_file, size, last_modified) {
        Some(file) => {
            let route = WebRoute::get_route(file.get_file_type().as_str(), &file);
            Some(route.to_url())
        },
        None => None,
    }
}

/// Routing is idempotent: two addresses built for the same path and the same
/// file system answers are the same text.
pub proof fn lemma_routing_is_idempotent(
    first: Option<Seq<char>>,
    second: Option<Seq<char>>,
    path: Seq<char>,
    is_file: bool,
    size: u64,
    last_modified: u64,
)
    requires
        first == navigation_of_path(path, is_file, size, last_modified),
        second == navigation_of_path(path, is_file, size, last_modified),
    ensures
        first == second,
{
}

} // verus!
