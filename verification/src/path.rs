//! Splitting a path into file name and extension.
//!
//! Paths are those of the desktop shell: a backslash or a slash separates the
//! components.

use crate::text::{chars_of, string_of_range};
use vstd::prelude::*;

verus! {

/// `c` separates the components of a path.
pub open spec fn is_separator(c: char) -> bool {
    c == '\\' || c == '/'
}

/// The index at which the last component of `path` begins: just after the last
/// separator, and 0 where there is none.
pub open spec fn name_start(path: Seq<char>) -> int
    decreases path.len(),
{
    if path.len() == 0 {
        0
    } else if is_separator(path.last()) {
        path.len() as int
    } else {
        name_start(path.drop_last())
    }
}

/// The last component of `path`: what follows its last separator.
pub open spec fn file_name_of(path: Seq<char>) -> Seq<char> {
    path.subrange(name_start(path), path.len() as int)
}

/// The index of the last dot in `name`, and -1 where there is none.
pub open spec fn last_dot(name: Seq<char>) -> int
    decreases name.len(),
{
    if name.len() == 0 {
        -1
    } else if name.last() == '.' {
        name.len() - 1
    } else {
        last_dot(name.drop_last())
    }
}

/// The extension of the file name `name`: what follows its last dot. A name
/// without a dot has none, nor has a name whose only dot is its first
/// character.
pub open spec fn extension_of(name: Seq<char>) -> Option<Seq<char>> {
    let dot = last_dot(name);
    if dot <= 0 {
        None
    } else {
        Some(name.subrange(dot + 1, name.len() as int))
    }
}

/// The last separator lies just before `name_start`, and no separator follows.
pub proof fn lemma_name_start(path: Seq<char>)
    ensures
        0 <= name_start(path) <= path.len(),
        name_start(path) > 0 ==> is_separator(path[name_start(path) - 1]),
        forall|i: int| name_start(path) <= i < path.len() ==> !is_separator(#[trigger] path[i]),
    decreases path.len(),
{
    if path.len() > 0 && !is_separator(path.last()) {
        let rest = path.drop_last();
        lemma_name_start(rest);
        assert forall|i: int| name_start(path) <= i < path.len() implies !is_separator(
            #[trigger] path[i],
        ) by {
            if i < rest.len() {
                assert(path[i] == rest[i]);
            }
        }
    }
}

/// The last dot is a dot, and no dot follows it.
pub proof fn lemma_last_dot(name: Seq<char>)
    ensures
        -1 <= last_dot(name) < name.len(),
        last_dot(name) >= 0 ==> name[last_dot(name)] == '.',
        forall|i: int| last_dot(name) < i < name.len() ==> #[trigger] name[i] != '.',
    decreases name.len(),
{
    if name.len() > 0 && name.last() != '.' {
        let rest = name.drop_last();
        lemma_last_dot(rest);
        assert forall|i: int| last_dot(name) < i < name.len() implies #[trigger] name[i]
            != '.' by {
            if i < rest.len() {
                assert(name[i] == rest[i]);
            }
        }
    }
}

/// The index at which the last component of `path` begins.
pub fn find_name_start(path: &Vec<char>) -> (start: usize)
    ensures
        start == name_start(path@),
        start <= path.len(),
        start > 0 ==> is_separator(path@[start - 1]),
        forall|i: int| start <= i < path.len() ==> !is_separator(#[trigger] path@[i]),
{
    proof {
        lemma_name_start(path@);
    }
    let mut i: usize = path.len();
    assert(path@.take(i as int) == path@);
    while i > 0
        invariant
            i <= path.len(),
            name_start(path@) == name_start(path@.take(i as int)),
        decreases i,
    {
        let c = path[i - 1];
        if c == '\\' || c == '/' {
            proof {
                lemma_name_start(path@);
            }
            return i;
        }
        assert(path@.take(i as int).drop_last() == path@.take(i - 1));
        i = i - 1;
    }
    0
}

/// The index of the last dot in `name`, if it has one.
pub fn find_last_dot(name: &Vec<char>) -> (dot: Option<usize>)
    ensures
        match dot {
            Some(at) => last_dot(name@) == at && at < name.len() && name@[at as int] == '.',
            None => last_dot(name@) == -1,
        },
        forall|i: int| last_dot(name@) < i < name.len() ==> #[trigger] name@[i] != '.',
{
    proof {
        lemma_last_dot(name@);
    }
    let mut i: usize = name.len();
    assert(name@.take(i as int) == name@);
    while i > 0
        invariant
            i <= name.len(),
            last_dot(name@) == last_dot(name@.take(i as int)),
        decreases i,
    {
        let c = name[i - 1];
        if c == '.' {
            proof {
                lemma_last_dot(name@);
            }
            return Some(i - 1);
        }
        assert(name@.take(i as int).drop_last() == name@.take(i - 1));
        i = i - 1;
    }
    None
}

/// The extension of the file at `path` with a dot before it, as file
/// associations are keyed.
pub fn dotted_extension(path: &str) -> (key: Option<String>)
    ensures
        match key {
            Some(k) => extension_of(file_name_of(path@)) matches Some(ext) && k@ == seq!['.'] + ext,
            None => extension_of(file_name_of(path@)) is None,
        },
{
    let name = file_name(path);
    match extension(name.as_str()) {
        Some(ext) => {
            let mut out: Vec<char> = Vec::new();
            out.push('.');
            crate::text::push_text(&mut out, ext.as_str());
            Some(crate::text::string_of(&out))
        },
        None => None,
    }
}

/// The last component of `path`.
pub fn file_name(path: &str) -> (name: String)
    ensures
        name@ == file_name_of(path@),
{
    let v = chars_of(path);
    let start = find_name_start(&v);
    string_of_range(&v, start, v.len())
}

/// The extension of the file name `name`, if it has one.
pub fn extension(name: &str) -> (ext: Option<String>)
    ensures
        match ext {
            Some(e) => extension_of(name@) == Some(e@),
            None => extension_of(name@) is None,
        },
{
    let v = chars_of(name);
    match find_last_dot(&v) {
        Some(dot) => {
            if dot == 0 {
                None
            } else {
                Some(string_of_range(&v, dot + 1, v.len()))
            }
        },
        None => None,
    }
}

} // verus!
