//! Archive listings: the flat entries of an archive, and the directory tree
//! that is built from them.

use crate::kind::{lookup, table_get};
use crate::path::{extension, extension_of, file_name, file_name_of};
use crate::text::{chars_equal, chars_of, lowercase, lowercased, push_text, string_of};
use vstd::prelude::*;

verus! {

/// One entry of an archive. In a flat listing `name` is the entry's path
/// inside the archive, with `/` between its components, and `children` is
/// `None`; in a tree `children` holds what lies in a directory.
#[derive(Debug, PartialEq, Eq)]
pub struct Extract {
    pub name: String,
    pub size: u64,
    pub last_modified: String,
    pub dir: bool,
    pub children: Option<Vec<Extract>>,
}

/// An entry as plain values.
pub struct Node {
    pub name: Seq<char>,
    pub size: u64,
    pub last_modified: Seq<char>,
    pub dir: bool,
    pub children: Option<Seq<Node>>,
}

/// The entry `entry` as plain values.
pub open spec fn node_of(entry: Extract) -> Node
    decreases entry, 0nat,
{
    Node {
        name: entry.name@,
        size: entry.size,
        last_modified: entry.last_modified@,
        dir: entry.dir,
        children: match entry.children {
            Some(children) => Some(nodes_of(children@)),
            None => None,
        },
    }
}

/// The entries `entries` as plain values.
pub open spec fn nodes_of(entries: Seq<Extract>) -> Seq<Node>
    decreases entries, 1nat,
{
    if entries.len() == 0 {
        Seq::empty()
    } else {
        nodes_of(entries.drop_last()).push(node_of(entries.last()))
    }
}

impl View for Extract {
    type V = Node;

    open spec fn view(&self) -> Node {
        node_of(*self)
    }
}

/// `nodes_of` goes entry by entry.
pub proof fn lemma_nodes_of(entries: Seq<Extract>)
    ensures
        nodes_of(entries).len() == entries.len(),
        forall|i: int| 0 <= i < entries.len() ==> (#[trigger] nodes_of(entries)[i]) == node_of(entries[i]),
    decreases entries.len(),
{
    if entries.len() > 0 {
        lemma_nodes_of(entries.drop_last());
    }
}

/// A copy of `entry`, with all that lies below it.
pub fn copy_entry(entry: &Extract) -> (copy: Extract)
    ensures
        copy@ == entry@,
    decreases entry, 0nat,
{
    let children = match &entry.children {
        Some(below) => Some(copy_entries(below)),
        None => None,
    };
    Extract {
        name: entry.name.clone(),
        size: entry.size,
        last_modified: entry.last_modified.clone(),
        dir: entry.dir,
        children,
    }
}

/// Copies of `entries`, in order.
pub fn copy_entries(entries: &Vec<Extract>) -> (copies: Vec<Extract>)
    ensures
        nodes_of(copies@) == nodes_of(entries@),
    decreases entries, 1nat,
{
    let mut copies: Vec<Extract> = Vec::new();
    let mut i: usize = 0;
    while i < entries.len()
        invariant
            i <= entries.len(),
            nodes_of(copies@) == nodes_of(entries@.take(i as int)),
        decreases entries.len() - i,
    {
        let copy = copy_entry(&entries[i]);
        let ghost before = copies@;
        copies.push(copy);
        proof {
            assert(copies@.drop_last() == before);
            assert(entries@.take(i + 1).drop_last() == entries@.take(i as int));
        }
        i = i + 1;
    }
    assert(entries@.take(entries.len() as int) == entries@);
    copies
}

impl Clone for Extract {
    fn clone(&self) -> (copy: Self)
        ensures
            copy@ == self@,
    {
        copy_entry(self)
    }
}

/// The name `a` stands before the name `b`, or is `b`: the order of a
/// dictionary, character by character.
pub open spec fn name_le(a: Seq<char>, b: Seq<char>) -> bool
    decreases a.len(),
{
    if a.len() == 0 {
        true
    } else if b.len() == 0 {
        false
    } else if a[0] != b[0] {
        a[0] < b[0]
    } else {
        name_le(a.drop_first(), b.drop_first())
    }
}

/// `sorted` with `entry` put behind the last entry whose name does not stand
/// after its own.
pub open spec fn inserted(sorted: Seq<Node>, entry: Node) -> Seq<Node>
    decreases sorted.len(),
{
    if sorted.len() == 0 {
        seq![entry]
    } else if name_le(sorted.last().name, entry.name) {
        sorted.push(entry)
    } else {
        inserted(sorted.drop_last(), entry).push(sorted.last())
    }
}

/// `entries` ordered by name. Entries of the same name keep their order.
pub open spec fn sorted_by_name(entries: Seq<Node>) -> Seq<Node>
    decreases entries.len(),
{
    if entries.len() == 0 {
        Seq::empty()
    } else {
        inserted(sorted_by_name(entries.drop_last()), entries.last())
    }
}

/// `name` without the slashes at its end.
pub open spec fn trimmed(name: Seq<char>) -> Seq<char>
    decreases name.len(),
{
    if name.len() > 0 && name.last() == '/' {
        trimmed(name.drop_last())
    } else {
        name
    }
}

/// The index of the last slash in `name`, and -1 where there is none.
pub open spec fn last_slash(name: Seq<char>) -> int
    decreases name.len(),
{
    if name.len() == 0 {
        -1
    } else if name.last() == '/' {
        name.len() - 1
    } else {
        last_slash(name.drop_last())
    }
}

/// The name of the directory that an entry called `name` lies in: what
/// stands before the last slash of the trimmed name. An entry without one
/// lies at the root.
pub open spec fn parent_of(name: Seq<char>) -> Option<Seq<char>> {
    let key = trimmed(name);
    if last_slash(key) < 0 {
        None
    } else {
        Some(key.subrange(0, last_slash(key)))
    }
}

/// Those of `entries` that lie in the directory `parent`, in order; with
/// `None`, those that lie at the root.
pub open spec fn placed_under(entries: Seq<Node>, parent: Option<Seq<char>>) -> Seq<Node>
    decreases entries.len(),
{
    if entries.len() == 0 {
        Seq::empty()
    } else if parent_of(entries.last().name) == parent {
        placed_under(entries.drop_last(), parent).push(entries.last())
    } else {
        placed_under(entries.drop_last(), parent)
    }
}

/// `item` with what lies below it: a directory in which entries lie gets
/// them as its children, each grown in turn; anything else stays as it is.
/// Nesting is followed `depth` levels down.
pub open spec fn grown(entries: Seq<Node>, item: Node, depth: nat) -> Node
    decreases depth, 0nat,
{
    let below = placed_under(entries, Some(trimmed(item.name)));
    if depth > 0 && item.dir && below.len() > 0 {
        Node { children: Some(forest(entries, below, (depth - 1) as nat)), ..item }
    } else {
        item
    }
}

/// `items`, each with what lies below it.
pub open spec fn forest(entries: Seq<Node>, items: Seq<Node>, depth: nat) -> Seq<Node>
    decreases depth, items.len() + 1,
{
    if items.len() == 0 {
        Seq::empty()
    } else {
        forest(entries, items.drop_last(), depth).push(grown(entries, items.last(), depth))
    }
}

/// The tree of a flat listing: the entries at the root in the order of their
/// names, each with what lies below it. A child's name is longer than its
/// directory's, so no tree is deeper than the listing is long.
pub open spec fn tree_of(entries: Seq<Node>) -> Seq<Node> {
    let sorted = sorted_by_name(entries);
    forest(sorted, placed_under(sorted, None), sorted.len())
}

/// Any two names stand in order one way or the other.
pub proof fn lemma_name_le_total(a: Seq<char>, b: Seq<char>)
    ensures
        name_le(a, b) || name_le(b, a),
    decreases a.len(),
{
    if a.len() > 0 && b.len() > 0 && a[0] == b[0] {
        lemma_name_le_total(a.drop_first(), b.drop_first());
    }
}

/// The order of names is transitive.
pub proof fn lemma_name_le_transitive(a: Seq<char>, b: Seq<char>, c: Seq<char>)
    requires
        name_le(a, b),
        name_le(b, c),
    ensures
        name_le(a, c),
    decreases a.len(),
{
    if a.len() > 0 && b.len() > 0 && c.len() > 0 && a[0] == b[0] && b[0] == c[0] {
        lemma_name_le_transitive(a.drop_first(), b.drop_first(), c.drop_first());
    }
}

/// No entry of `entries` stands before an entry whose name stands before
/// its own.
pub open spec fn ordered(entries: Seq<Node>) -> bool {
    forall|i: int, j: int|
        0 <= i < j < entries.len() ==> name_le(
            (#[trigger] entries[i]).name,
            (#[trigger] entries[j]).name,
        )
}

/// Where `inserted` puts an entry: behind an entry that does not stand after
/// it, and before all that do.
proof fn lemma_inserted_at(sorted: Seq<Node>, entry: Node) -> (at: int)
    ensures
        0 <= at <= sorted.len(),
        inserted(sorted, entry) == sorted.take(at).push(entry) + sorted.skip(at),
        at > 0 ==> name_le(sorted[at - 1].name, entry.name),
        forall|k: int| at <= k < sorted.len() ==> !name_le((#[trigger] sorted[k]).name, entry.name),
    decreases sorted.len(),
{
    if sorted.len() == 0 {
        0
    } else if name_le(sorted.last().name, entry.name) {
        let at = sorted.len() as int;
        at
    } else {
        let rest = sorted.drop_last();
        let at = lemma_inserted_at(rest, entry);
        assert forall|k: int| at <= k < sorted.len() implies !name_le(
            (#[trigger] sorted[k]).name,
            entry.name,
        ) by {
            if k < rest.len() {
                assert(sorted[k] == rest[k]);
            }
        }
        at
    }
}

/// Putting an entry into an ordered listing leaves it ordered, and adds the
/// entry and nothing else.
proof fn lemma_inserted(sorted: Seq<Node>, entry: Node)
    requires
        ordered(sorted),
    ensures
        ordered(inserted(sorted, entry)),
        inserted(sorted, entry).to_multiset() == sorted.to_multiset().insert(entry),
{
    let at = lemma_inserted_at(sorted, entry);
    let result = inserted(sorted, entry);
    let front = sorted.take(at);
    let back = sorted.skip(at);
    assert forall|i: int, j: int| 0 <= i < j < result.len() implies name_le(
        (#[trigger] result[i]).name,
        (#[trigger] result[j]).name,
    ) by {
        if j == at {
            if i < at - 1 {
                lemma_name_le_transitive(sorted[i].name, sorted[at - 1].name, entry.name);
            }
        } else if j > at && i == at {
            lemma_name_le_total(sorted[j - 1].name, entry.name);
        }
    }
    assert(front + back == sorted);
    vstd::seq_lib::lemma_multiset_commutative(front, back);
    vstd::seq_lib::lemma_multiset_commutative(front.push(entry), back);
    vstd::seq_lib::to_multiset_build(front, entry);
}

/// Sorting orders a listing by name, and keeps every entry as often as it
/// was there.
pub proof fn lemma_sorted_by_name(entries: Seq<Node>)
    ensures
        ordered(sorted_by_name(entries)),
        sorted_by_name(entries).to_multiset() == entries.to_multiset(),
        sorted_by_name(entries).len() == entries.len(),
    decreases entries.len(),
{
    broadcast use vstd::seq_lib::group_to_multiset_ensures;

    if entries.len() > 0 {
        let rest = entries.drop_last();
        lemma_sorted_by_name(rest);
        lemma_inserted(sorted_by_name(rest), entries.last());
        vstd::seq_lib::to_multiset_build(rest, entries.last());
        assert(rest.push(entries.last()) == entries);
        lemma_inserted_at(sorted_by_name(rest), entries.last());
    }
}

/// The number of `entries` whose trimmed name is longer than `length`.
pub open spec fn longer_than(entries: Seq<Node>, length: nat) -> nat
    decreases entries.len(),
{
    if entries.len() == 0 {
        0
    } else if trimmed(entries.last().name).len() > length {
        longer_than(entries.drop_last(), length) + 1
    } else {
        longer_than(entries.drop_last(), length)
    }
}

/// The last slash lies inside the name.
proof fn lemma_last_slash(name: Seq<char>)
    ensures
        -1 <= last_slash(name) < name.len(),
    decreases name.len(),
{
    if name.len() > 0 && name.last() != '/' {
        lemma_last_slash(name.drop_last());
    }
}

/// What lies in a directory is an entry of the listing, and says so by its
/// name.
proof fn lemma_placed_under(entries: Seq<Node>, parent: Option<Seq<char>>, k: int)
    requires
        0 <= k < placed_under(entries, parent).len(),
    ensures
        parent_of(placed_under(entries, parent)[k].name) == parent,
        exists|j: int| 0 <= j < entries.len() && entries[j] == placed_under(entries, parent)[k],
    decreases entries.len(),
{
    if entries.len() > 0 {
        let rest = entries.drop_last();
        let before = placed_under(rest, parent);
        if k < before.len() {
            lemma_placed_under(rest, parent, k);
        }
    }
}

/// The longer the names that are asked for, the fewer there are.
proof fn lemma_longer_than_monotone(entries: Seq<Node>, shorter: nat, longer: nat)
    requires
        shorter <= longer,
    ensures
        longer_than(entries, longer) <= longer_than(entries, shorter) <= entries.len(),
    decreases entries.len(),
{
    if entries.len() > 0 {
        lemma_longer_than_monotone(entries.drop_last(), shorter, longer);
    }
}

/// An entry whose name is longer than `length` is one of those counted for
/// `length`, and none of those counted for its own length.
proof fn lemma_longer_than_member(entries: Seq<Node>, j: int, length: nat)
    requires
        0 <= j < entries.len(),
        trimmed(entries[j].name).len() > length,
    ensures
        longer_than(entries, trimmed(entries[j].name).len()) < longer_than(entries, length),
    decreases entries.len(),
{
    let own = trimmed(entries[j].name).len();
    let rest = entries.drop_last();
    if j == entries.len() - 1 {
        lemma_longer_than_monotone(rest, length, own);
    } else {
        lemma_longer_than_member(rest, j, length);
    }
}

/// An item is grown in full as soon as the depth reaches the number of
/// entries with longer names than its own.
proof fn lemma_grown_depth(entries: Seq<Node>, item: Node, depth: nat)
    requires
        depth >= longer_than(entries, trimmed(item.name).len()),
    ensures
        grown(entries, item, depth) == grown(entries, item, depth + 1),
    decreases depth, 0nat,
{
    let key = trimmed(item.name);
    let below = placed_under(entries, Some(key));
    if item.dir && below.len() > 0 {
        assert forall|k: int| 0 <= k < below.len() implies depth > longer_than(
            entries,
            trimmed((#[trigger] below[k]).name).len(),
        ) by {
            lemma_placed_under(entries, Some(key), k);
            lemma_last_slash(trimmed(below[k].name));
            let j = choose|j: int| 0 <= j < entries.len() && entries[j] == below[k];
            lemma_longer_than_member(entries, j, key.len());
        }
        lemma_forest_depth(entries, below, (depth - 1) as nat);
    }
}

/// Items are grown in full as soon as the depth reaches, for each of them,
/// the number of entries with longer names than its own.
proof fn lemma_forest_depth(entries: Seq<Node>, items: Seq<Node>, depth: nat)
    requires
        forall|k: int|
            0 <= k < items.len() ==> depth >= longer_than(
                entries,
                trimmed((#[trigger] items[k]).name).len(),
            ),
    ensures
        forest(entries, items, depth) == forest(entries, items, depth + 1),
    decreases depth, items.len() + 1,
{
    if items.len() > 0 {
        let rest = items.drop_last();
        assert forall|k: int| 0 <= k < rest.len() implies depth >= longer_than(
            entries,
            trimmed((#[trigger] rest[k]).name).len(),
        ) by {
        }
        lemma_forest_depth(entries, rest, depth);
        lemma_grown_depth(entries, items.last(), depth);
    }
}

/// A tree is never deeper than its listing is long: following the nesting
/// as many levels down as there are entries finds all there is, and going
/// deeper finds nothing more.
pub proof fn lemma_depth_suffices(entries: Seq<Node>, items: Seq<Node>, extra: nat)
    ensures
        forest(entries, items, entries.len()) == forest(entries, items, entries.len() + extra),
    decreases extra,
{
    if extra > 0 {
        lemma_depth_suffices(entries, items, (extra - 1) as nat);
        let depth = (entries.len() + extra - 1) as nat;
        assert forall|k: int| 0 <= k < items.len() implies depth >= longer_than(
            entries,
            trimmed((#[trigger] items[k]).name).len(),
        ) by {
            lemma_longer_than_monotone(entries, 0, trimmed(items[k].name).len());
        }
        lemma_forest_depth(entries, items, depth);
    }
}

/// Whether the name `a` stands before the name `b`, or is `b`.
pub fn name_precedes(a: &Vec<char>, b: &Vec<char>) -> (le: bool)
    ensures
        le == name_le(a@, b@),
{
    let mut i: usize = 0;
    assert(a@.skip(0) == a@ && b@.skip(0) == b@);
    while i < a.len() && i < b.len()
        invariant
            i <= a.len(),
            i <= b.len(),
            name_le(a@, b@) == name_le(a@.skip(i as int), b@.skip(i as int)),
        decreases a.len() - i,
    {
        proof {
            assert(a@.skip(i as int).drop_first() == a@.skip(i + 1));
            assert(b@.skip(i as int).drop_first() == b@.skip(i + 1));
        }
        if a[i] != b[i] {
            return a[i] < b[i];
        }
        i = i + 1;
    }
    i == a.len()
}

/// Where `inserted` puts an entry called `name`: the index behind the last
/// of `sorted` whose name does not stand after `name`.
fn insert_position(sorted: &Vec<Extract>, name: &Vec<char>) -> (at: usize)
    ensures
        at <= sorted.len(),
        forall|entry: Node|
            entry.name == name@ ==> #[trigger] inserted(nodes_of(sorted@), entry) == nodes_of(
                sorted@,
            ).take(at as int).push(entry) + nodes_of(sorted@).skip(at as int),
{
    let ghost all = nodes_of(sorted@);
    proof {
        lemma_nodes_of(sorted@);
    }
    let mut j: usize = sorted.len();
    assert forall|entry: Node| entry.name == name@ implies #[trigger] inserted(all, entry)
        == inserted(all.take(j as int), entry) + all.skip(j as int) by {
        assert(all.take(j as int) == all);
    }
    while j > 0
        invariant
            j <= sorted.len(),
            all == nodes_of(sorted@),
            all.len() == sorted.len(),
            forall|i: int| 0 <= i < sorted.len() ==> (#[trigger] all[i]) == node_of(sorted@[i]),
            forall|entry: Node|
                entry.name == name@ ==> #[trigger] inserted(all, entry) == inserted(
                    all.take(j as int),
                    entry,
                ) + all.skip(j as int),
        decreases j,
    {
        let other = chars_of(sorted[j - 1].name.as_str());
        assert(all.take(j as int).drop_last() == all.take(j - 1));
        if name_precedes(&other, name) {
            return j;
        }
        assert forall|entry: Node| entry.name == name@ implies #[trigger] inserted(all, entry)
            == inserted(all.take(j - 1), entry) + all.skip(j - 1) by {
        }
        j = j - 1;
    }
    0
}

/// Copies of `entries`, ordered by name.
pub fn sort_entries(entries: &Vec<Extract>) -> (sorted: Vec<Extract>)
    ensures
        nodes_of(sorted@) == sorted_by_name(nodes_of(entries@)),
{
    let mut sorted: Vec<Extract> = Vec::new();
    let mut i: usize = 0;
    while i < entries.len()
        invariant
            i <= entries.len(),
            nodes_of(sorted@) == sorted_by_name(nodes_of(entries@.take(i as int))),
        decreases entries.len() - i,
    {
        let entry = copy_entry(&entries[i]);
        let name = chars_of(entry.name.as_str());
        let at = insert_position(&sorted, &name);
        let ghost before = sorted@;
        sorted.insert(at, entry);
        proof {
            lemma_nodes_of(before);
            lemma_nodes_of(sorted@);
            assert(entries@.take(i + 1).drop_last() == entries@.take(i as int));
            let next = nodes_of(entries@.take(i + 1));
            assert(next.drop_last() == nodes_of(entries@.take(i as int)));
        }
        i = i + 1;
    }
    assert(entries@.take(entries.len() as int) == entries@);
    sorted
}

/// `name` without the slashes at its end.
pub fn trim_name(name: &str) -> (key: Vec<char>)
    ensures
        key@ == trimmed(name@),
{
    let mut key = chars_of(name);
    let mut n: usize = key.len();
    assert(key@.take(n as int) == key@);
    while n > 0 && key[n - 1] == '/'
        invariant
            n <= key.len(),
            key@ == name@,
            trimmed(name@) == trimmed(key@.take(n as int)),
        decreases n,
    {
        assert(key@.take(n as int).drop_last() == key@.take(n - 1));
        n = n - 1;
    }
    key.truncate(n);
    key
}

/// The name of the directory that an entry called `name` lies in, if it
/// does not lie at the root.
pub fn parent_name(name: &str) -> (parent: Option<Vec<char>>)
    ensures
        match parent {
            Some(directory) => parent_of(name@) == Some(directory@),
            None => parent_of(name@) is None,
        },
{
    let mut key = trim_name(name);
    let ghost whole = key@;
    let mut i: usize = key.len();
    assert(key@.take(i as int) == key@);
    while i > 0
        invariant
            i <= key.len(),
            key@ == whole,
            whole == trimmed(name@),
            last_slash(whole) == last_slash(whole.take(i as int)),
        decreases i,
    {
        if key[i - 1] == '/' {
            key.truncate(i - 1);
            return Some(key);
        }
        assert(whole.take(i as int).drop_last() == whole.take(i - 1));
        i = i - 1;
    }
    None
}

/// Whether `found` is the directory `parent`.
fn same_parent(found: &Option<Vec<char>>, parent: &Option<Vec<char>>) -> (same: bool)
    ensures
        same == (match (*found, *parent) {
            (Some(a), Some(b)) => a@ == b@,
            (None, None) => true,
            _ => false,
        }),
{
    match (found, parent) {
        (Some(a), Some(b)) => chars_equal(a, b),
        (None, None) => true,
        _ => false,
    }
}

/// The directory named by `parent`, as plain values.
pub open spec fn parent_view(parent: Option<Vec<char>>) -> Option<Seq<char>> {
    match parent {
        Some(directory) => Some(directory@),
        None => None,
    }
}

/// Copies of those of `entries` that lie in the directory `parent`, in
/// order; with `None`, of those that lie at the root.
pub fn entries_under(entries: &Vec<Extract>, parent: &Option<Vec<char>>) -> (found: Vec<Extract>)
    ensures
        nodes_of(found@) == placed_under(nodes_of(entries@), parent_view(*parent)),
{
    let mut found: Vec<Extract> = Vec::new();
    let mut i: usize = 0;
    while i < entries.len()
        invariant
            i <= entries.len(),
            nodes_of(found@) == placed_under(
                nodes_of(entries@.take(i as int)),
                parent_view(*parent),
            ),
        decreases entries.len() - i,
    {
        proof {
            assert(entries@.take(i + 1).drop_last() == entries@.take(i as int));
            let next = nodes_of(entries@.take(i + 1));
            assert(next.drop_last() == nodes_of(entries@.take(i as int)));
            assert(next.last() == node_of(entries@[i as int]));
        }
        let lies_in = parent_name(entries[i].name.as_str());
        if same_parent(&lies_in, parent) {
            let ghost before = found@;
            found.push(copy_entry(&entries[i]));
            assert(found@.drop_last() == before);
        }
        i = i + 1;
    }
    assert(entries@.take(entries.len() as int) == entries@);
    found
}

/// `item` with what lies below it, `depth` levels down.
fn grow(item: &Extract, entries: &Vec<Extract>, depth: usize) -> (node: Extract)
    ensures
        node@ == grown(nodes_of(entries@), item@, depth as nat),
    decreases depth, 0nat,
{
    if depth > 0 && item.dir {
        let key = Some(trim_name(item.name.as_str()));
        let below = entries_under(entries, &key);
        proof {
            lemma_nodes_of(below@);
        }
        if below.len() > 0 {
            let children = build_tree_recursive(&below, entries, depth - 1);
            return Extract {
                name: item.name.clone(),
                size: item.size,
                last_modified: item.last_modified.clone(),
                dir: item.dir,
                children: Some(children),
            };
        }
    }
    copy_entry(item)
}

/// `items`, each with what lies below it among `entries`, `depth` levels
/// down.
pub fn build_tree_recursive(items: &Vec<Extract>, entries: &Vec<Extract>, depth: usize) -> (tree:
    Vec<Extract>)
    ensures
        nodes_of(tree@) == forest(nodes_of(entries@), nodes_of(items@), depth as nat),
    decreases depth, 1nat,
{
    let mut tree: Vec<Extract> = Vec::new();
    let mut i: usize = 0;
    while i < items.len()
        invariant
            i <= items.len(),
            nodes_of(tree@) == forest(
                nodes_of(entries@),
                nodes_of(items@.take(i as int)),
                depth as nat,
            ),
        decreases items.len() - i,
    {
        proof {
            assert(items@.take(i + 1).drop_last() == items@.take(i as int));
            let next = nodes_of(items@.take(i + 1));
            assert(next.drop_last() == nodes_of(items@.take(i as int)));
        }
        let node = grow(&items[i], entries, depth);
        let ghost before = tree@;
        tree.push(node);
        assert(tree@.drop_last() == before);
        i = i + 1;
    }
    assert(items@.take(items.len() as int) == items@);
    tree
}

impl Extract {
    /// An entry of a flat listing.
    pub fn new(name: String, size: u64, last_modified: String, dir: bool) -> (entry: Self)
        ensures
            entry@ == (Node {
                name: name@,
                size,
                last_modified: last_modified@,
                dir,
                children: None,
            }),
    {
        Self { name, size, last_modified, dir, children: None }
    }

    /// Builds the directory tree of the archive at `archive_path`, whose flat
    /// listing is `entries`. An archive of a format that cannot be listed has
    /// no tree.
    pub fn list_archive_tree(archive_path: &str, entries: Vec<Extract>) -> (result: Result<
        Vec<Extract>,
        ArchiveError,
    >)
        ensures
            match result {
                Ok(tree) => table_get(format_table(), archive_extension(archive_path@)) is Some
                    && nodes_of(tree@) == tree_of(nodes_of(entries@)),
                Err(error) => {
                    &&& table_get(format_table(), archive_extension(archive_path@)) is None
                    &&& error matches ArchiveError::UnsupportedFormat(named)
                    &&& named@ == archive_extension(archive_path@)
                },
            },
    {
        match archive_format(archive_path) {
            Ok(_) => Ok(Self::build_tree(entries)),
            Err(error) => Err(error),
        }
    }

    /// Builds the directory tree of the flat listing `entries`.
    pub fn build_tree(entries: Vec<Extract>) -> (tree: Vec<Extract>)
        ensures
            nodes_of(tree@) == tree_of(nodes_of(entries@)),
    {
        let sorted = sort_entries(&entries);
        let roots = entries_under(&sorted, &None);
        proof {
            lemma_nodes_of(sorted@);
        }
        build_tree_recursive(&roots, &sorted, sorted.len())
    }
}

/// The archive formats that can be listed.
#[derive(Clone, Copy, Debug, PartialEq, Eq, Structural)]
pub enum ArchiveFormat {
    Zip,
    Tar,
    TarGz,
    TarBz2,
    TarXz,
    SevenZ,
}

/// Why an archive could not be listed. Each variant carries the words of
/// what went wrong.
#[derive(Debug, PartialEq, Eq)]
pub enum ArchiveError {
    IoError(String),
    ZipError(String),
    SevenZError(String),
    UnsupportedFormat(String),
    InvalidPath(String),
    Other(String),
}

/// What an error says, as plain values.
pub open spec fn error_text(error: ArchiveError) -> Seq<char> {
    match error {
        ArchiveError::IoError(detail) => "IO error: "@ + detail@,
        ArchiveError::ZipError(detail) => "ZIP error: "@ + detail@,
        ArchiveError::SevenZError(detail) => "7Z error: "@ + detail@,
        ArchiveError::UnsupportedFormat(format) => "Unsupported format: "@ + format@,
        ArchiveError::InvalidPath(path) => "Invalid path: "@ + path@,
        ArchiveError::Other(message) => "Error: "@ + message@,
    }
}

impl ArchiveError {
    /// What the error says.
    pub fn to_string(&self) -> (text: String)
        ensures
            text@ == error_text(*self),
    {
        let (prefix, detail) = match self {
            ArchiveError::IoError(detail) => ("IO error: ", detail),
            ArchiveError::ZipError(detail) => ("ZIP error: ", detail),
            ArchiveError::SevenZError(detail) => ("7Z error: ", detail),
            ArchiveError::UnsupportedFormat(format) => ("Unsupported format: ", format),
            ArchiveError::InvalidPath(path) => ("Invalid path: ", path),
            ArchiveError::Other(message) => ("Error: ", message),
        };
        let mut out = chars_of(prefix);
        push_text(&mut out, detail.as_str());
        string_of(&out)
    }
}

/// The extensions of the archives that can be listed, each with its format.
pub open spec fn format_table() -> Seq<(&'static str, ArchiveFormat)> {
    seq![
        ("zip", ArchiveFormat::Zip),
        ("tar", ArchiveFormat::Tar),
        ("gz", ArchiveFormat::TarGz),
        ("tgz", ArchiveFormat::TarGz),
        ("bz2", ArchiveFormat::TarBz2),
        ("tbz2", ArchiveFormat::TarBz2),
        ("xz", ArchiveFormat::TarXz),
        ("txz", ArchiveFormat::TarXz),
        ("7z", ArchiveFormat::SevenZ),
    ]
}

/// The extension by which the format of the archive at `path` is told: the
/// extension of its file name in lower case, and the empty text where it has
/// none.
pub open spec fn archive_extension(path: Seq<char>) -> Seq<char> {
    match extension_of(file_name_of(path)) {
        Some(ext) => lowercased(ext),
        None => Seq::empty(),
    }
}

/// `result` tells the format of the archive at `path`: the format that the
/// format table gives for its extension, and the extension as an unsupported
/// format where the table does not list it.
pub open spec fn is_format_of(result: Result<ArchiveFormat, ArchiveError>, path: Seq<char>)
    -> bool {
    match table_get(format_table(), archive_extension(path)) {
        Some(format) => result == Ok::<ArchiveFormat, ArchiveError>(format),
        None => result matches Err(ArchiveError::UnsupportedFormat(named)) && named@
            == archive_extension(path),
    }
}

/// The format of the archive at `path`.
pub fn archive_format(path: &str) -> (result: Result<ArchiveFormat, ArchiveError>)
    ensures
        is_format_of(result, path@),
{
    let name = file_name(path);
    let ext = match extension(name.as_str()) {
        Some(ext) => lowercase(ext.as_str()),
        None => String::new(),
    };
    match lookup_mode(ext.as_str()) {
        Some(format) => Ok(format),
        None => Err(ArchiveError::UnsupportedFormat(ext)),
    }
}

/// The format that the preview surface asks for by the name `mode`: the
/// format that the format table gives for it, taken as it is written.
pub fn lookup_mode(mode: &str) -> (format: Option<ArchiveFormat>)
    ensures
        format == table_get(format_table(), mode@),
{
    let table: Vec<(&'static str, ArchiveFormat)> = vec![
        ("zip", ArchiveFormat::Zip),
        ("tar", ArchiveFormat::Tar),
        ("gz", ArchiveFormat::TarGz),
        ("tgz", ArchiveFormat::TarGz),
        ("bz2", ArchiveFormat::TarBz2),
        ("tbz2", ArchiveFormat::TarBz2),
        ("xz", ArchiveFormat::TarXz),
        ("txz", ArchiveFormat::TarXz),
        ("7z", ArchiveFormat::SevenZ),
    ];
    lookup(&table, mode)
}

/// The time that stands for an entry whose archive does not tell when it
/// was last written.
pub open spec fn unknown_time() -> Seq<char> {
    "1970-01-01T00:00:00Z"@
}

/// The entry of a flat listing for an entry of a 7z archive: an entry
/// without a data stream counts as empty, and the time it was last written is
/// not known.
pub fn seven_zip_entry(name: String, has_stream: bool, size: u64, is_directory: bool) -> (entry:
    Extract)
    ensures
        entry@ == (Node {
            name: name@,
            size: if has_stream {
                size
            } else {
                0
            },
            last_modified: unknown_time(),
            dir: is_directory,
            children: None,
        }),
{
    let size = if has_stream {
        size
    } else {
        0
    };
    Extract::new(name, size, string_of(&chars_of("1970-01-01T00:00:00Z")), is_directory)
}

/// Builds the directory tree of the flat listing of a 7z archive.
pub fn seven_zip_extract(entries: Vec<Extract>) -> (tree: Vec<Extract>)
    ensures
        nodes_of(tree@) == tree_of(nodes_of(entries@)),
{
    Extract::build_tree(entries)
}

} // verus!
