//! The selection resolvers: which path is selected in a file manager window,
//! on the desktop, or in an open or save dialog.
//!
//! A resolver works on a snapshot: what the shell and the automation service
//! answered, as plain values. Every query that failed is recorded in the
//! snapshot as a missing value, and every missing value ends in
//! `NoSelection`.

use crate::text::{chars_of, push_text, string_of};
use crate::window::{classify_window, focused_type_of, FwWindowType};
use vstd::prelude::*;

verus! {

/// Why a resolver came back without a path.
#[derive(Clone, Copy, Debug, PartialEq, Eq, Structural)]
pub enum ResolutionError {
    ServiceUnavailable,
    NoSelection,
    AmbiguousSelection,
    PermissionDenied,
}

/// What a shell item answered when asked for one of its names.
#[derive(Debug)]
pub enum DisplayName {
    /// The item has no such name.
    Unavailable,
    /// The item gave a name that is no valid text.
    Undecodable,
    /// The name.
    Text(String),
}

/// One item of a shell view's selection.
#[derive(Debug)]
pub struct ShellItem {
    /// Whether the item is part of the file system; `None` where the item
    /// did not say.
    pub file_system: Option<bool>,
    /// The name by which the shell finds the item again from the desktop.
    pub parsing_name: DisplayName,
    /// The item's path in the file system.
    pub file_system_path: DisplayName,
}

/// A browsing component of the shell: the window it lives in, and the items
/// selected in its view (`None` where the view did not give them).
#[derive(Debug)]
pub struct Browser {
    pub window: usize,
    pub selection: Option<Vec<ShellItem>>,
}

/// What the shell shows of the file manager: the foreground window, the tab
/// container among its children if it has one, and for each open shell window
/// its browsing component (`None` where the window has none).
#[derive(Debug)]
pub struct ExplorerSnapshot {
    pub foreground: usize,
    pub tab: Option<usize>,
    pub browsers: Vec<Option<Browser>>,
}

/// What the shell shows of the desktop: the root window above the foreground
/// window, and the desktop's browsing component (`None` where the shell did
/// not give it).
#[derive(Debug)]
pub struct DesktopSnapshot {
    pub foreground_root: usize,
    pub desktop: Option<Browser>,
}

/// What an open or save dialog shows: the name of the first selected row of
/// its list view (`None` where the list view is missing or the automation
/// service gave no row), and the directory that its address control stands
/// for (`None` where the control is missing or the directory was not found).
#[derive(Debug)]
pub struct DialogSnapshot {
    pub selected_name: Option<String>,
    pub directory: Option<String>,
}

/// What one of the three resolvers works on.
#[derive(Debug)]
pub enum Snapshot {
    Explorer(ExplorerSnapshot),
    Desktop(DesktopSnapshot),
    Dialog(DialogSnapshot),
}

/// The path that a shell item stands for. An item that says it is no part of
/// the file system has none. Otherwise it is the item's parsing name; the
/// file system path is asked only where the item has no parsing name.
pub open spec fn item_path(item: ShellItem) -> Option<Seq<char>> {
    if item.file_system == Some(false) {
        None
    } else {
        match item.parsing_name {
            DisplayName::Text(name) => Some(name@),
            DisplayName::Undecodable => None,
            DisplayName::Unavailable => match item.file_system_path {
                DisplayName::Text(path) => Some(path@),
                _ => None,
            },
        }
    }
}

/// The path of the first of `items` that stands for one.
pub open spec fn first_path(items: Seq<ShellItem>) -> Option<Seq<char>>
    decreases items.len(),
{
    if items.len() == 0 {
        None
    } else {
        match item_path(items[0]) {
            Some(path) => Some(path),
            None => first_path(items.drop_first()),
        }
    }
}

/// A resolver's result `result` is the outcome `expected`.
pub open spec fn is_outcome(
    result: Result<String, ResolutionError>,
    expected: Result<Seq<char>, ResolutionError>,
) -> bool {
    match result {
        Ok(path) => expected == Ok::<Seq<char>, ResolutionError>(path@),
        Err(error) => expected == Err::<Seq<char>, ResolutionError>(error),
    }
}

/// The selection of a browsing component: the path of the first selected item
/// that has one.
pub open spec fn browser_selection(browser: Browser) -> Result<Seq<char>, ResolutionError> {
    match browser.selection {
        Some(items) => match first_path(items@) {
            Some(path) => Ok(path),
            None => Err(ResolutionError::NoSelection),
        },
        None => Err(ResolutionError::NoSelection),
    }
}

/// The browsing component lives in the foreground window, or in the tab
/// container of the foreground window.
pub open spec fn hosts_foreground(window: usize, foreground: usize, tab: Option<usize>) -> bool {
    window == foreground || tab == Some(window)
}

/// The indices of those of `browsers` that live in the foreground window, in
/// order.
pub open spec fn matching(browsers: Seq<Option<Browser>>, foreground: usize, tab: Option<usize>)
    -> Seq<int>
    decreases browsers.len(),
{
    if browsers.len() == 0 {
        Seq::empty()
    } else {
        let before = matching(browsers.drop_last(), foreground, tab);
        match browsers.last() {
            Some(browser) => if hosts_foreground(browser.window, foreground, tab) {
                before.push(browsers.len() - 1)
            } else {
                before
            },
            None => before,
        }
    }
}

/// The selection in the file manager: that of the one browsing component
/// that lives in the foreground window. Where none does, or more than one,
/// there is no selection.
pub open spec fn explorer_selection(snapshot: ExplorerSnapshot) -> Result<
    Seq<char>,
    ResolutionError,
> {
    let found = matching(snapshot.browsers@, snapshot.foreground, snapshot.tab);
    if found.len() == 1 {
        browser_selection(snapshot.browsers@[found[0]]->0)
    } else {
        Err(ResolutionError::NoSelection)
    }
}

/// The selection on the desktop: that of the desktop's browsing component,
/// where its window is the root window above the foreground window.
pub open spec fn desktop_selection(snapshot: DesktopSnapshot) -> Result<
    Seq<char>,
    ResolutionError,
> {
    match snapshot.desktop {
        Some(browser) => if browser.window == snapshot.foreground_root {
            browser_selection(browser)
        } else {
            Err(ResolutionError::NoSelection)
        },
        None => Err(ResolutionError::NoSelection),
    }
}

/// `directory` and `name` joined by a backslash.
pub open spec fn joined(directory: Seq<char>, name: Seq<char>) -> Seq<char> {
    directory + seq!['\\'] + name
}

/// The selection in a dialog: the selected row's name in the directory of
/// the address control. Where either is missing, or the name is empty, there
/// is no selection.
pub open spec fn dialog_selection(snapshot: DialogSnapshot) -> Result<Seq<char>, ResolutionError> {
    match (snapshot.selected_name, snapshot.directory) {
        (Some(name), Some(directory)) => if name@.len() > 0 {
            Ok(joined(directory@, name@))
        } else {
            Err(ResolutionError::NoSelection)
        },
        _ => Err(ResolutionError::NoSelection),
    }
}

/// The selection that `snapshot` shows.
pub open spec fn selection_of(snapshot: Snapshot) -> Result<Seq<char>, ResolutionError> {
    match snapshot {
        Snapshot::Explorer(explorer) => explorer_selection(explorer),
        Snapshot::Desktop(desktop) => desktop_selection(desktop),
        Snapshot::Dialog(dialog) => dialog_selection(dialog),
    }
}

/// The browsing component at index `i` of `browsers` lives in the foreground
/// window.
pub open spec fn hosts_at(
    browsers: Seq<Option<Browser>>,
    i: int,
    foreground: usize,
    tab: Option<usize>,
) -> bool {
    &&& 0 <= i < browsers.len()
    &&& browsers[i] matches Some(browser)
    &&& hosts_foreground(browser.window, foreground, tab)
}

/// The first of the selected items `items` is part of the file system and
/// has the parsing name `path`.
pub open spec fn offers(items: Seq<ShellItem>, path: Seq<char>) -> bool {
    &&& items.len() > 0
    &&& items[0].file_system != Some(false)
    &&& items[0].parsing_name matches DisplayName::Text(name)
    &&& name@ == path
}

/// The snapshot shows `path` as the selection: in the file manager and on
/// the desktop, the one browsing component of the foreground window offers
/// it; in a dialog, it is the selected row's name in the dialog's directory.
pub open spec fn shows(snapshot: Snapshot, path: Seq<char>) -> bool {
    match snapshot {
        Snapshot::Explorer(explorer) => exists|i: int|
            {
                &&& #[trigger] hosts_at(explorer.browsers@, i, explorer.foreground, explorer.tab)
                &&& forall|j: int|
                    j != i ==> !hosts_at(explorer.browsers@, j, explorer.foreground, explorer.tab)
                &&& explorer.browsers@[i]->0.selection matches Some(items)
                &&& offers(items@, path)
            },
        Snapshot::Desktop(desktop) => {
            &&& desktop.desktop matches Some(browser)
            &&& browser.window == desktop.foreground_root
            &&& browser.selection matches Some(items)
            &&& offers(items@, path)
        },
        Snapshot::Dialog(dialog) => {
            &&& dialog.selected_name matches Some(name)
            &&& dialog.directory matches Some(directory)
            &&& name@.len() > 0
            &&& path == joined(directory@, name@)
        },
    }
}

/// Where no browsing component lives in the foreground window, none matches.
proof fn lemma_no_match(browsers: Seq<Option<Browser>>, foreground: usize, tab: Option<usize>)
    requires
        forall|j: int| !hosts_at(browsers, j, foreground, tab),
    ensures
        matching(browsers, foreground, tab) == Seq::<int>::empty(),
    decreases browsers.len(),
{
    if browsers.len() > 0 {
        let rest = browsers.drop_last();
        assert forall|j: int| !hosts_at(rest, j, foreground, tab) by {
            if 0 <= j < rest.len() {
                assert(!hosts_at(browsers, j, foreground, tab));
            }
        }
        lemma_no_match(rest, foreground, tab);
        assert(!hosts_at(browsers, browsers.len() - 1, foreground, tab));
    }
}

/// Where one browsing component alone lives in the foreground window, it is
/// the one match.
proof fn lemma_one_match(
    browsers: Seq<Option<Browser>>,
    foreground: usize,
    tab: Option<usize>,
    i: int,
)
    requires
        hosts_at(browsers, i, foreground, tab),
        forall|j: int| j != i ==> !hosts_at(browsers, j, foreground, tab),
    ensures
        matching(browsers, foreground, tab) == seq![i],
    decreases browsers.len(),
{
    let rest = browsers.drop_last();
    if i == browsers.len() - 1 {
        assert forall|j: int| !hosts_at(rest, j, foreground, tab) by {
            if 0 <= j < rest.len() {
                assert(!hosts_at(browsers, j, foreground, tab));
            }
        }
        lemma_no_match(rest, foreground, tab);
    } else {
        assert forall|j: int| j != i implies !hosts_at(rest, j, foreground, tab) by {
            if 0 <= j < rest.len() {
                assert(!hosts_at(browsers, j, foreground, tab));
            }
        }
        lemma_one_match(rest, foreground, tab, i);
        assert(!hosts_at(browsers, browsers.len() - 1, foreground, tab));
    }
}

/// A resolver hands the selected path on unmodified: in each of the three
/// kinds of window, where the snapshot shows `path` as the selection, the
/// resolver returns `path`.
pub proof fn lemma_resolver_returns_selected_path(snapshot: Snapshot, path: Seq<char>)
    requires
        shows(snapshot, path),
    ensures
        selection_of(snapshot) == Ok::<Seq<char>, ResolutionError>(path),
{
    match snapshot {
        Snapshot::Explorer(explorer) => {
            let i = choose|i: int|
                {
                    &&& #[trigger] hosts_at(
                        explorer.browsers@,
                        i,
                        explorer.foreground,
                        explorer.tab,
                    )
                    &&& forall|j: int|
                        j != i ==> !hosts_at(
                            explorer.browsers@,
                            j,
                            explorer.foreground,
                            explorer.tab,
                        )
                    &&& explorer.browsers@[i]->0.selection matches Some(items)
                    &&& offers(items@, path)
                };
            lemma_one_match(explorer.browsers@, explorer.foreground, explorer.tab, i);
        },
        _ => {},
    }
}

/// A resolver that fails reports that there is no selection, whatever went
/// wrong.
pub proof fn lemma_failure_is_no_selection(snapshot: Snapshot)
    ensures
        selection_of(snapshot) matches Err(error) ==> error == ResolutionError::NoSelection,
{
}

/// The path that the shell item `item` stands for, if it stands for one.
pub fn path_of_item(item: &ShellItem) -> (path: Option<String>)
    ensures
        match path {
            Some(p) => item_path(*item) == Some(p@),
            None => item_path(*item) is None,
        },
{
    match item.file_system {
        Some(false) => {
            return None;
        },
        _ => {},
    }
    match &item.parsing_name {
        DisplayName::Text(name) => Some(name.clone()),
        DisplayName::Undecodable => None,
        DisplayName::Unavailable => match &item.file_system_path {
            DisplayName::Text(path) => Some(path.clone()),
            _ => None,
        },
    }
}

/// The path of the first of the selected items `items` that stands for one.
pub fn get_selected_file_path_from_shellview(items: &Vec<ShellItem>) -> (path: Option<String>)
    ensures
        match path {
            Some(p) => first_path(items@) == Some(p@),
            None => first_path(items@) is None,
        },
{
    let mut i: usize = 0;
    assert(items@.skip(0) == items@);
    while i < items.len()
        invariant
            i <= items.len(),
            first_path(items@) == first_path(items@.skip(i as int)),
        decreases items.len() - i,
    {
        proof {
            assert(items@.skip(i as int).drop_first() == items@.skip(i + 1));
        }
        match path_of_item(&items[i]) {
            Some(path) => {
                return Some(path);
            },
            None => {},
        }
        i = i + 1;
    }
    None
}

/// The selection of the browsing component `browser`.
pub fn selection_of_browser(browser: &Browser) -> (result: Result<String, ResolutionError>)
    ensures
        is_outcome(result, browser_selection(*browser)),
{
    match &browser.selection {
        Some(items) => match get_selected_file_path_from_shellview(items) {
            Some(path) => Ok(path),
            None => Err(ResolutionError::NoSelection),
        },
        None => Err(ResolutionError::NoSelection),
    }
}

/// Resolves the selection in the file manager.
pub fn get_selected_file_from_explorer(snapshot: &ExplorerSnapshot) -> (result: Result<
    String,
    ResolutionError,
>)
    ensures
        is_outcome(result, explorer_selection(*snapshot)),
{
    let mut count: usize = 0;
    let mut first: usize = 0;
    let mut i: usize = 0;
    while i < snapshot.browsers.len()
        invariant
            i <= snapshot.browsers.len(),
            count <= i,
            count == matching(
                snapshot.browsers@.take(i as int),
                snapshot.foreground,
                snapshot.tab,
            ).len(),
            count > 0 ==> first == matching(
                snapshot.browsers@.take(i as int),
                snapshot.foreground,
                snapshot.tab,
            )[0] && first < i && snapshot.browsers@[first as int] is Some,
        decreases snapshot.browsers.len() - i,
    {
        proof {
            assert(snapshot.browsers@.take(i + 1).drop_last() == snapshot.browsers@.take(
                i as int,
            ));
        }
        match &snapshot.browsers[i] {
            Some(browser) => {
                let in_tab = match snapshot.tab {
                    Some(tab) => tab == browser.window,
                    None => false,
                };
                if browser.window == snapshot.foreground || in_tab {
                    if count == 0 {
                        first = i;
                    }
                    count = count + 1;
                }
            },
            None => {},
        }
        i = i + 1;
    }
    assert(snapshot.browsers@.take(i as int) == snapshot.browsers@);
    if count != 1 {
        return Err(ResolutionError::NoSelection);
    }
    match &snapshot.browsers[first] {
        Some(browser) => selection_of_browser(browser),
        None => Err(ResolutionError::NoSelection),
    }
}

/// Resolves the selection on the desktop.
pub fn get_selected_file_from_desktop(snapshot: &DesktopSnapshot) -> (result: Result<
    String,
    ResolutionError,
>)
    ensures
        is_outcome(result, desktop_selection(*snapshot)),
{
    match &snapshot.desktop {
        Some(browser) => if browser.window == snapshot.foreground_root {
            selection_of_browser(browser)
        } else {
            Err(ResolutionError::NoSelection)
        },
        None => Err(ResolutionError::NoSelection),
    }
}

/// Resolves the selection in an open or save dialog.
pub fn get_selected_file_from_dialog(snapshot: &DialogSnapshot) -> (result: Result<
    String,
    ResolutionError,
>)
    ensures
        is_outcome(result, dialog_selection(*snapshot)),
{
    match (&snapshot.selected_name, &snapshot.directory) {
        (Some(name), Some(directory)) => {
            let row = chars_of(name.as_str());
            if row.len() == 0 {
                return Err(ResolutionError::NoSelection);
            }
            let mut out = chars_of(directory.as_str());
            out.push('\\');
            assert(out@ == directory@ + seq!['\\']);
            push_text(&mut out, name.as_str());
            Ok(string_of(&out))
        },
        _ => Err(ResolutionError::NoSelection),
    }
}

/// A resolved selection: the path, and the kind of window whose resolver
/// found it.
#[derive(Debug, PartialEq, Eq)]
pub struct ResolvedSelection {
    pub path: String,
    pub provenance: FwWindowType,
}

/// The kind of window that `snapshot` was taken of.
pub open spec fn provenance_of(snapshot: Snapshot) -> FwWindowType {
    match snapshot {
        Snapshot::Explorer(_) => FwWindowType::Explorer,
        Snapshot::Desktop(_) => FwWindowType::Desktop,
        Snapshot::Dialog(_) => FwWindowType::Dialog,
    }
}

/// The entry point of selection resolution.
pub struct Selected;

impl Selected {
    /// Resolves the selection that `snapshot` shows, with the resolver of its
    /// kind of window.
    pub fn new(snapshot: &Snapshot) -> (result: Result<String, ResolutionError>)
        ensures
            is_outcome(result, selection_of(*snapshot)),
            result is Err ==> result == Err::<String, ResolutionError>(
                ResolutionError::NoSelection,
            ),
    {
        match snapshot {
            Snapshot::Explorer(explorer) => get_selected_file_from_explorer(explorer),
            Snapshot::Desktop(desktop) => get_selected_file_from_desktop(desktop),
            Snapshot::Dialog(dialog) => get_selected_file_from_dialog(dialog),
        }
    }

    /// Resolves the selection that `snapshot` shows, and says which resolver
    /// found it.
    pub fn resolve(snapshot: &Snapshot) -> (result: Result<ResolvedSelection, ResolutionError>)
        ensures
            match result {
                Ok(found) => selection_of(*snapshot) == Ok::<Seq<char>, ResolutionError>(
                    found.path@,
                ) && found.provenance == provenance_of(*snapshot),
                Err(error) => selection_of(*snapshot) == Err::<Seq<char>, ResolutionError>(error),
            },
    {
        let provenance = match snapshot {
            Snapshot::Explorer(_) => FwWindowType::Explorer,
            Snapshot::Desktop(_) => FwWindowType::Desktop,
            Snapshot::Dialog(_) => FwWindowType::Dialog,
        };
        match Self::new(snapshot) {
            Ok(path) => Ok(ResolvedSelection { path, provenance }),
            Err(error) => Err(error),
        }
    }

    /// Classifies the foreground window by its class name; `has_def_view`
    /// tells whether it has a shell view among its children.
    pub fn get_focused_type(class_name: &str, has_def_view: bool) -> (kind: Option<FwWindowType>)
        ensures
            kind == focused_type_of(class_name@, has_def_view),
    {
        classify_window(class_name, has_def_view)
    }
}

} // verus!
