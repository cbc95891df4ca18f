//! The debounce guard: the conditions under which a trigger is dropped
//! because the key stroke was meant for something else.

use crate::text::{contains, contains_text, starts_with, starts_with_text};
use vstd::prelude::*;

verus! {

/// A top-level window as the guard sees it.
#[derive(Debug)]
pub struct TopWindow {
    pub class_name: String,
    pub visible: bool,
}

/// The window belongs to the quick-launch overlay and is on screen.
pub open spec fn is_visible_toolbar(class_name: Seq<char>, visible: bool) -> bool {
    starts_with_text(class_name, "Listary_WidgetWin_"@) && visible
}

/// One of `windows` is a visible window of the quick-launch overlay.
pub open spec fn toolbar_visible(windows: Seq<TopWindow>) -> bool {
    exists|i: int|
        0 <= i < windows.len() && is_visible_toolbar(
            (#[trigger] windows[i]).class_name@,
            windows[i].visible,
        )
}

/// The trigger is to be dropped: the thread that owns the window reports an
/// input state (`flags` is not zero), or it shows a caret (`caret` is the
/// handle of the window that holds it, zero for none), or the quick-launch
/// overlay is on screen.
pub open spec fn cursor_activated(flags: u32, caret: usize, windows: Seq<TopWindow>) -> bool {
    flags != 0 || caret != 0 || toolbar_visible(windows)
}

/// Whether one of the top-level windows `windows` is a visible window of
/// the quick-launch overlay.
pub fn is_listary_toolbar_visible(windows: &Vec<TopWindow>) -> (found: bool)
    ensures
        found == toolbar_visible(windows@),
{
    let mut i: usize = 0;
    while i < windows.len()
        invariant
            i <= windows.len(),
            forall|k: int|
                0 <= k < i ==> !is_visible_toolbar(
                    (#[trigger] windows@[k]).class_name@,
                    windows@[k].visible,
                ),
        decreases windows.len() - i,
    {
        if windows[i].visible && starts_with(windows[i].class_name.as_str(), "Listary_WidgetWin_") {
            return true;
        }
        i = i + 1;
    }
    false
}

/// Whether the trigger is to be dropped. `flags` and `caret` are what the
/// system reports of the thread that owns the window in question, `windows`
/// are the top-level windows on screen.
pub fn is_cursor_activated(flags: u32, caret: usize, windows: &Vec<TopWindow>) -> (active: bool)
    ensures
        active == cursor_activated(flags, caret, windows@),
{
    flags != 0 || caret != 0 || is_listary_toolbar_visible(windows)
}

/// Whether the foreground window is a text field in which a name is being
/// edited: there is a foreground window (`foreground` is not zero) and its
/// class name holds `Edit`.
pub fn is_rename_mode(foreground: usize, class_name: &str) -> (editing: bool)
    ensures
        editing == (foreground != 0 && contains_text(class_name@, "Edit"@)),
{
    foreground != 0 && contains(class_name, "Edit")
}

} // verus!
