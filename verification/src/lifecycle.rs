//! The life of the single preview window.
//!
//! The manager is a state machine. Its owner hands it what happened (a
//! trigger, the surface reporting that its content is loaded, the window going
//! away) and carries out the action that comes back.

use crate::route::{url_of, WebRoute, WebRouteView};
use crate::size::WindowSize;
use vstd::prelude::*;

verus! {

/// The state of the preview window, as plain values.
pub enum WindowStateView {
    NoWindow,
    WindowOpen { pending: Option<WebRouteView> },
}

/// What happened, as plain values.
pub enum WindowEventView {
    Trigger { route: WebRouteView, size: WindowSize },
    ContentReady,
    Closed,
}

/// What is to be done, as plain values.
pub enum WindowActionView {
    Nothing,
    Create { size: WindowSize },
    Navigate { url: Seq<char> },
}

/// The state of the preview window.
#[derive(Debug, PartialEq, Eq)]
pub enum WindowState {
    /// There is no window.
    NoWindow,
    /// There is a window. `pending` is the route that it is sent to once its
    /// content is loaded; `None` once that has happened.
    WindowOpen { pending: Option<WebRoute> },
}

/// What happened.
#[derive(Debug)]
pub enum WindowEvent {
    /// A file is to be previewed on `route`, in a window of `size`.
    Trigger { route: WebRoute, size: WindowSize },
    /// The surface reports that its content is loaded.
    ContentReady,
    /// The window is gone.
    Closed,
}

/// What the owner of the state machine is to do.
#[derive(Debug, PartialEq, Eq)]
pub enum WindowAction {
    Nothing,
    /// Create the window in this size, and report when its content is loaded.
    Create { size: WindowSize },
    /// Send the surface to `url`, show the window and bring it to the front.
    Navigate { url: String },
}

impl View for WindowState {
    type V = WindowStateView;

    open spec fn view(&self) -> WindowStateView {
        match *self {
            WindowState::NoWindow => WindowStateView::NoWindow,
            WindowState::WindowOpen { pending } => WindowStateView::WindowOpen {
                pending: match pending {
                    Some(route) => Some(route@),
                    None => None,
                },
            },
        }
    }
}

impl View for WindowEvent {
    type V = WindowEventView;

    open spec fn view(&self) -> WindowEventView {
        match *self {
            WindowEvent::Trigger { route, size } => WindowEventView::Trigger {
                route: route@,
                size,
            },
            WindowEvent::ContentReady => WindowEventView::ContentReady,
            WindowEvent::Closed => WindowEventView::Closed,
        }
    }
}

impl View for WindowAction {
    type V = WindowActionView;

    open spec fn view(&self) -> WindowActionView {
        match *self {
            WindowAction::Nothing => WindowActionView::Nothing,
            WindowAction::Create { size } => WindowActionView::Create { size },
            WindowAction::Navigate { url } => WindowActionView::Navigate { url: url@ },
        }
    }
}

/// The state after `event`.
///
/// A trigger without a window leads to a window that waits for its content,
/// with the route kept for then. A trigger with a window keeps the window; if
/// that still waits, the new route takes the place of the one kept. The
/// content being loaded ends the wait. The window going away leads back to
/// the beginning.
pub open spec fn next_state(state: WindowStateView, event: WindowEventView) -> WindowStateView {
    match (state, event) {
        (_, WindowEventView::Closed) => WindowStateView::NoWindow,
        (WindowStateView::NoWindow, WindowEventView::Trigger { route, size }) => {
            WindowStateView::WindowOpen { pending: Some(route) }
        },
        (WindowStateView::NoWindow, WindowEventView::ContentReady) => WindowStateView::NoWindow,
        (
            WindowStateView::WindowOpen { pending },
            WindowEventView::Trigger { route, size },
        ) => WindowStateView::WindowOpen {
            pending: if pending is Some {
                Some(route)
            } else {
                None
            },
        },
        (WindowStateView::WindowOpen { pending }, WindowEventView::ContentReady) => {
            WindowStateView::WindowOpen { pending: None }
        },
    }
}

/// What is to be done on `event`.
///
/// A trigger without a window creates one and nothing more. A trigger with a
/// window navigates at once. The content being loaded navigates to the route
/// that was kept, if one still is.
pub open spec fn action_of(state: WindowStateView, event: WindowEventView) -> WindowActionView {
    match (state, event) {
        (_, WindowEventView::Closed) => WindowActionView::Nothing,
        (WindowStateView::NoWindow, WindowEventView::Trigger { route, size }) => {
            WindowActionView::Create { size }
        },
        (WindowStateView::NoWindow, WindowEventView::ContentReady) => WindowActionView::Nothing,
        (
            WindowStateView::WindowOpen { pending },
            WindowEventView::Trigger { route, size },
        ) => WindowActionView::Navigate { url: url_of(route) },
        (WindowStateView::WindowOpen { pending }, WindowEventView::ContentReady) => match pending {
            Some(route) => WindowActionView::Navigate { url: url_of(route) },
            None => WindowActionView::Nothing,
        },
    }
}

/// The actions that a run of events leads to, one for each event.
pub open spec fn actions_of(state: WindowStateView, events: Seq<WindowEventView>) -> Seq<
    WindowActionView,
>
    decreases events.len(),
{
    if events.len() == 0 {
        Seq::empty()
    } else {
        seq![action_of(state, events[0])] + actions_of(
            next_state(state, events[0]),
            events.drop_first(),
        )
    }
}

impl WindowState {
    /// The state before the first trigger.
    pub fn new() -> (state: Self)
        ensures
            state@ == WindowStateView::NoWindow,
    {
        WindowState::NoWindow
    }

    /// Takes in `event`: returns the state after it and what is to be done.
    pub fn step(self, event: WindowEvent) -> (result: (WindowState, WindowAction))
        ensures
            result.0@ == next_state(self@, event@),
            result.1@ == action_of(self@, event@),
    {
        match event {
            WindowEvent::Closed => (WindowState::NoWindow, WindowAction::Nothing),
            WindowEvent::Trigger { route, size } => match self {
                WindowState::NoWindow => (
                    WindowState::WindowOpen { pending: Some(route) },
                    WindowAction::Create { size },
                ),
                WindowState::WindowOpen { pending } => {
                    let url = route.to_url();
                    let kept = match pending {
                        Some(_) => Some(route),
                        None => None,
                    };
                    (WindowState::WindowOpen { pending: kept }, WindowAction::Navigate { url })
                },
            },
            WindowEvent::ContentReady => match self {
                WindowState::NoWindow => (WindowState::NoWindow, WindowAction::Nothing),
                WindowState::WindowOpen { pending } => {
                    let action = match pending {
                        Some(route) => WindowAction::Navigate { url: route.to_url() },
                        None => WindowAction::Nothing,
                    };
                    (WindowState::WindowOpen { pending: None }, action)
                },
            },
        }
    }
}

/// There is never a second window: a window is created only where there is
/// none, and only by a trigger; and nothing but the window going away leads
/// back to there being none.
pub proof fn lemma_single_window(state: WindowStateView, event: WindowEventView)
    ensures
        action_of(state, event) is Create ==> state is NoWindow && event is Trigger,
        state is WindowOpen && !(event is Closed) ==> next_state(state, event) is WindowOpen,
        action_of(state, event) is Navigate ==> state is WindowOpen,
{
}

/// `count` reports of loaded content in a row.
pub open spec fn readies(count: nat) -> Seq<WindowEventView> {
    Seq::new(count, |i: int| WindowEventView::ContentReady)
}

/// A window that waits for nothing does nothing when content is loaded.
proof fn lemma_settled_window_ignores_readies(count: nat)
    ensures
        actions_of(WindowStateView::WindowOpen { pending: None }, readies(count)).len() == count,
        forall|i: int|
            0 <= i < count ==> actions_of(
                WindowStateView::WindowOpen { pending: None },
                readies(count),
            )[i] == WindowActionView::Nothing,
    decreases count,
{
    if count > 0 {
        lemma_settled_window_ignores_readies((count - 1) as nat);
        assert(readies(count).drop_first() == readies((count - 1) as nat));
    }
}

/// The first trigger creates the window and does not navigate; the
/// navigation follows once, on the first report that the content is loaded,
/// and no later report repeats it. So one window is created, and the surface
/// is sent to the route exactly once if the content gets loaded, and never
/// before that.
pub proof fn lemma_first_trigger(route: WebRouteView, size: WindowSize, count: nat)
    ensures
        ({
            let events = seq![WindowEventView::Trigger { route, size }] + readies(count);
            let actions = actions_of(WindowStateView::NoWindow, events);
            &&& actions.len() == count + 1
            &&& actions[0] == WindowActionView::Create { size }
            &&& count > 0 ==> actions[1] == WindowActionView::Navigate { url: url_of(route) }
            &&& forall|i: int| 2 <= i <= count ==> actions[i] == WindowActionView::Nothing
        }),
{
    let first = WindowEventView::Trigger { route, size };
    let events = seq![first] + readies(count);
    let waiting = WindowStateView::WindowOpen { pending: Some(route) };
    let settled = WindowStateView::WindowOpen { pending: None };
    let actions = actions_of(WindowStateView::NoWindow, events);
    let tail = actions_of(waiting, readies(count));
    assert(events.drop_first() == readies(count));
    assert(actions == seq![WindowActionView::Create { size }] + tail);
    if count > 0 {
        let rest = readies((count - 1) as nat);
        assert(readies(count).drop_first() == rest);
        lemma_settled_window_ignores_readies((count - 1) as nat);
        assert(tail == seq![WindowActionView::Navigate { url: url_of(route) }] + actions_of(
            settled,
            rest,
        ));
        assert forall|i: int| 2 <= i <= count implies actions[i]
            == WindowActionView::Nothing by {
            assert(actions[i] == tail[i - 1]);
            assert(tail[i - 1] == actions_of(settled, rest)[i - 2]);
        }
    }
}

} // verus!
