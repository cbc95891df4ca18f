//! The preview pipeline, from a trigger to the request to show a file.
//!
//! The pipeline is a state machine. Its owner does the work that takes
//! time or touches the system (probing the input state, running a resolver
//! on a worker thread, asking the file system) and hands back what came of
//! it; the pipeline decides what follows. At most one trigger is in flight:
//! a new trigger takes the place of the one before, and answers to a trigger
//! that was replaced are dropped. Whatever goes wrong ends the trigger
//! without a trace.

use crate::file::{file_info_of, get_file_info};
use crate::guard::{cursor_activated, is_cursor_activated, TopWindow};
use crate::route::{route_path, WebRoute, WebRouteView};
use crate::selection::ResolutionError;
use crate::size::{calc_window_size, window_size_of, MonitorInfo, WindowSize};
use crate::window::FwWindowType;
use vstd::prelude::*;

verus! {

/// What is remembered from one trigger to the next: the path that was
/// resolved last.
#[derive(Debug, PartialEq, Eq)]
pub struct PreviewStateInner {
    input_path: String,
}

impl PreviewStateInner {
    /// The path that was resolved last; empty before the first.
    pub fn input_path(&self) -> (path: &String)
        ensures
            path@ == self@,
    {
        &self.input_path
    }
}

impl View for PreviewStateInner {
    type V = Seq<char>;

    closed spec fn view(&self) -> Seq<char> {
        self.input_path@
    }
}

impl Default for PreviewStateInner {
    fn default() -> (state: Self)
        ensures
            state@ == Seq::<char>::empty(),
    {
        PreviewStateInner { input_path: String::new() }
    }
}

/// How far a trigger has come.
#[derive(Debug, PartialEq, Eq)]
pub enum Stage {
    /// No trigger is in flight.
    Idle,
    /// The window is classified; the input state is being probed.
    Guarding(FwWindowType),
    /// A resolver is at work.
    Resolving(FwWindowType),
    /// The path is resolved; the file system is being asked about it.
    Describing(String),
}

/// How far a trigger has come, as plain values.
pub enum StageView {
    Idle,
    Guarding(FwWindowType),
    Resolving(FwWindowType),
    Describing(Seq<char>),
}

impl View for Stage {
    type V = StageView;

    open spec fn view(&self) -> StageView {
        match *self {
            Stage::Idle => StageView::Idle,
            Stage::Guarding(window) => StageView::Guarding(window),
            Stage::Resolving(window) => StageView::Resolving(window),
            Stage::Describing(path) => StageView::Describing(path@),
        }
    }
}

/// What happened.
#[derive(Debug)]
pub enum Event {
    /// The trigger key went down over a window of this kind.
    Trigger(FwWindowType),
    /// The input state was probed: the state flags and the caret window of
    /// the thread in question, and the top-level windows on screen.
    Input { ticket: u64, flags: u32, caret: usize, windows: Vec<TopWindow> },
    /// The resolver came back.
    Resolved { ticket: u64, result: Result<String, ResolutionError> },
    /// The file system and the display answered.
    Described { ticket: u64, is_file: bool, size: u64, last_modified: u64, monitor: MonitorInfo },
}

/// What happened, as plain values.
pub enum EventView {
    Trigger(FwWindowType),
    Input { ticket: u64, active: bool },
    Resolved { ticket: u64, result: Result<Seq<char>, ResolutionError> },
    Described { ticket: u64, is_file: bool, size: u64, last_modified: u64, monitor: MonitorInfo },
}

impl View for Event {
    type V = EventView;

    open spec fn view(&self) -> EventView {
        match *self {
            Event::Trigger(window) => EventView::Trigger(window),
            Event::Input { ticket, flags, caret, windows } => EventView::Input {
                ticket,
                active: cursor_activated(flags, caret, windows@),
            },
            Event::Resolved { ticket, result } => EventView::Resolved {
                ticket,
                result: match result {
                    Ok(path) => Ok(path@),
                    Err(error) => Err(error),
                },
            },
            Event::Described { ticket, is_file, size, last_modified, monitor } => {
                EventView::Described { ticket, is_file, size, last_modified, monitor }
            },
        }
    }
}

/// What the owner of the pipeline is to do. Each request carries the ticket
/// of its trigger, which the answer hands back.
#[derive(Debug, PartialEq, Eq)]
pub enum Action {
    Nothing,
    /// Probe the input state.
    ProbeInput { ticket: u64, window: FwWindowType },
    /// Run the resolver for this kind of window.
    Dispatch { ticket: u64, window: FwWindowType },
    /// Ask the file system about this path, and the display for its measures.
    Stat { ticket: u64, path: String },
    /// Show the file on this route in a window of this size.
    Present { route: WebRoute, size: WindowSize },
}

/// What is to be done, as plain values.
pub enum ActionView {
    Nothing,
    ProbeInput { ticket: u64, window: FwWindowType },
    Dispatch { ticket: u64, window: FwWindowType },
    Stat { ticket: u64, path: Seq<char> },
    Present { route: WebRouteView, size: WindowSize },
}

impl View for Action {
    type V = ActionView;

    open spec fn view(&self) -> ActionView {
        match *self {
            Action::Nothing => ActionView::Nothing,
            Action::ProbeInput { ticket, window } => ActionView::ProbeInput { ticket, window },
            Action::Dispatch { ticket, window } => ActionView::Dispatch { ticket, window },
            Action::Stat { ticket, path } => ActionView::Stat { ticket, path: path@ },
            Action::Present { route, size } => ActionView::Present { route: route@, size },
        }
    }
}

/// The pipeline, as plain values.
pub struct PreviewFileView {
    pub ticket: u64,
    pub stage: StageView,
    pub input_path: Seq<char>,
}

/// The pipeline.
#[derive(Debug)]
pub struct PreviewFile {
    ticket: u64,
    stage: Stage,
    state: PreviewStateInner,
}

impl View for PreviewFile {
    type V = PreviewFileView;

    closed spec fn view(&self) -> PreviewFileView {
        PreviewFileView { ticket: self.ticket, stage: self.stage@, input_path: self.state@ }
    }
}

/// The ticket after `ticket`.
pub open spec fn next_ticket(ticket: u64) -> u64 {
    if ticket == u64::MAX {
        0
    } else {
        (ticket + 1) as u64
    }
}

/// `pipeline` with no trigger in flight.
pub open spec fn at_rest(pipeline: PreviewFileView) -> PreviewFileView {
    PreviewFileView { stage: StageView::Idle, ..pipeline }
}

/// The request to show the file at `path`, if the file system's answers
/// describe a file that can be previewed.
pub open spec fn presentation_of(
    path: Seq<char>,
    is_file: bool,
    size: u64,
    last_modified: u64,
    monitor: MonitorInfo,
) -> ActionView {
    match file_info_of(path, is_file, size, last_modified) {
        Some(file) => ActionView::Present {
            route: WebRouteView { path: route_path(file.file_type), query: file },
            size: window_size_of(file.file_type, monitor),
        },
        None => ActionView::Nothing,
    }
}

/// The pipeline after `event`, and what is to be done.
///
/// A trigger starts afresh under a new ticket and asks for the input state.
/// An answer counts only if it carries the ticket in flight and the pipeline
/// waits for that kind of answer; else it changes nothing. An active input
/// state ends the trigger, a quiet one sends the resolver off. A resolver
/// that failed ends the trigger; a path is remembered and leads to the
/// file system. The file system's answer ends the trigger, with the request
/// to show the file if there is a descriptor for it.
pub open spec fn step_of(pipeline: PreviewFileView, event: EventView) -> (
    PreviewFileView,
    ActionView,
) {
    let unchanged = (pipeline, ActionView::Nothing);
    match event {
        EventView::Trigger(window) => (
            PreviewFileView {
                ticket: next_ticket(pipeline.ticket),
                stage: StageView::Guarding(window),
                input_path: pipeline.input_path,
            },
            ActionView::ProbeInput { ticket: next_ticket(pipeline.ticket), window },
        ),
        EventView::Input { ticket, active } => match pipeline.stage {
            StageView::Guarding(window) => if ticket != pipeline.ticket {
                unchanged
            } else if active {
                (at_rest(pipeline), ActionView::Nothing)
            } else {
                (
                    PreviewFileView { stage: StageView::Resolving(window), ..pipeline },
                    ActionView::Dispatch { ticket, window },
                )
            },
            _ => unchanged,
        },
        EventView::Resolved { ticket, result } => match pipeline.stage {
            StageView::Resolving(window) => if ticket != pipeline.ticket {
                unchanged
            } else {
                match result {
                    Ok(path) => (
                        PreviewFileView {
                            ticket,
                            stage: StageView::Describing(path),
                            input_path: path,
                        },
                        ActionView::Stat { ticket, path },
                    ),
                    Err(_) => (at_rest(pipeline), ActionView::Nothing),
                }
            },
            _ => unchanged,
        },
        EventView::Described { ticket, is_file, size, last_modified, monitor } => match pipeline.stage {
            StageView::Describing(path) => if ticket != pipeline.ticket {
                unchanged
            } else {
                (
                    at_rest(pipeline),
                    presentation_of(path, is_file, size, last_modified, monitor),
                )
            },
            _ => unchanged,
        },
    }
}

/// The actions that a run of events leads to, one for each event.
pub open spec fn actions_of(pipeline: PreviewFileView, events: Seq<EventView>) -> Seq<ActionView>
    decreases events.len(),
{
    if events.len() == 0 {
        Seq::empty()
    } else {
        seq![step_of(pipeline, events[0]).1] + actions_of(
            step_of(pipeline, events[0]).0,
            events.drop_first(),
        )
    }
}

impl PreviewFile {
    /// A pipeline at rest that has resolved nothing yet.
    pub fn new() -> (pipeline: Self)
        ensures
            pipeline@ == (PreviewFileView {
                ticket: 0,
                stage: StageView::Idle,
                input_path: Seq::<char>::empty(),
            }),
    {
        Self { ticket: 0, stage: Stage::Idle, state: PreviewStateInner::default() }
    }

    /// The ticket of the trigger that came last.
    pub fn ticket(&self) -> (ticket: u64)
        ensures
            ticket == self@.ticket,
    {
        self.ticket
    }

    /// How far the trigger in flight has come.
    pub fn stage(&self) -> (stage: &Stage)
        ensures
            stage@ == self@.stage,
    {
        &self.stage
    }

    /// What is remembered of the last resolution.
    pub fn state(&self) -> (state: &PreviewStateInner)
        ensures
            state@ == self@.input_path,
    {
        &self.state
    }

    /// Takes in `event`: returns the pipeline after it and what is to be
    /// done.
    pub fn preview_file(self, event: Event) -> (result: (PreviewFile, Action))
        ensures
            (result.0@, result.1@) == step_of(self@, event@),
    {
        let ticket_now = self.ticket;
        match event {
            Event::Trigger(window) => {
                let ticket = if ticket_now == u64::MAX {
                    0
                } else {
                    ticket_now + 1
                };
                (
                    PreviewFile { ticket, stage: Stage::Guarding(window), state: self.state },
                    Action::ProbeInput { ticket, window },
                )
            },
            Event::Input { ticket, flags, caret, windows } => match self.stage {
                Stage::Guarding(window) => {
                    if ticket != ticket_now {
                        (
                            PreviewFile {
                                ticket: ticket_now,
                                stage: Stage::Guarding(window),
                                state: self.state,
                            },
                            Action::Nothing,
                        )
                    } else if is_cursor_activated(flags, caret, &windows) {
                        (
                            PreviewFile {
                                ticket: ticket_now,
                                stage: Stage::Idle,
                                state: self.state,
                            },
                            Action::Nothing,
                        )
                    } else {
                        (
                            PreviewFile {
                                ticket: ticket_now,
                                stage: Stage::Resolving(window),
                                state: self.state,
                            },
                            Action::Dispatch { ticket, window },
                        )
                    }
                },
                _ => (self, Action::Nothing),
            },
            Event::Resolved { ticket, result } => match self.stage {
                Stage::Resolving(window) => {
                    if ticket != ticket_now {
                        (
                            PreviewFile {
                                ticket: ticket_now,
                                stage: Stage::Resolving(window),
                                state: self.state,
                            },
                            Action::Nothing,
                        )
                    } else {
                        match result {
                            Ok(path) => (
                                PreviewFile {
                                    ticket: ticket_now,
                                    stage: Stage::Describing(path.clone()),
                                    state: PreviewStateInner { input_path: path.clone() },
                                },
                                Action::Stat { ticket, path },
                            ),
                            Err(_) => (
                                PreviewFile {
                                    ticket: ticket_now,
                                    stage: Stage::Idle,
                                    state: self.state,
                                },
                                Action::Nothing,
                            ),
                        }
                    }
                },
                _ => (self, Action::Nothing),
            },
            Event::Described { ticket, is_file, size, last_modified, monitor } => match self.stage {
                Stage::Describing(path) => {
                    if ticket != ticket_now {
                        (
                            PreviewFile {
                                ticket: ticket_now,
                                stage: Stage::Describing(path),
                                state: self.state,
                            },
                            Action::Nothing,
                        )
                    } else {
                        let action = match get_file_info(
                            path.as_str(),
                            is_file,
                            size,
                            last_modified,
                        ) {
                            Some(file) => {
                                let file_type = file.get_file_type();
                                Action::Present {
                                    route: WebRoute::get_route(file_type.as_str(), &file),
                                    size: calc_window_size(file_type.as_str(), &monitor),
                                }
                            },
                            None => Action::Nothing,
                        };
                        (
                            PreviewFile {
                                ticket: ticket_now,
                                stage: Stage::Idle,
                                state: self.state,
                            },
                            action,
                        )
                    }
                },
                _ => (self, Action::Nothing),
            },
        }
    }
}

/// A resolver is sent off only by a quiet input state: the pipeline waits
/// for the input state, the answer carries the ticket in flight, and it
/// reports neither an edit in progress nor the overlay.
pub proof fn lemma_dispatch_needs_quiet_input(pipeline: PreviewFileView, event: EventView)
    ensures
        step_of(pipeline, event).1 is Dispatch ==> {
            &&& pipeline.stage is Guarding
            &&& event matches EventView::Input { ticket, active }
            &&& ticket == pipeline.ticket
            &&& !active
        },
{
}

/// While every input state that is reported is an active one, no resolver is
/// ever sent off, whatever else happens and wherever the pipeline starts.
pub proof fn lemma_active_input_never_dispatches(
    pipeline: PreviewFileView,
    events: Seq<EventView>,
)
    requires
        forall|i: int|
            0 <= i < events.len() ==> ((#[trigger] events[i]) matches EventView::Input {
                active,
                ..
            } ==> active),
    ensures
        actions_of(pipeline, events).len() == events.len(),
        forall|k: int|
            0 <= k < events.len() ==> !(#[trigger] actions_of(pipeline, events)[k] is Dispatch),
    decreases events.len(),
{
    if events.len() > 0 {
        let rest = events.drop_first();
        assert forall|i: int| 0 <= i < rest.len() implies ((#[trigger] rest[i]) matches EventView::Input {
            active,
            ..
        } ==> active) by {
        }
        lemma_active_input_never_dispatches(step_of(pipeline, events[0]).0, rest);
        lemma_dispatch_needs_quiet_input(pipeline, events[0]);
        assert forall|k: int| 0 <= k < events.len() implies !(#[trigger] actions_of(
            pipeline,
            events,
        )[k] is Dispatch) by {
        }
    }
}

/// Nothing is shown unless a path was resolved and the file system described
/// a file that can be previewed: a request to show a file answers the file
/// system's answer to the trigger in flight, and a resolver that failed ends
/// its trigger with nothing to do.
pub proof fn lemma_present_needs_descriptor(pipeline: PreviewFileView, event: EventView)
    ensures
        step_of(pipeline, event).1 is Present ==> {
            &&& pipeline.stage matches StageView::Describing(path)
            &&& event matches EventView::Described { ticket, is_file, size, last_modified, .. }
            &&& ticket == pipeline.ticket
            &&& file_info_of(path, is_file, size, last_modified) is Some
        },
        ({
            &&& pipeline.stage is Resolving
            &&& event matches EventView::Resolved { ticket, result }
            &&& ticket == pipeline.ticket
            &&& result is Err
        }) ==> step_of(pipeline, event) == (at_rest(pipeline), ActionView::Nothing),
{
}

} // verus!
