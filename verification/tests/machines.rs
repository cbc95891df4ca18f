use quicklook::file::File;
use quicklook::guard::TopWindow;
use quicklook::lifecycle::{WindowAction, WindowEvent, WindowState};
use quicklook::pipeline::{Action, Event, PreviewFile, PreviewStateInner, Stage};
use quicklook::route::WebRoute;
use quicklook::selection::ResolutionError;
use quicklook::size::{Length, MonitorInfo, WindowSize};
use quicklook::window::FwWindowType;

fn quiet(ticket: u64) -> Event {
    Event::Input { ticket, flags: 0, caret: 0, windows: Vec::new() }
}

fn editing(ticket: u64) -> Event {
    Event::Input { ticket, flags: 0, caret: 0x77, windows: Vec::new() }
}

fn display() -> MonitorInfo {
    MonitorInfo { width: 1920, height: 1080, dpi: 96 }
}

fn route_of(path: &str, name: &str) -> WebRoute {
    let file = File::new("Markdown", path.to_string(), "md".to_string(), 5, 6, name.to_string());
    WebRoute::new("/preview/md".to_string(), file)
}

fn some_size() -> WindowSize {
    WindowSize {
        width: Length { numerator: 7680, denominator: 5 },
        height: Length { numerator: 4320, denominator: 5 },
    }
}

#[test]
fn a_trigger_runs_through_to_the_request_to_show_the_file() {
    let pipeline = PreviewFile::new();
    assert_eq!(pipeline.ticket(), 0);
    assert_eq!(pipeline.stage(), &Stage::Idle);
    assert_eq!(pipeline.state().input_path(), "");

    let (pipeline, action) = pipeline.preview_file(Event::Trigger(FwWindowType::Explorer));
    assert_eq!(action, Action::ProbeInput { ticket: 1, window: FwWindowType::Explorer });
    assert_eq!(pipeline.stage(), &Stage::Guarding(FwWindowType::Explorer));

    let (pipeline, action) = pipeline.preview_file(quiet(1));
    assert_eq!(action, Action::Dispatch { ticket: 1, window: FwWindowType::Explorer });
    assert_eq!(pipeline.stage(), &Stage::Resolving(FwWindowType::Explorer));

    let resolved = Event::Resolved { ticket: 1, result: Ok("C:\\Notes\\draft.md".to_string()) };
    let (pipeline, action) = pipeline.preview_file(resolved);
    assert_eq!(action, Action::Stat { ticket: 1, path: "C:\\Notes\\draft.md".to_string() });
    assert_eq!(pipeline.stage(), &Stage::Describing("C:\\Notes\\draft.md".to_string()));
    assert_eq!(pipeline.state().input_path(), "C:\\Notes\\draft.md");

    let described =
        Event::Described { ticket: 1, is_file: true, size: 5, last_modified: 6, monitor: display() };
    let (pipeline, action) = pipeline.preview_file(described);
    assert_eq!(
        action,
        Action::Present { route: route_of("C:\\Notes\\draft.md", "draft.md"), size: some_size() }
    );
    assert_eq!(pipeline.stage(), &Stage::Idle);
    assert_eq!(pipeline.ticket(), 1);
    assert_eq!(pipeline.state().input_path(), "C:\\Notes\\draft.md");
}

#[test]
fn an_edit_in_progress_never_reaches_a_resolver() {
    let mut pipeline = PreviewFile::new();
    let mut dispatched = 0;
    for round in 1..=5u64 {
        let (next, action) = pipeline.preview_file(Event::Trigger(FwWindowType::Dialog));
        assert_eq!(action, Action::ProbeInput { ticket: round, window: FwWindowType::Dialog });
        let (next, action) = next.preview_file(editing(round));
        if matches!(action, Action::Dispatch { .. }) {
            dispatched += 1;
        }
        assert_eq!(action, Action::Nothing);
        assert_eq!(next.stage(), &Stage::Idle);
        let (next, action) =
            next.preview_file(Event::Resolved { ticket: round, result: Ok("C:\\a.md".to_string()) });
        assert_eq!(action, Action::Nothing);
        pipeline = next;
    }
    assert_eq!(dispatched, 0);
    assert_eq!(pipeline.state().input_path(), "");
}

#[test]
fn an_input_state_or_the_overlay_ends_the_trigger() {
    let flagged = Event::Input { ticket: 1, flags: 4, caret: 0, windows: Vec::new() };
    let (pipeline, _) = PreviewFile::new().preview_file(Event::Trigger(FwWindowType::Desktop));
    let (pipeline, action) = pipeline.preview_file(flagged);
    assert_eq!(action, Action::Nothing);
    assert_eq!(pipeline.stage(), &Stage::Idle);

    let overlay = Event::Input {
        ticket: 1,
        flags: 0,
        caret: 0,
        windows: vec![TopWindow { class_name: "Listary_WidgetWin_1".to_string(), visible: true }],
    };
    let (pipeline, _) = PreviewFile::new().preview_file(Event::Trigger(FwWindowType::Desktop));
    let (pipeline, action) = pipeline.preview_file(overlay);
    assert_eq!(action, Action::Nothing);
    assert_eq!(pipeline.stage(), &Stage::Idle);
}

#[test]
fn a_failed_resolution_shows_nothing() {
    let (pipeline, _) = PreviewFile::new().preview_file(Event::Trigger(FwWindowType::Dialog));
    let (pipeline, _) = pipeline.preview_file(quiet(1));
    let failed = Event::Resolved { ticket: 1, result: Err(ResolutionError::NoSelection) };
    let (pipeline, action) = pipeline.preview_file(failed);
    assert_eq!(action, Action::Nothing);
    assert_eq!(pipeline.stage(), &Stage::Idle);
    assert_eq!(pipeline.state().input_path(), "");
    let late =
        Event::Described { ticket: 1, is_file: true, size: 5, last_modified: 6, monitor: display() };
    let (pipeline, action) = pipeline.preview_file(late);
    assert_eq!(action, Action::Nothing);
    assert_eq!(pipeline.stage(), &Stage::Idle);
}

#[test]
fn a_path_that_cannot_be_described_shows_nothing() {
    let (pipeline, _) = PreviewFile::new().preview_file(Event::Trigger(FwWindowType::Explorer));
    let (pipeline, _) = pipeline.preview_file(quiet(1));
    let (pipeline, _) = pipeline
        .preview_file(Event::Resolved { ticket: 1, result: Ok("C:\\gone.md".to_string()) });
    let gone =
        Event::Described { ticket: 1, is_file: false, size: 0, last_modified: 0, monitor: display() };
    let (pipeline, action) = pipeline.preview_file(gone);
    assert_eq!(action, Action::Nothing);
    assert_eq!(pipeline.stage(), &Stage::Idle);

    let (pipeline, _) = pipeline.preview_file(Event::Trigger(FwWindowType::Explorer));
    let (pipeline, _) = pipeline.preview_file(quiet(2));
    let (pipeline, _) = pipeline
        .preview_file(Event::Resolved { ticket: 2, result: Ok("C:\\setup.exe".to_string()) });
    let unsupported =
        Event::Described { ticket: 2, is_file: true, size: 1, last_modified: 1, monitor: display() };
    let (pipeline, action) = pipeline.preview_file(unsupported);
    assert_eq!(action, Action::Nothing);
    assert_eq!(pipeline.state().input_path(), "C:\\setup.exe");
}

#[test]
fn a_new_trigger_replaces_the_one_in_flight() {
    let (pipeline, _) = PreviewFile::new().preview_file(Event::Trigger(FwWindowType::Explorer));
    let (pipeline, _) = pipeline.preview_file(quiet(1));
    let (pipeline, action) = pipeline.preview_file(Event::Trigger(FwWindowType::Desktop));
    assert_eq!(action, Action::ProbeInput { ticket: 2, window: FwWindowType::Desktop });
    let stale = Event::Resolved { ticket: 1, result: Ok("C:\\old.md".to_string()) };
    let (pipeline, action) = pipeline.preview_file(stale);
    assert_eq!(action, Action::Nothing);
    assert_eq!(pipeline.stage(), &Stage::Guarding(FwWindowType::Desktop));
    let (pipeline, action) = pipeline.preview_file(quiet(1));
    assert_eq!(action, Action::Nothing);
    assert_eq!(pipeline.stage(), &Stage::Guarding(FwWindowType::Desktop));
    let (pipeline, action) = pipeline.preview_file(quiet(2));
    assert_eq!(action, Action::Dispatch { ticket: 2, window: FwWindowType::Desktop });
    let other = Event::Resolved { ticket: 3, result: Ok("C:\\old.md".to_string()) };
    let (pipeline, action) = pipeline.preview_file(other);
    assert_eq!(action, Action::Nothing);
    assert_eq!(pipeline.stage(), &Stage::Resolving(FwWindowType::Desktop));
}

#[test]
fn answers_out_of_turn_change_nothing() {
    let (pipeline, action) = PreviewFile::new().preview_file(quiet(0));
    assert_eq!(action, Action::Nothing);
    assert_eq!(pipeline.stage(), &Stage::Idle);
    let (pipeline, action) =
        pipeline.preview_file(Event::Resolved { ticket: 0, result: Ok("C:\\a.md".to_string()) });
    assert_eq!(action, Action::Nothing);
    assert_eq!(pipeline.stage(), &Stage::Idle);
    assert_eq!(pipeline.state(), &PreviewStateInner::default());
}

#[test]
fn the_size_of_the_request_follows_the_kind_and_the_display() {
    let (pipeline, _) = PreviewFile::new().preview_file(Event::Trigger(FwWindowType::Explorer));
    let (pipeline, _) = pipeline.preview_file(quiet(1));
    let (pipeline, _) = pipeline
        .preview_file(Event::Resolved { ticket: 1, result: Ok("C:\\Music\\song.mp3".to_string()) });
    let described = Event::Described {
        ticket: 1,
        is_file: true,
        size: 5,
        last_modified: 6,
        monitor: MonitorInfo { width: 2560, height: 1440, dpi: 120 },
    };
    let (_, action) = pipeline.preview_file(described);
    match action {
        Action::Present { route, size } => {
            assert_eq!(route.path(), "/preview/audio");
            assert_eq!(size.width, Length { numerator: 560 * 96, denominator: 120 });
            assert_eq!(size.height, Length { numerator: 200 * 96, denominator: 120 });
        },
        other => panic!("expected a request to show the file, got {:?}", other),
    }
}

#[test]
fn the_first_trigger_creates_the_window_and_navigates_once_when_ready() {
    let route = route_of("C:\\Notes\\draft.md", "draft.md");
    let url = route.to_url();
    let mut created = 0;
    let mut navigated = 0;
    let state = WindowState::new();
    assert_eq!(state, WindowState::NoWindow);

    let (state, action) = state.step(WindowEvent::Trigger { route: route.clone(), size: some_size() });
    match &action {
        WindowAction::Create { .. } => created += 1,
        WindowAction::Navigate { .. } => navigated += 1,
        WindowAction::Nothing => {},
    }
    assert_eq!(action, WindowAction::Create { size: some_size() });
    assert_eq!(state, WindowState::WindowOpen { pending: Some(route) });
    assert_eq!(navigated, 0);

    let (state, action) = state.step(WindowEvent::ContentReady);
    match &action {
        WindowAction::Create { .. } => created += 1,
        WindowAction::Navigate { .. } => navigated += 1,
        WindowAction::Nothing => {},
    }
    assert_eq!(action, WindowAction::Navigate { url });
    assert_eq!(state, WindowState::WindowOpen { pending: None });

    let mut state = state;
    for _ in 0..3 {
        let (next, action) = state.step(WindowEvent::ContentReady);
        match &action {
            WindowAction::Create { .. } => created += 1,
            WindowAction::Navigate { .. } => navigated += 1,
            WindowAction::Nothing => {},
        }
        assert_eq!(action, WindowAction::Nothing);
        state = next;
    }
    assert_eq!(created, 1);
    assert_eq!(navigated, 1);
}

#[test]
fn an_open_window_is_reused_and_navigates_at_once() {
    let first = route_of("C:\\a.md", "a.md");
    let second = route_of("C:\\b.md", "b.md");
    let (state, _) = WindowState::new().step(WindowEvent::Trigger { route: first, size: some_size() });
    let (state, _) = state.step(WindowEvent::ContentReady);
    let (state, action) =
        state.step(WindowEvent::Trigger { route: second.clone(), size: some_size() });
    assert_eq!(action, WindowAction::Navigate { url: second.to_url() });
    assert_eq!(state, WindowState::WindowOpen { pending: None });
}

#[test]
fn a_trigger_while_the_window_loads_replaces_the_route_that_waits() {
    let first = route_of("C:\\a.md", "a.md");
    let second = route_of("C:\\b.md", "b.md");
    let (state, _) = WindowState::new().step(WindowEvent::Trigger { route: first, size: some_size() });
    let (state, action) =
        state.step(WindowEvent::Trigger { route: second.clone(), size: some_size() });
    assert_eq!(action, WindowAction::Navigate { url: second.to_url() });
    assert_eq!(state, WindowState::WindowOpen { pending: Some(second.clone()) });
    let (state, action) = state.step(WindowEvent::ContentReady);
    assert_eq!(action, WindowAction::Navigate { url: second.to_url() });
    assert_eq!(state, WindowState::WindowOpen { pending: None });
}

#[test]
fn a_closed_window_is_created_anew() {
    let route = route_of("C:\\a.md", "a.md");
    let (state, _) =
        WindowState::new().step(WindowEvent::Trigger { route: route.clone(), size: some_size() });
    let (state, action) = state.step(WindowEvent::Closed);
    assert_eq!(action, WindowAction::Nothing);
    assert_eq!(state, WindowState::NoWindow);
    let (state, action) = state.step(WindowEvent::ContentReady);
    assert_eq!(action, WindowAction::Nothing);
    assert_eq!(state, WindowState::NoWindow);
    let (state, action) = state.step(WindowEvent::Trigger { route, size: some_size() });
    assert_eq!(action, WindowAction::Create { size: some_size() });
    assert!(matches!(state, WindowState::WindowOpen { pending: Some(_) }));
    let (_, action) = WindowState::NoWindow.step(WindowEvent::Closed);
    assert_eq!(action, WindowAction::Nothing);
}
