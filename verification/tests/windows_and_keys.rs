use quicklook::guard::{is_cursor_activated, is_listary_toolbar_visible, is_rename_mode, TopWindow};
use quicklook::hotkey::{handle_key_down, keyboard_proc, VK_SPACE, WM_KEYDOWN, WM_SYSKEYDOWN};
use quicklook::selection::Selected;
use quicklook::size::{calc_window_size, get_scaled_size, Length, MonitorInfo, WindowSize};
use quicklook::window::{classify_window, FwWindowType};

fn window(class_name: &str, visible: bool) -> TopWindow {
    TopWindow { class_name: class_name.to_string(), visible }
}

#[test]
fn file_manager_window_is_recognized() {
    assert_eq!(Selected::get_focused_type("CabinetWClass", false), Some(FwWindowType::Explorer));
    assert_eq!(Selected::get_focused_type("CabinetWClass", true), Some(FwWindowType::Explorer));
}

#[test]
fn desktop_needs_its_shell_view() {
    assert_eq!(Selected::get_focused_type("Progman", true), Some(FwWindowType::Desktop));
    assert_eq!(Selected::get_focused_type("WorkerW", true), Some(FwWindowType::Desktop));
    assert_eq!(Selected::get_focused_type("Progman", false), None);
    assert_eq!(Selected::get_focused_type("WorkerW", false), None);
}

#[test]
fn dialog_is_recognized() {
    assert_eq!(Selected::get_focused_type("#32770", false), Some(FwWindowType::Dialog));
    assert_eq!(classify_window("#32770", true), Some(FwWindowType::Dialog));
}

#[test]
fn other_windows_are_not_recognized() {
    assert_eq!(Selected::get_focused_type("Chrome_WidgetWin_1", true), None);
    assert_eq!(Selected::get_focused_type("", true), None);
    assert_eq!(Selected::get_focused_type("Cabinet", true), None);
}

#[test]
fn the_first_rule_that_matches_decides() {
    assert_eq!(
        Selected::get_focused_type("#32770 CabinetWClass", false),
        Some(FwWindowType::Explorer)
    );
    assert_eq!(Selected::get_focused_type("Progman #32770", false), None);
}

#[test]
fn only_the_space_bar_going_down_triggers() {
    assert!(keyboard_proc(0, WM_KEYDOWN, VK_SPACE));
    assert!(keyboard_proc(3, WM_SYSKEYDOWN, VK_SPACE));
    assert!(!keyboard_proc(-1, WM_KEYDOWN, VK_SPACE));
    assert!(!keyboard_proc(0, 0x0101, VK_SPACE));
    assert!(!keyboard_proc(0, WM_KEYDOWN, 0x0d));
    assert!(handle_key_down(0x20));
    assert!(!handle_key_down(0x21));
    assert_eq!(WM_KEYDOWN, 256);
    assert_eq!(WM_SYSKEYDOWN, 260);
}

#[test]
fn a_caret_or_an_input_state_holds_the_trigger_back() {
    let none: Vec<TopWindow> = Vec::new();
    assert!(!is_cursor_activated(0, 0, &none));
    assert!(is_cursor_activated(1, 0, &none));
    assert!(is_cursor_activated(0, 0x5050, &none));
}

#[test]
fn a_visible_overlay_holds_the_trigger_back() {
    let shown = vec![window("Shell_TrayWnd", true), window("Listary_WidgetWin_0", true)];
    let hidden = vec![window("Listary_WidgetWin_0", false), window("xListary_WidgetWin_0", true)];
    assert!(is_listary_toolbar_visible(&shown));
    assert!(!is_listary_toolbar_visible(&hidden));
    assert!(!is_listary_toolbar_visible(&Vec::new()));
    assert!(is_cursor_activated(0, 0, &shown));
    assert!(!is_cursor_activated(0, 0, &hidden));
}

#[test]
fn rename_mode_is_an_edit_field_in_front() {
    assert!(is_rename_mode(7, "Edit"));
    assert!(is_rename_mode(7, "RichEdit20W"));
    assert!(!is_rename_mode(0, "Edit"));
    assert!(!is_rename_mode(7, "CabinetWClass"));
}

fn px(n: i64) -> Length {
    Length { numerator: n, denominator: 1 }
}

#[test]
fn window_size_without_a_display_is_the_default() {
    let size = calc_window_size("Image", &MonitorInfo::default());
    assert_eq!(size, WindowSize { width: px(1000), height: px(600) });
    let size = calc_window_size("Audio", &MonitorInfo { width: 0, height: 1080, dpi: 96 });
    assert_eq!(size, WindowSize { width: px(1000), height: px(600) });
}

#[test]
fn window_size_is_four_fifths_of_the_display() {
    let size = calc_window_size("Image", &MonitorInfo { width: 1920, height: 1080, dpi: 96 });
    assert_eq!(
        size,
        WindowSize {
            width: Length { numerator: 7680, denominator: 5 },
            height: Length { numerator: 4320, denominator: 5 },
        }
    );
}

#[test]
fn audio_gets_a_small_window_whatever_the_display() {
    let small = calc_window_size("Audio", &MonitorInfo { width: 800, height: 600, dpi: 96 });
    let large = calc_window_size("Audio", &MonitorInfo { width: 3840, height: 2160, dpi: 96 });
    assert_eq!(small, WindowSize { width: px(560), height: px(200) });
    assert_eq!(large, small);
}

#[test]
fn window_size_is_divided_by_a_scale_above_one() {
    let size = calc_window_size("Code", &MonitorInfo { width: 1920, height: 1080, dpi: 144 });
    assert_eq!(
        size,
        WindowSize {
            width: Length { numerator: 7680 * 96, denominator: 5 * 144 },
            height: Length { numerator: 4320 * 96, denominator: 5 * 144 },
        }
    );
    assert_eq!(size.width.numerator / size.width.denominator, 1024);
    let audio = calc_window_size("Audio", &MonitorInfo { width: 1920, height: 1080, dpi: 192 });
    assert_eq!(audio.width, Length { numerator: 560 * 96, denominator: 192 });
    assert_eq!(audio.height, Length { numerator: 200 * 96, denominator: 192 });
    let low = calc_window_size("Code", &MonitorInfo { width: 1000, height: 500, dpi: 72 });
    assert_eq!(low.width, Length { numerator: 4000, denominator: 5 });
}

#[test]
fn scaled_size_keeps_the_fraction_exact() {
    assert_eq!(get_scaled_size(px(560), 120), Length { numerator: 53760, denominator: 120 });
    assert_eq!(
        get_scaled_size(Length { numerator: -8, denominator: 5 }, 96),
        Length { numerator: -768, denominator: 480 }
    );
}
