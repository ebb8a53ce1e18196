use window_capture::filter::{
    capturable_indices, is_capturable_with, is_known_blocked_window, needs_cloak_check,
    CaptureWindowCandidate, FlagTest, WindowState, CLOAKED_BY_SHELL, WINDOW_EX_STYLE_TOOLWINDOW,
    WINDOW_STYLE_DISABLED,
};
use window_capture::window::{WindowHandle, WindowInfo};

const SHELL: WindowHandle = WindowHandle(1);

fn window(handle: isize, title: &str, class: &str) -> WindowInfo {
    let mut t: Vec<u16> = title.encode_utf16().collect();
    t.resize(512, 0);
    let mut c: Vec<u16> = class.encode_utf16().collect();
    c.resize(512, 0);
    WindowInfo::new(WindowHandle(handle), &t, &c)
}

fn live(handle: isize) -> WindowState {
    WindowState {
        shell_window: SHELL,
        visible: true,
        root_ancestor: WindowHandle(handle),
        style: 0,
        ex_style: 0,
        cloak_reason: None,
    }
}

#[test]
fn minimal_window_is_capturable() {
    let w = window(42, "Untitled - Notepad", "Notepad");
    assert!(w.is_capturable_window(&live(42)));
}

#[test]
fn empty_title_is_rejected_whatever_else() {
    let w = window(42, "", "Notepad");
    assert!(!w.is_capturable_window(&live(42)));
    assert!(!is_capturable_with(&w, &live(42), FlagTest::EqualsOne));
}

#[test]
fn shell_window_is_rejected() {
    let w = window(1, "Program Manager", "Progman");
    assert!(!w.is_capturable_window(&live(1)));
}

#[test]
fn invisible_window_is_rejected() {
    let w = window(42, "Hidden", "Notepad");
    let s = WindowState { visible: false, ..live(42) };
    assert!(!w.is_capturable_window(&s));
}

#[test]
fn child_window_is_rejected() {
    let w = window(42, "Child", "Button");
    let s = WindowState { root_ancestor: WindowHandle(40), ..live(42) };
    assert!(!w.is_capturable_window(&s));
}

#[test]
fn disabled_window_is_rejected() {
    let w = window(42, "Busy", "Notepad");
    let s = WindowState { style: WINDOW_STYLE_DISABLED, ..live(42) };
    assert!(!w.is_capturable_window(&s));
    assert!(!is_capturable_with(&w, &s, FlagTest::AnyBitSet));
}

#[test]
fn disabled_bit_is_missed_by_equals_one_test() {
    // Testing `style & bit == 1` never sees a flag above bit 0: the disabled
    // window passes under that test.
    let w = window(42, "Busy", "Notepad");
    let s = WindowState { style: WINDOW_STYLE_DISABLED, ..live(42) };
    assert!(is_capturable_with(&w, &s, FlagTest::EqualsOne));
}

#[test]
fn tool_window_is_rejected() {
    let w = window(42, "Palette", "ToolPalette");
    let s = WindowState { ex_style: WINDOW_EX_STYLE_TOOLWINDOW, ..live(42) };
    assert!(!w.is_capturable_window(&s));
    assert!(is_capturable_with(&w, &s, FlagTest::EqualsOne));
}

#[test]
fn shell_cloaked_uwp_window_is_rejected() {
    let w = window(42, "Settings", "ApplicationFrameWindow");
    assert!(needs_cloak_check(&w));
    let s = WindowState { cloak_reason: Some(CLOAKED_BY_SHELL), ..live(42) };
    assert!(!w.is_capturable_window(&s));
}

#[test]
fn other_cloak_reasons_do_not_reject() {
    let w = window(42, "Settings", "Windows.UI.Core.CoreWindow");
    let app_cloaked = WindowState { cloak_reason: Some(1), ..live(42) };
    assert!(w.is_capturable_window(&app_cloaked));
    let inherited = WindowState { cloak_reason: Some(4), ..live(42) };
    assert!(w.is_capturable_window(&inherited));
    let not_cloaked = WindowState { cloak_reason: Some(0), ..live(42) };
    assert!(w.is_capturable_window(&not_cloaked));
}

#[test]
fn shell_cloak_ignored_for_ordinary_class() {
    let w = window(42, "Editor", "Notepad");
    assert!(!needs_cloak_check(&w));
    let s = WindowState { cloak_reason: Some(CLOAKED_BY_SHELL), ..live(42) };
    assert!(w.is_capturable_window(&s));
}

#[test]
fn deny_listed_windows_are_rejected() {
    let pairs = [
        ("Task View", "Windows.UI.Core.CoreWindow"),
        ("DesktopWindowXamlSource", "Windows.UI.Core.CoreWindow"),
        ("PopupHost", "Xaml_WindowedPopupClass"),
    ];
    for (title, class) in pairs {
        let w = window(42, title, class);
        assert!(is_known_blocked_window(&w));
        assert!(!w.is_capturable_window(&live(42)));
    }
}

#[test]
fn near_miss_of_deny_list_is_capturable() {
    let w = window(42, "Task View", "Notepad");
    assert!(!is_known_blocked_window(&w));
    assert!(w.is_capturable_window(&live(42)));
    let w = window(42, "PopupHost", "Windows.UI.Core.CoreWindow");
    assert!(!is_known_blocked_window(&w));
    assert!(w.is_capturable_window(&live(42)));
}

#[test]
fn capturable_indices_keeps_eligible_in_order() {
    let windows = vec![
        window(10, "Editor", "Notepad"),
        window(11, "", "Notepad"),
        window(12, "Task View", "Windows.UI.Core.CoreWindow"),
        window(13, "Browser", "Chrome_WidgetWin_1"),
        window(14, "Busy", "Notepad"),
    ];
    let mut states = vec![live(10), live(11), live(12), live(13), live(14)];
    states[4].style = WINDOW_STYLE_DISABLED;
    assert_eq!(capturable_indices(&windows, &states), vec![0, 3]);
    assert_eq!(capturable_indices(&Vec::new(), &Vec::new()), Vec::<usize>::new());
}
