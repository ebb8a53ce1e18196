use window_capture::text::{text_from_buffer, trim_null_chars, truncate_to_first_null_char};
use window_capture::window::{DisplayInfo, MonitorHandle, WindowHandle, WindowInfo};

fn units(s: &str) -> Vec<u16> {
    s.encode_utf16().collect()
}

fn buffer(s: &str, capacity: usize) -> Vec<u16> {
    let mut b = units(s);
    b.resize(capacity, 0);
    b
}

#[test]
fn truncate_cuts_at_first_nul() {
    let mut s = String::from("abc\0def\0");
    truncate_to_first_null_char(&mut s);
    assert_eq!(s, "abc");
}

#[test]
fn truncate_keeps_text_without_nul() {
    let mut s = String::from("Notepad");
    truncate_to_first_null_char(&mut s);
    assert_eq!(s, "Notepad");
}

#[test]
fn truncate_leading_nul_gives_empty() {
    let mut s = String::from("\0abc");
    truncate_to_first_null_char(&mut s);
    assert_eq!(s, "");
}

#[test]
fn truncate_empty_stays_empty() {
    let mut s = String::new();
    truncate_to_first_null_char(&mut s);
    assert_eq!(s, "");
}

#[test]
fn buffer_with_embedded_terminator_has_length_of_terminator_index() {
    let mut b = units("Calculator");
    b.push(0);
    b.extend(units("garbage"));
    b.resize(512, 0);
    let t = text_from_buffer(&b);
    assert_eq!(t, "Calculator");
    assert_eq!(t.chars().count(), 10);
}

#[test]
fn buffer_decodes_non_ascii_text() {
    let b = buffer("Fenêtre – ☃", 32);
    assert_eq!(text_from_buffer(&b), "Fenêtre – ☃");
}

#[test]
fn buffer_decodes_surrogate_pair() {
    let b = buffer("a😀b", 16);
    assert_eq!(text_from_buffer(&b), "a😀b");
}

#[test]
fn buffer_with_unpaired_surrogate_gets_replacement() {
    let b = vec![0x61u16, 0xD800, 0x62, 0, 0x63];
    assert_eq!(text_from_buffer(&b), "a\u{FFFD}b");
}

#[test]
fn all_zero_buffer_gives_empty_text() {
    assert_eq!(text_from_buffer(&vec![0u16; 512]), "");
}

#[test]
fn trim_drops_nul_padding_on_both_sides() {
    assert_eq!(trim_null_chars("\0\0\\\\.\\DISPLAY1\0\0\0"), "\\\\.\\DISPLAY1");
    assert_eq!(trim_null_chars("\0\0"), "");
    assert_eq!(trim_null_chars("a\0b"), "a\0b");
}

#[test]
fn window_info_reads_title_and_class() {
    let title = buffer("Untitled - Notepad", 512);
    let class = buffer("Notepad", 512);
    let w = WindowInfo::new(WindowHandle(0x1234), &title, &class);
    assert_eq!(w.handle, WindowHandle(0x1234));
    assert_eq!(w.title_str, "Untitled - Notepad");
    assert_eq!(w.class_name, "Notepad");
    assert_eq!(w.title_raw, title);
}

#[test]
fn window_info_title_and_class_cut_independently() {
    let mut title = units("Task View");
    title.push(0);
    title.extend(units("junk"));
    let class = buffer("Windows.UI.Core.CoreWindow", 40);
    let w = WindowInfo::new(WindowHandle(7), &title, &class);
    assert_eq!(w.title_str, "Task View");
    assert_eq!(w.class_name, "Windows.UI.Core.CoreWindow");
}

#[test]
fn window_info_matches_exact_pair_only() {
    let w = WindowInfo::new(WindowHandle(1), &buffer("PopupHost", 64), &buffer("Xaml_WindowedPopupClass", 64));
    assert!(w.matches("PopupHost", "Xaml_WindowedPopupClass"));
    assert!(!w.matches("PopupHost", "Xaml_WindowedPopup"));
    assert!(!w.matches("Popup", "Xaml_WindowedPopupClass"));
}

#[test]
fn display_info_trims_device_name() {
    let name = buffer("\\\\.\\DISPLAY2", 32);
    let d = DisplayInfo::new(MonitorHandle(99), &name);
    assert_eq!(d.handle, MonitorHandle(99));
    assert_eq!(d.display_name, "\\\\.\\DISPLAY2");
}
