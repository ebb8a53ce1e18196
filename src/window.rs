//! Descriptors of windows and displays, built from the text buffers that the
//! operating system fills in.
use vstd::prelude::*;

use crate::text::{before_first_null, text_from_buffer, trim_null_chars, trim_nulls, utf16_lossy};

verus! {

/// An opaque identifier of a top-level window, as the operating system gives it.
#[derive(Clone, Copy, Debug, PartialEq, Eq, Structural)]
pub struct WindowHandle(pub isize);

/// An opaque identifier of a monitor.
#[derive(Clone, Copy, Debug, PartialEq, Eq, Structural)]
pub struct MonitorHandle(pub isize);

/// Whether two texts hold the same characters.
pub fn same_text(a: &String, b: &str) -> (r: bool)
    ensures
        r == (a@ == b@),
{
    *a == b.to_owned()
}

/// What is known of one window: its handle, its title and class name (each
/// cut at the first NUL of the buffer it was read into), and the raw title
/// buffer as it was read.
#[derive(Clone)]
pub struct WindowInfo {
    pub handle: WindowHandle,
    pub title_str: String,
    pub class_name: String,
    pub title_raw: Vec<u16>,
}

impl WindowInfo {
    /// Builds the descriptor of `window_handle` from the buffers that its title
    /// and class name were read into. A title that could not be read is an
    /// all-zero (or empty) buffer and gives an empty title.
    pub fn new(window_handle: WindowHandle, title: &Vec<u16>, class_name: &Vec<u16>) -> (r: Self)
        ensures
            r.handle == window_handle,
            r.title_str@ == before_first_null(utf16_lossy(title@)),
            r.class_name@ == before_first_null(utf16_lossy(class_name@)),
            r.title_raw@ == title@,
            forall|k: int|
                0 <= k < title@.len() && #[trigger] title@[k] == 0u16
                    && crate::text::no_surrogate_through(title@, k) && (forall|j: int|
                    0 <= j < k ==> title@[j] != 0u16) ==> r.title_str@.len() == k,
    {
        let title_str = text_from_buffer(title);
        let class_str = text_from_buffer(class_name);
        WindowInfo {
            handle: window_handle,
            title_str,
            class_name: class_str,
            title_raw: title.clone(),
        }
    }

    /// Whether this window has exactly the given title and class name.
    pub fn matches(&self, title: &str, class_name: &str) -> (r: bool)
        ensures
            r == (self.title_str@ == title@ && self.class_name@ == class_name@),
    {
        same_text(&self.title_str, title) && same_text(&self.class_name, class_name)
    }
}

/// What is known of one monitor: its handle and its device name.
#[derive(Clone)]
pub struct DisplayInfo {
    pub handle: MonitorHandle,
    pub display_name: String,
}

impl DisplayInfo {
    /// Builds the descriptor of `monitor_handle` from the buffer that its
    /// device name was read into; the NUL padding on both sides is dropped.
    pub fn new(monitor_handle: MonitorHandle, device_name: &Vec<u16>) -> (r: Self)
        ensures
            r.handle == monitor_handle,
            r.display_name@ == trim_nulls(utf16_lossy(device_name@)),
    {
        let decoded = crate::text::decode_utf16_lossy(device_name);
        let display_name = trim_null_chars(decoded.as_str());
        DisplayInfo { handle: monitor_handle, display_name }
    }
}

} // verus!
