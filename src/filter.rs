//! The decision whether a window is a meaningful capture target.
//!
//! The decision reads the window's descriptor and a snapshot of its live
//! state (visibility, root ancestor, style bits, cloak reason), which the
//! caller queries at decision time.
use vstd::prelude::*;

use crate::window::{same_text, WindowHandle, WindowInfo};

verus! {

/// The style bit of a window that does not take input.
pub const WINDOW_STYLE_DISABLED: u32 = 0x0800_0000;

/// The extended style bit of a tool window (tooltips, floating palettes).
pub const WINDOW_EX_STYLE_TOOLWINDOW: u32 = 0x0000_0080;

/// The cloak reason reported for a window that the shell has hidden.
pub const CLOAKED_BY_SHELL: u32 = 0x0000_0002;

/// The class of core UWP windows, which the shell may cloak.
pub const CORE_WINDOW_CLASS: &'static str = "Windows.UI.Core.CoreWindow";

/// The class of UWP application frames, which the shell may cloak.
pub const APPLICATION_FRAME_CLASS: &'static str = "ApplicationFrameWindow";

/// The live state of a window, queried when the decision is made.
#[derive(Clone, Copy, Debug, PartialEq, Eq, Structural)]
pub struct WindowState {
    /// The handle of the shell's desktop window.
    pub shell_window: WindowHandle,
    pub visible: bool,
    /// The window's ancestor at the root of its window tree.
    pub root_ancestor: WindowHandle,
    pub style: u32,
    pub ex_style: u32,
    /// The cloak reason, where it was queried and the query succeeded.
    pub cloak_reason: Option<u32>,
}

/// How a style bit is tested.
#[derive(Clone, Copy, Debug, PartialEq, Eq, Structural)]
pub enum FlagTest {
    /// The bit counts as set when the masked value is not zero.
    AnyBitSet,
    /// The bit counts as set only when the masked value equals one; this never
    /// holds for a flag other than bit 0, so such a flag never rejects.
    EqualsOne,
}

pub open spec fn flag_set(mask: u32, flag: u32, test: FlagTest) -> bool {
    match test {
        FlagTest::AnyBitSet => mask & flag != 0,
        FlagTest::EqualsOne => mask & flag == 1,
    }
}

/// Whether windows of this class are hidden by shell cloaking.
pub open spec fn is_cloakable_class(class_name: Seq<char>) -> bool {
    class_name == CORE_WINDOW_CLASS@ || class_name == APPLICATION_FRAME_CLASS@
}

/// The known false positives: windows that pass every other check but are
/// not application windows.
pub open spec fn is_known_blocked(title: Seq<char>, class_name: Seq<char>) -> bool {
    (title == "Task View"@ && class_name == CORE_WINDOW_CLASS@) || (title
        == "DesktopWindowXamlSource"@ && class_name == CORE_WINDOW_CLASS@) || (title
        == "PopupHost"@ && class_name == "Xaml_WindowedPopupClass"@)
}

/// Whether a window is a capture target, with style bits tested as `test` says.
pub open spec fn capturable(info: WindowInfo, state: WindowState, test: FlagTest) -> bool {
    &&& info.title_str@.len() > 0
    &&& info.handle != state.shell_window
    &&& state.visible
    &&& state.root_ancestor == info.handle
    &&& !flag_set(state.style, WINDOW_STYLE_DISABLED, test)
    &&& !flag_set(state.ex_style, WINDOW_EX_STYLE_TOOLWINDOW, test)
    &&& !(is_cloakable_class(info.class_name@) && state.cloak_reason == Some(CLOAKED_BY_SHELL))
    &&& !is_known_blocked(info.title_str@, info.class_name@)
}

/// Whether the window's class is one whose cloak reason must be queried.
pub fn needs_cloak_check(info: &WindowInfo) -> (r: bool)
    ensures
        r == is_cloakable_class(info.class_name@),
{
    same_text(&info.class_name, CORE_WINDOW_CLASS) || same_text(
        &info.class_name,
        APPLICATION_FRAME_CLASS,
    )
}

/// Whether the window is one of the known false positives.
pub fn is_known_blocked_window(window_info: &WindowInfo) -> (r: bool)
    ensures
        r == is_known_blocked(window_info.title_str@, window_info.class_name@),
{
    // Task View
    window_info.matches("Task View", CORE_WINDOW_CLASS)
    // XAML Islands
     || window_info.matches("DesktopWindowXamlSource", CORE_WINDOW_CLASS)
    // XAML popups
     || window_info.matches("PopupHost", "Xaml_WindowedPopupClass")
}

fn flag_is_set(mask: u32, flag: u32, test: FlagTest) -> (r: bool)
    ensures
        r == flag_set(mask, flag, test),
{
    match test {
        FlagTest::AnyBitSet => mask & flag != 0,
        FlagTest::EqualsOne => mask & flag == 1,
    }
}

/// Decides whether the window is a capture target, testing style bits as
/// `test` says. The checks run in order and stop at the first that fails.
pub fn is_capturable_with(info: &WindowInfo, state: &WindowState, test: FlagTest) -> (r: bool)
    ensures
        r == capturable(*info, *state, test),
{
    if info.title_str.as_str().is_empty() || info.handle == state.shell_window || !state.visible
        || state.root_ancestor != info.handle {
        return false;
    }
    if flag_is_set(state.style, WINDOW_STYLE_DISABLED, test) {
        return false;
    }
    // No tooltips
    if flag_is_set(state.ex_style, WINDOW_EX_STYLE_TOOLWINDOW, test) {
        return false;
    }
    if needs_cloak_check(info) {
        match state.cloak_reason {
            Some(reason) => {
                if reason == CLOAKED_BY_SHELL {
                    return false;
                }
            },
            None => {},
        }
    }
    !is_known_blocked_window(info)
}

/// A window with an empty title is never a capture target, whatever its
/// other fields and state.
pub proof fn lemma_empty_title_not_capturable(
    info: WindowInfo,
    state: WindowState,
    test: FlagTest,
)
    requires
        info.title_str@.len() == 0,
    ensures
        !capturable(info, state, test),
{
}

/// A window whose title and class name form one of the known false
/// positives is never a capture target.
pub proof fn lemma_known_blocked_not_capturable(
    info: WindowInfo,
    state: WindowState,
    test: FlagTest,
)
    requires
        is_known_blocked(info.title_str@, info.class_name@),
    ensures
        !capturable(info, state, test),
{
}

/// With the disabled bit tested as "masked value not zero", a window whose
/// style holds that bit alone is never a capture target.
pub proof fn lemma_disabled_not_capturable(info: WindowInfo, state: WindowState)
    requires
        state.style == WINDOW_STYLE_DISABLED,
    ensures
        !capturable(info, state, FlagTest::AnyBitSet),
{
    assert(0x0800_0000u32 & 0x0800_0000u32 != 0) by (bit_vector);
}

/// With style bits tested as "masked value equals one", neither the disabled
/// bit nor the tool-window bit ever rejects a window: the decision is the one
/// made for the same window with both style words cleared.
pub proof fn lemma_equals_one_ignores_style_bits(info: WindowInfo, state: WindowState)
    ensures
        capturable(info, state, FlagTest::EqualsOne) == capturable(
            info,
            WindowState { style: 0, ex_style: 0, ..state },
            FlagTest::AnyBitSet,
        ),
{
    let style = state.style;
    let ex_style = state.ex_style;
    assert(style & 0x0800_0000u32 != 1) by (bit_vector);
    assert(ex_style & 0x0000_0080u32 != 1) by (bit_vector);
    assert(0u32 & 0x0800_0000u32 == 0) by (bit_vector);
    assert(0u32 & 0x0000_0080u32 == 0) by (bit_vector);
}

/// The indices, in increasing order, of the windows that are capture
/// targets in the live state given beside each: every such index once, and
/// no other.
pub fn capturable_indices(windows: &Vec<WindowInfo>, states: &Vec<WindowState>) -> (r: Vec<usize>)
    requires
        windows@.len() == states@.len(),
    ensures
        forall|a: int, b: int| 0 <= a < b < r@.len() ==> r@[a] < r@[b],
        forall|k: int|
            0 <= k < r@.len() ==> r@[k] < windows@.len() && capturable(
                windows@[r@[k] as int],
                states@[r@[k] as int],
                FlagTest::AnyBitSet,
            ),
        forall|i: int|
            0 <= i < windows@.len() && capturable(windows@[i], states@[i], FlagTest::AnyBitSet)
                ==> r@.contains(i as usize),
{
    let mut out: Vec<usize> = Vec::new();
    let mut i: usize = 0;
    while i < windows.len()
        invariant
            windows@.len() == states@.len(),
            i <= windows@.len(),
            forall|a: int, b: int| 0 <= a < b < out@.len() ==> out@[a] < out@[b],
            forall|k: int| 0 <= k < out@.len() ==> out@[k] < i,
            forall|k: int|
                0 <= k < out@.len() ==> capturable(
                    windows@[out@[k] as int],
                    states@[out@[k] as int],
                    FlagTest::AnyBitSet,
                ),
            forall|j: int|
                0 <= j < i && capturable(windows@[j], states@[j], FlagTest::AnyBitSet)
                    ==> out@.contains(j as usize),
        decreases windows@.len() - i,
    {
        let ghost prev = out@;
        if is_capturable_with(&windows[i], &states[i], FlagTest::AnyBitSet) {
            out.push(i);
        }
        proof {
            assert forall|j: int|
                0 <= j < i + 1 && capturable(windows@[j], states@[j], FlagTest::AnyBitSet)
                    implies out@.contains(j as usize) by {
                if j == i {
                    assert(out@[out@.len() - 1] == i);
                } else {
                    let k = choose|k: int| 0 <= k < prev.len() && prev[k] == j as usize;
                    assert(out@[k] == j as usize);
                }
            }
        }
        i = i + 1;
    }
    out
}

/// A candidate for capture.
pub trait CaptureWindowCandidate {
    /// Whether the candidate is a capture target in the given live state.
    spec fn capturable_in(&self, state: WindowState) -> bool;

    fn is_capturable_window(&self, state: &WindowState) -> (r: bool)
        ensures
            r == self.capturable_in(*state),
    ;
}

impl CaptureWindowCandidate for WindowInfo {
    open spec fn capturable_in(&self, state: WindowState) -> bool {
        capturable(*self, state, FlagTest::AnyBitSet)
    }

    fn is_capturable_window(&self, state: &WindowState) -> (r: bool) {
        is_capturable_with(self, state, FlagTest::AnyBitSet)
    }
}

} // verus!
