//! Giving the focus back when a menu closes: which window gets it.

use crate::search::{first_where, is_first, lemma_first_is, lemma_first_where};
use crate::text::{eq_ignore_case, same_ignoring_case};
use vstd::prelude::*;

verus! {

/// Style of a window that never becomes active.
pub const WS_EX_NOACTIVATE: u32 = 0x0800_0000;

/// Style of a window that is listed among the user's windows in any case.
pub const WS_EX_APPWINDOW: u32 = 0x0004_0000;

/// Style of a floating tool window.
pub const WS_EX_TOOLWINDOW: u32 = 0x0000_0080;

/// What is known of a window.
#[derive(Debug)]
pub struct WindowInfo {
    pub valid: bool,
    pub visible: bool,
    /// The process that it belongs to.
    pub pid: u32,
    pub ex_style: u32,
    pub has_owner: bool,
    pub class: String,
    /// Not zero when the window is hidden though it counts as visible.
    pub cloaked: u32,
}

/// The class is one of the desktop's own windows.
pub open spec fn is_shell_class(name: Seq<char>) -> bool {
    ||| same_ignoring_case(name, "Shell_TrayWnd"@)
    ||| same_ignoring_case(name, "Shell_SecondaryTrayWnd"@)
    ||| same_ignoring_case(name, "NotifyIconOverflowWindow"@)
    ||| same_ignoring_case(name, "TopLevelWindowForOverflowXamlIsland"@)
    ||| same_ignoring_case(name, "Progman"@)
    ||| same_ignoring_case(name, "WorkerW"@)
    ||| same_ignoring_case(name, "MultitaskingViewFrame"@)
    ||| same_ignoring_case(name, "WindowsDashboard"@)
    ||| same_ignoring_case(name, "Xaml_WindowedPopupClass"@)
}

/// Whether the class is one of the desktop's own windows.
pub fn shell_class(name: &str) -> (r: bool)
    ensures
        r == is_shell_class(name@),
{
    eq_ignore_case(name, "Shell_TrayWnd") || eq_ignore_case(name, "Shell_SecondaryTrayWnd")
        || eq_ignore_case(name, "NotifyIconOverflowWindow") || eq_ignore_case(
        name,
        "TopLevelWindowForOverflowXamlIsland",
    ) || eq_ignore_case(name, "Progman") || eq_ignore_case(name, "WorkerW") || eq_ignore_case(
        name,
        "MultitaskingViewFrame",
    ) || eq_ignore_case(name, "WindowsDashboard") || eq_ignore_case(
        name,
        "Xaml_WindowedPopupClass",
    )
}

impl WindowInfo {
    /// The window is one of the user's: visible, of another process, able to
    /// become active, listed among the user's windows, and not the desktop's.
    pub open spec fn is_users(self, self_pid: u32) -> bool {
        &&& self.valid
        &&& self.visible
        &&& self.pid != self_pid
        &&& self.ex_style & WS_EX_NOACTIVATE == 0
        &&& self.ex_style & WS_EX_APPWINDOW != 0 || (self.ex_style & WS_EX_TOOLWINDOW == 0
            && !self.has_owner)
        &&& !is_shell_class(self.class@)
        &&& self.cloaked == 0
    }
}

/// Whether the window is one of the user's, as seen by process `self_pid`.
pub fn is_user_window(w: &WindowInfo, self_pid: u32) -> (r: bool)
    ensures
        r == w.is_users(self_pid),
{
    if !w.valid || !w.visible {
        return false;
    }
    if w.pid == self_pid {
        return false;
    }
    if w.ex_style & WS_EX_NOACTIVATE != 0 {
        return false;
    }
    if w.ex_style & WS_EX_APPWINDOW == 0 {
        if w.ex_style & WS_EX_TOOLWINDOW != 0 {
            return false;
        }
        if w.has_owner {
            return false;
        }
    }
    if shell_class(w.class.as_str()) {
        return false;
    }
    w.cloaked == 0
}

/// The topmost of the user's windows; the list goes from the top down.
pub fn topmost_user_window(windows: &Vec<WindowInfo>, self_pid: u32) -> (r: Option<usize>)
    ensures
        match first_where(windows@, |w: WindowInfo| w.is_users(self_pid)) {
            Some(i) => r is Some && r->0 == i && is_first(
                windows@,
                |w: WindowInfo| w.is_users(self_pid),
                i,
            ),
            None => r is None,
        },
{
    let ghost p = |w: WindowInfo| w.is_users(self_pid);
    let mut i: usize = 0;
    while i < windows.len()
        invariant
            i <= windows@.len(),
            p == (|w: WindowInfo| w.is_users(self_pid)),
            forall|j: int| 0 <= j < i ==> !p(#[trigger] windows@[j]),
        decreases windows@.len() - i,
    {
        if is_user_window(&windows[i], self_pid) {
            proof {
                lemma_first_is(windows@, p, i as int);
            }
            return Some(i);
        }
        i = i + 1;
    }
    proof {
        lemma_first_where(windows@, p);
    }
    None
}

/// What becomes of the focus.
#[derive(Debug, Clone, Copy, PartialEq, Eq, Structural)]
pub enum Restore {
    /// One of the user's windows has it already.
    Leave,
    /// The window at this place of the list gets it.
    Give(usize),
    /// There is no window to give it to.
    NoTarget,
}

/// What becomes of the focus when a menu closes: a window of the user's that
/// has it keeps it; otherwise the topmost of them gets it.
pub fn restore(foreground: &WindowInfo, windows: &Vec<WindowInfo>, self_pid: u32) -> (r: Restore)
    ensures
        foreground.is_users(self_pid) ==> r == Restore::Leave,
        !foreground.is_users(self_pid) ==> match first_where(
            windows@,
            |w: WindowInfo| w.is_users(self_pid),
        ) {
            Some(i) => r is Give && r->Give_0 == i,
            None => r == Restore::NoTarget,
        },
{
    if is_user_window(foreground, self_pid) {
        return Restore::Leave;
    }
    match topmost_user_window(windows, self_pid) {
        Some(i) => Restore::Give(i),
        None => Restore::NoTarget,
    }
}

/// The focus never goes to a window of the tool itself, to one that is hidden or
/// cannot become active, or to the desktop.
pub proof fn law_focus_goes_to_users_windows(w: WindowInfo, self_pid: u32)
    ensures
        w.is_users(self_pid) ==> w.valid && w.visible && w.pid != self_pid && w.cloaked == 0
            && w.ex_style & 0x0800_0000 == 0 && !is_shell_class(w.class@),
        w.is_users(self_pid) && (w.ex_style & 0x80 != 0 || w.has_owner) ==> w.ex_style
            & 0x0004_0000 != 0,
        w.valid && w.visible && w.pid != self_pid && w.cloaked == 0 && !is_shell_class(w.class@)
            && w.ex_style == 0 && !w.has_owner ==> w.is_users(self_pid),
        w.valid && w.visible && w.pid != self_pid && w.cloaked == 0 && !is_shell_class(w.class@)
            && w.ex_style == 0x0004_0000 ==> w.is_users(self_pid),
{
    assert(0u32 & 0x0800_0000u32 == 0) by (bit_vector);
    assert(0u32 & 0x0004_0000u32 == 0) by (bit_vector);
    assert(0u32 & 0x80u32 == 0) by (bit_vector);
    assert(0x0004_0000u32 & 0x0800_0000u32 == 0) by (bit_vector);
    assert(0x0004_0000u32 & 0x0004_0000u32 != 0) by (bit_vector);
}

/// The class of a window counts whatever the case of its letters.
pub proof fn law_classes_ignore_case(a: Seq<char>, b: Seq<char>)
    requires
        same_ignoring_case(a, b),
    ensures
        is_shell_class(a) == is_shell_class(b),
{
}

} // verus!
