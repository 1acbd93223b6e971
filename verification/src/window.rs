//! Which windows count as ordinary application windows, to be moved,
//! focused or dragged, judged from what Windows reports about them. Class
//! names and titles are kept as the UTF-16 code units Windows returns; every
//! name compared against is ASCII, so comparing code units decides the same
//! as comparing the lossily decoded strings.
use vstd::prelude::*;

verus! {

/// "Progman", the desktop background window class, in UTF-16.
pub const PROGMAN: [u16; 7] = [80, 114, 111, 103, 109, 97, 110];

/// "WorkerW", the desktop wallpaper worker class, in UTF-16.
pub const WORKER_W: [u16; 7] = [87, 111, 114, 107, 101, 114, 87];

/// "Shell_TrayWnd", the taskbar class, in UTF-16.
pub const SHELL_TRAY_WND: [u16; 13] = [83, 104, 101, 108, 108, 95, 84, 114, 97, 121, 87, 110, 100];

/// "Windows.UI.Core.CoreWindow", the class of shell overlays, in UTF-16.
pub const CORE_WINDOW: [u16; 26] = [
    87, 105, 110, 100, 111, 119, 115, 46, 85, 73, 46, 67, 111, 114, 101, 46, 67, 111, 114, 101, 87,
    105, 110, 100, 111, 119,
];

/// "Settings" in UTF-16.
pub const SETTINGS: [u16; 8] = [83, 101, 116, 116, 105, 110, 103, 115];

/// "Program Manager" in UTF-16.
pub const PROGRAM_MANAGER: [u16; 15] = [
    80, 114, 111, 103, 114, 97, 109, 32, 77, 97, 110, 97, 103, 101, 114,
];

/// What the window filters read about a window.
pub struct WindowInfo {
    pub visible: bool,
    pub class_name: Vec<u16>,
    /// The title bar reports itself invisible.
    pub titlebar_invisible: bool,
    /// The window has the tool-window extended style.
    pub tool_window: bool,
    pub title: Vec<u16>,
}

pub open spec fn is_shell_class(name: Seq<u16>) -> bool {
    name == PROGMAN@ || name == WORKER_W@ || name == SHELL_TRAY_WND@ || name == CORE_WINDOW@
}

/// `needle` occurs in `haystack` as a contiguous run.
pub open spec fn contains_units(haystack: Seq<u16>, needle: Seq<u16>) -> bool {
    exists|i: int|
        0 <= i && i + needle.len() <= haystack.len() && #[trigger] haystack.subrange(i, i + needle.len())
            == needle
}

/// A window to focus or move between desktops: visible, not part of the
/// shell, with a visible title bar, not a tool window, and with a title that
/// is neither empty, nor a settings window's, nor the shell's.
pub open spec fn normal_window_spec(info: WindowInfo) -> bool {
    &&& info.visible
    &&& !is_shell_class(info.class_name@)
    &&& !info.titlebar_invisible
    &&& !info.tool_window
    &&& info.title@.len() > 0
    &&& !contains_units(info.title@, SETTINGS@)
    &&& info.title@ != PROGRAM_MANAGER@
}

/// A window that Win+drag may move: visible, not part of the shell and not
/// a tool window.
pub open spec fn draggable_window_spec(info: WindowInfo) -> bool {
    &&& info.visible
    &&& !is_shell_class(info.class_name@)
    &&& !info.tool_window
}

fn units_equal(a: &[u16], b: &[u16]) -> (r: bool)
    ensures
        r == (a@ == b@),
{
    if a.len() != b.len() {
        return false;
    }
    let mut i: usize = 0;
    while i < a.len()
        invariant
            i <= a@.len(),
            a@.len() == b@.len(),
            forall|j: int| 0 <= j < i ==> a@[j] == b@[j],
        decreases a@.len() - i,
    {
        if a[i] != b[i] {
            return false;
        }
        i = i + 1;
    }
    assert(a@ =~= b@);
    true
}

fn matches_at(haystack: &[u16], needle: &[u16], start: usize) -> (r: bool)
    requires
        start + needle@.len() <= haystack@.len(),
    ensures
        r == (haystack@.subrange(start as int, start + needle@.len()) == needle@),
{
    let haystack_len = haystack.len();
    let mut i: usize = 0;
    while i < needle.len()
        invariant
            i <= needle@.len(),
            haystack_len == haystack@.len(),
            start + needle@.len() <= haystack@.len(),
            forall|j: int| 0 <= j < i ==> haystack@[start + j] == needle@[j],
        decreases needle@.len() - i,
    {
        if haystack[start + i] != needle[i] {
            assert(haystack@.subrange(start as int, start + needle@.len())[i as int] != needle@[i as int]);
            return false;
        }
        i = i + 1;
    }
    assert(haystack@.subrange(start as int, start + needle@.len()) =~= needle@);
    true
}

fn contains(haystack: &[u16], needle: &[u16]) -> (r: bool)
    ensures
        r == contains_units(haystack@, needle@),
{
    if needle.len() > haystack.len() {
        return false;
    }
    let last = haystack.len() - needle.len();
    let mut start: usize = 0;
    loop
        invariant
            last + needle@.len() == haystack@.len(),
            start <= last,
            forall|i: int|
                0 <= i < start ==> #[trigger] haystack@.subrange(i, i + needle@.len()) != needle@,
        decreases last - start,
    {
        if matches_at(haystack, needle, start) {
            return true;
        }
        if start == last {
            return false;
        }
        start = start + 1;
    }
}

fn is_shell_class_name(name: &[u16]) -> (r: bool)
    ensures
        r == is_shell_class(name@),
{
    units_equal(name, &PROGMAN) || units_equal(name, &WORKER_W) || units_equal(name, &SHELL_TRAY_WND)
        || units_equal(name, &CORE_WINDOW)
}

pub fn is_normal_window(info: &WindowInfo) -> (r: bool)
    ensures
        r == normal_window_spec(*info),
{
    if !info.visible {
        return false;
    }
    if info.class_name.len() > 0 && is_shell_class_name(info.class_name.as_slice()) {
        return false;
    }
    if info.titlebar_invisible {
        return false;
    }
    if info.tool_window {
        return false;
    }
    let title = info.title.as_slice();
    if title.len() == 0 || contains(title, &SETTINGS) || units_equal(title, &PROGRAM_MANAGER) {
        return false;
    }
    true
}

pub fn is_draggable_window(info: &WindowInfo) -> (r: bool)
    ensures
        r == draggable_window_spec(*info),
{
    if !info.visible {
        return false;
    }
    if info.class_name.len() > 0 && is_shell_class_name(info.class_name.as_slice()) {
        return false;
    }
    if info.tool_window {
        return false;
    }
    true
}

} // verus!
