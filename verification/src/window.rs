//! Which window is the target, and whether it has the focus.

use crate::text::{contains, contains_str};
use vstd::prelude::*;

verus! {

/// Whether a window title shows the target: it is not empty and holds
/// `needle`.
pub open spec fn title_matches(title: Seq<char>, needle: Seq<char>) -> bool {
    title.len() > 0 && contains(title, needle)
}

/// Tests a window title for the target. A window without a title is never
/// the target, whatever `needle` is.
pub fn title_contains(title: &str, needle: &str) -> (found: bool)
    ensures
        found == title_matches(title@, needle@),
{
    if title.is_empty() {
        return false;
    }
    contains_str(title, needle)
}

/// One top-level window as the system listed it.
#[derive(Clone, Debug, PartialEq, Eq)]
pub struct WindowInfo {
    /// The window's handle.
    pub handle: isize,
    /// Whether the window is visible.
    pub visible: bool,
    /// The window's title; empty where it has none.
    pub title: String,
}

/// Whether `w` is a candidate for the target: visible, with a matching
/// title.
pub open spec fn window_matches(w: WindowInfo, needle: Seq<char>) -> bool {
    w.visible && title_matches(w.title@, needle)
}

/// Whether the window at place `i` is the first candidate of the list.
pub open spec fn is_first_match(windows: Seq<WindowInfo>, needle: Seq<char>, i: int) -> bool {
    &&& 0 <= i < windows.len()
    &&& window_matches(windows[i], needle)
    &&& forall|j: int| 0 <= j < i ==> !window_matches(#[trigger] windows[j], needle)
}

/// Tests one listed window.
pub fn is_candidate(w: &WindowInfo, needle: &str) -> (found: bool)
    ensures
        found == window_matches(*w, needle@),
{
    w.visible && title_contains(w.title.as_str(), needle)
}

/// Picks the target among the listed windows: the first visible one whose
/// title holds `needle`, in the order of the list. The search ends at that
/// window; where its handle is null, nothing is found.
pub fn find_window(windows: &Vec<WindowInfo>, needle: &str) -> (found: Option<isize>)
    ensures
        match found {
            Some(handle) => handle != 0 && exists|i: int|
                is_first_match(windows@, needle@, i) && (#[trigger] windows@[i]).handle == handle,
            None => forall|i: int|
                is_first_match(windows@, needle@, i) ==> (#[trigger] windows@[i]).handle == 0,
        },
{
    let n: usize = windows.len();
    let mut i: usize = 0;
    while i < n
        invariant
            n == windows@.len(),
            i <= n,
            forall|j: int| 0 <= j < i ==> !window_matches(#[trigger] windows@[j], needle@),
        decreases n - i,
    {
        if is_candidate(&windows[i], needle) {
            assert(is_first_match(windows@, needle@, i as int));
            let handle: isize = windows[i].handle;
            if handle != 0 {
                return Some(handle);
            } else {
                return None;
            }
        }
        i = i + 1;
    }
    None
}

/// Whether the target has the focus: the foreground window is the target
/// found earlier, or its title holds `needle`. Either alone suffices.
pub fn is_target_focused(
    target: Option<isize>,
    foreground: isize,
    foreground_title: &str,
    needle: &str,
) -> (focused: bool)
    ensures
        focused == (target == Some(foreground) || title_matches(foreground_title@, needle@)),
{
    match target {
        Some(handle) => {
            if foreground == handle {
                return true;
            }
        },
        None => {},
    }
    title_contains(foreground_title, needle)
}

/// What the focus monitor does after one check.
#[derive(Clone, Copy, Debug, PartialEq, Eq, Structural)]
pub struct FocusReport {
    /// The value to publish to the lanes.
    pub focused: bool,
    /// Whether to trace the change.
    pub changed: bool,
}

/// The focus monitor between two checks: the value it traced last.
#[derive(Clone, Copy, Debug, PartialEq, Eq, Structural)]
pub struct FocusMonitor {
    /// The focus value of the last traced change; `false` at the start.
    pub last: bool,
}

impl FocusMonitor {
    /// The monitor before its first check.
    pub fn new() -> (m: FocusMonitor)
        ensures
            m.last == false,
    {
        FocusMonitor { last: false }
    }

    /// Takes the result of one focus check. The value is published every
    /// time; a change is traced only with `debug` on, and only then
    /// remembered.
    pub fn observe(&mut self, focused: bool, debug: bool) -> (report: FocusReport)
        ensures
            report.focused == focused,
            report.changed == (debug && focused != old(self).last),
            report.changed ==> final(self).last == focused,
            !report.changed ==> final(self).last == old(self).last,
    {
        let changed = debug && focused != self.last;
        if changed {
            self.last = focused;
        }
        FocusReport { focused, changed }
    }
}

/// The pause between two polls of the abort key, in milliseconds.
pub const ABORT_POLL_MS: u64 = 5;

/// Whether the abort key is down, given its polled state: the state's high
/// bit is set, which makes it negative.
pub fn abort_requested(key_state: i16) -> (abort: bool)
    ensures
        abort == (key_state < 0),
{
    key_state < 0
}

} // verus!
