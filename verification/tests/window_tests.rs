use autoplayer::window::{
    abort_requested, find_window, is_candidate, is_target_focused, title_contains, FocusMonitor,
    FocusReport, WindowInfo, ABORT_POLL_MS,
};

fn window(handle: isize, visible: bool, title: &str) -> WindowInfo {
    WindowInfo { handle, visible, title: title.to_string() }
}

#[test]
fn title_contains_looks_for_the_text_in_the_title() {
    assert!(title_contains("Roblox", "Roblox"));
    assert!(title_contains("Roblox - Player", "Roblox"));
    assert!(title_contains("My Roblox Game", "Roblox"));
    assert!(!title_contains("Notepad", "Roblox"));
    assert!(!title_contains("roblox", "Roblox"));
}

#[test]
fn a_window_without_title_never_matches() {
    assert!(!title_contains("", "Roblox"));
    assert!(!title_contains("", ""));
    assert!(title_contains("x", ""));
}

#[test]
fn only_a_visible_window_is_a_candidate() {
    assert!(is_candidate(&window(5, true, "Roblox"), "Roblox"));
    assert!(!is_candidate(&window(5, false, "Roblox"), "Roblox"));
    assert!(!is_candidate(&window(5, true, "Other"), "Roblox"));
    assert!(!is_candidate(&window(5, true, ""), "Roblox"));
}

#[test]
fn find_window_takes_the_first_match_in_order() {
    let windows = vec![
        window(10, true, "Notepad"),
        window(20, false, "Roblox hidden"),
        window(30, true, "Roblox one"),
        window(40, true, "Roblox two"),
    ];
    assert_eq!(find_window(&windows, "Roblox"), Some(30));
    assert_eq!(find_window(&windows, "two"), Some(40));
    assert_eq!(find_window(&windows, "Notepad"), Some(10));
    assert_eq!(find_window(&windows, ""), Some(10));
}

#[test]
fn find_window_finds_nothing_without_a_match() {
    let windows = vec![window(10, true, "Notepad"), window(20, false, "Roblox")];
    assert_eq!(find_window(&windows, "Roblox"), None);
    assert_eq!(find_window(&windows, "Paint"), None);
    assert_eq!(find_window(&Vec::new(), "Roblox"), None);
    assert_eq!(find_window(&Vec::new(), ""), None);
}

#[test]
fn find_window_stops_at_a_match_with_a_null_handle() {
    let windows = vec![window(0, true, "Roblox"), window(7, true, "Roblox")];
    assert_eq!(find_window(&windows, "Roblox"), None);
    let windows = vec![window(0, false, "Roblox"), window(7, true, "Roblox")];
    assert_eq!(find_window(&windows, "Roblox"), Some(7));
}

#[test]
fn focus_is_the_known_handle_or_the_title() {
    assert!(is_target_focused(Some(30), 30, "renamed", "Roblox"));
    assert!(is_target_focused(Some(30), 30, "", "Roblox"));
    assert!(is_target_focused(Some(30), 99, "Roblox", "Roblox"));
    assert!(is_target_focused(None, 99, "The Roblox", "Roblox"));
    assert!(!is_target_focused(Some(30), 99, "Notepad", "Roblox"));
    assert!(!is_target_focused(None, 99, "Notepad", "Roblox"));
    assert!(!is_target_focused(None, 0, "", "Roblox"));
    assert!(!is_target_focused(None, 0, "", ""));
}

#[test]
fn focus_monitor_publishes_every_value() {
    let mut m = FocusMonitor::new();
    assert_eq!(m, FocusMonitor { last: false });
    assert_eq!(m.observe(false, false), FocusReport { focused: false, changed: false });
    assert_eq!(m.observe(true, false), FocusReport { focused: true, changed: false });
    assert_eq!(m.last, false);
    assert_eq!(m.observe(true, false), FocusReport { focused: true, changed: false });
    assert_eq!(m.observe(false, false), FocusReport { focused: false, changed: false });
}

#[test]
fn focus_monitor_traces_only_changes_and_only_with_debug() {
    let mut m = FocusMonitor::new();
    assert_eq!(m.observe(false, true), FocusReport { focused: false, changed: false });
    assert_eq!(m.observe(true, true), FocusReport { focused: true, changed: true });
    assert_eq!(m.last, true);
    assert_eq!(m.observe(true, true), FocusReport { focused: true, changed: false });
    assert_eq!(m.observe(false, true), FocusReport { focused: false, changed: true });
    assert_eq!(m.last, false);
    assert_eq!(m.observe(false, true), FocusReport { focused: false, changed: false });
}

#[test]
fn abort_is_the_high_bit_of_the_key_state() {
    assert!(abort_requested(i16::MIN));
    assert!(abort_requested(-1));
    assert!(abort_requested(0x8001u16 as i16));
    assert!(!abort_requested(0));
    assert!(!abort_requested(1));
    assert!(!abort_requested(i16::MAX));
    assert_eq!(ABORT_POLL_MS, 5);
}
