use window_capture::window::{note_focus, WindowCheck, WindowTracker, CHECK_INTERVAL};

#[test]
fn new_tracker_searches_for_parts_of_titles() {
    let tracker = WindowTracker::new(42, "game", 5);
    assert_eq!(tracker.hwnd, 42);
    assert_eq!(tracker.process_name, "game");
    assert_eq!(tracker.last_check, 5);
    assert_eq!(tracker.check_interval, 2_000_000_000);
    assert!(!tracker.ever_focused);
    assert!(!tracker.use_exact_match);
    assert!(WindowTracker::new_with_exact_match(42, "game", true, 5).use_exact_match);
}

#[test]
fn focus_is_remembered() {
    let mut tracker = WindowTracker::new(42, "game", 0);
    assert!(!tracker.is_focused(7));
    assert!(!tracker.ever_focused);
    assert!(tracker.is_focused(42));
    assert!(tracker.ever_focused);
    assert!(!tracker.is_focused(7));
    assert!(tracker.ever_focused);
}

#[test]
fn checks_are_two_seconds_apart() {
    let mut tracker = WindowTracker::new(42, "game", 100);
    let due: u128 = 100 + CHECK_INTERVAL;
    assert_eq!(tracker.ensure_valid_window(50), WindowCheck::Settled(true));
    assert_eq!(tracker.ensure_valid_window(due - 1), WindowCheck::Settled(true));
    assert_eq!(tracker.last_check, 100);
    assert_eq!(tracker.ensure_valid_window(due), WindowCheck::Probe);
    assert_eq!(tracker.last_check, due);
    assert_eq!(tracker.ensure_valid_window(due + CHECK_INTERVAL - 1), WindowCheck::Settled(true));
    assert_eq!(tracker.ensure_valid_window(due + CHECK_INTERVAL), WindowCheck::Probe);
}

#[test]
fn invalid_handle_starts_a_search() {
    let mut tracker = WindowTracker::new(42, "game", 0);
    assert_eq!(tracker.window_probed(true), WindowCheck::Settled(true));
    assert_eq!(tracker.window_probed(false), WindowCheck::Search);
    assert_eq!(tracker.window_searched(None), WindowCheck::Settled(false));
    assert_eq!(tracker.hwnd, 42);
    assert_eq!(tracker.window_searched(Some(43)), WindowCheck::Settled(true));
    assert_eq!(tracker.hwnd, 43);
}

#[test]
fn only_changes_of_focus_are_news() {
    let mut last: Option<bool> = None;
    assert!(note_focus(&mut last, false));
    assert!(!note_focus(&mut last, false));
    assert!(note_focus(&mut last, true));
    assert!(!note_focus(&mut last, true));
    assert_eq!(last, Some(true));
}
