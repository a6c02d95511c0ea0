use geforcenow_awdl0::window_monitor::{has_fullscreen_window, WindowInfo};

fn window(owner_pid: Option<i32>, covers_display: Option<bool>) -> WindowInfo {
    WindowInfo { owner_pid, covers_display }
}

fn desktop() -> Vec<WindowInfo> {
    vec![
        window(Some(310), Some(false)),
        window(Some(311), Some(true)),
        window(None, Some(true)),
        window(Some(312), None),
        window(Some(0), Some(true)),
    ]
}

#[test]
fn test_has_fullscreen_window_invalid_pid() {
    // A PID of -1 should never have any windows
    let result = has_fullscreen_window(-1, Some(&desktop()));
    assert!(!result);
}

#[test]
fn test_has_fullscreen_window_nonexistent_pid() {
    // A very high PID that shouldn't exist
    let result = has_fullscreen_window(999_999_999, Some(&desktop()));
    assert!(!result);
}

#[test]
fn test_window_monitor_no_fullscreen() {
    // A non-existent PID should return false
    let result = has_fullscreen_window(999_999_999, Some(&desktop()));
    assert!(!result);
}

#[test]
fn fullscreen_window_of_the_process_is_found() {
    assert!(has_fullscreen_window(311, Some(&desktop())));
    assert!(has_fullscreen_window(0, Some(&desktop())));
    let last = vec![window(Some(1), Some(false)), window(Some(2), None), window(Some(1), Some(true))];
    assert!(has_fullscreen_window(1, Some(&last)));
}

#[test]
fn windowed_process_is_not_fullscreen() {
    assert!(!has_fullscreen_window(310, Some(&desktop())));
}

#[test]
fn window_without_bounds_is_not_fullscreen() {
    assert!(!has_fullscreen_window(312, Some(&desktop())));
}

#[test]
fn failed_query_is_not_fullscreen() {
    assert!(!has_fullscreen_window(311, None));
}

#[test]
fn empty_window_list_is_not_fullscreen() {
    assert!(!has_fullscreen_window(311, Some(&Vec::new())));
}

#[test]
fn single_window_decides() {
    let w = window(Some(5), Some(true));
    assert!(w.fullscreen_of(5));
    assert!(!w.fullscreen_of(6));
    assert!(!window(Some(5), Some(false)).fullscreen_of(5));
    assert!(!window(Some(5), None).fullscreen_of(5));
    assert!(!window(None, Some(true)).fullscreen_of(5));
}
