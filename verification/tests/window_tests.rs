use binkybox::drag::{DragSnapshot, DragState};
use binkybox::mouse::{needs_new_session, MoveSession};
use binkybox::snap::SnapRect;
use binkybox::window::{is_draggable_window, is_normal_window, WindowInfo};

fn utf16(s: &str) -> Vec<u16> {
    s.encode_utf16().collect()
}

fn info(class_name: &str, title: &str) -> WindowInfo {
    WindowInfo {
        visible: true,
        class_name: utf16(class_name),
        titlebar_invisible: false,
        tool_window: false,
        title: utf16(title),
    }
}

#[test]
fn ordinary_window_is_normal_and_draggable() {
    let w = info("Notepad", "notes.txt - Notepad");
    assert!(is_normal_window(&w));
    assert!(is_draggable_window(&w));
}

#[test]
fn shell_windows_are_excluded() {
    for class in ["Progman", "WorkerW", "Shell_TrayWnd", "Windows.UI.Core.CoreWindow"] {
        let w = info(class, "Something");
        assert!(!is_normal_window(&w));
        assert!(!is_draggable_window(&w));
    }
    let near = info("Progman2", "Something");
    assert!(is_normal_window(&near));
}

#[test]
fn titles_rule_out_settings_and_program_manager() {
    assert!(!is_normal_window(&info("ApplicationFrameWindow", "Settings")));
    assert!(!is_normal_window(&info("X", "Display Settings - Control")));
    assert!(!is_normal_window(&info("X", "Program Manager")));
    assert!(!is_normal_window(&info("X", "")));
    assert!(is_normal_window(&info("X", "Program Manager 2")));
    assert!(is_normal_window(&info("X", "settings")));
    // Untitled windows may still be dragged.
    assert!(is_draggable_window(&info("X", "")));
}

#[test]
fn hidden_and_tool_windows_are_excluded() {
    let mut hidden = info("X", "t");
    hidden.visible = false;
    assert!(!is_normal_window(&hidden));
    assert!(!is_draggable_window(&hidden));
    let mut tool = info("X", "t");
    tool.tool_window = true;
    assert!(!is_normal_window(&tool));
    assert!(!is_draggable_window(&tool));
    let mut no_bar = info("X", "t");
    no_bar.titlebar_invisible = true;
    assert!(!is_normal_window(&no_bar));
    assert!(is_draggable_window(&no_bar));
}

#[test]
fn drag_threshold_and_cancel() {
    let mut d = DragState::new();
    d.on_down(true, Some(9), 0, 0);
    d.on_move(3, 2);
    assert!(!d.drag_triggered);
    d.on_move(4, 0);
    assert!(d.drag_triggered);
    assert!(d.consume_next_lwin_keyup);
    assert!(d.take_consume_next_lwin_keyup());
    assert!(!d.take_consume_next_lwin_keyup());
    d.on_cancel();
    assert!(!d.gesture_active());
    assert_eq!(d.snapshot_for_worker(), None);
}

#[test]
fn drag_move_overflow_is_detected() {
    let mut d = DragState::new();
    d.on_down(true, Some(9), i32::MIN, 0);
    assert!(!d.move_is_defined(i32::MAX, 0));
    assert!(d.move_is_defined(-1, 0));
    d.on_down(true, Some(9), 0, 0);
    // Both squares saturate; their sum would overflow.
    assert!(!d.move_is_defined(60_000, 60_000));
    assert!(d.move_is_defined(60_000, 0));
}

#[test]
fn move_session_follows_cursor() {
    let snapshot = DragSnapshot { hwnd: 42, start_x: 100, start_y: 200, cursor_x: 130, cursor_y: 190 };
    assert!(needs_new_session(&None, &snapshot));
    let session = MoveSession::begin(&snapshot, SnapRect { left: 10, top: 20, right: 410, bottom: 320 });
    assert_eq!((session.width, session.height), (400, 300));
    assert!(!needs_new_session(&Some(session), &snapshot));
    let other = DragSnapshot { start_x: 101, ..snapshot };
    assert!(needs_new_session(&Some(session), &other));
    assert!(session.position_is_defined(&snapshot));
    assert_eq!(session.position_for(&snapshot), (40, 10));
    let at_start = DragSnapshot { cursor_x: 100, cursor_y: 200, ..snapshot };
    assert_eq!(session.position_for(&at_start), (10, 20));
    let far = DragSnapshot { cursor_x: i32::MIN, ..snapshot };
    assert!(!session.position_is_defined(&far));
}
