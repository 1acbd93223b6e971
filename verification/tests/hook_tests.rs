use binkybox::actions::Action;
use binkybox::hook::{InputState, KeyEvent, KeyOutcome, KeyTransition, SyntheticInput};
use binkybox::mouse::{MouseEvent, MouseTransition};
use binkybox::shortcut::{
    is_win_vk, most_recent_shortcut_action_from_pressed_keys, shortcut_action_for_key,
    should_clear_stale_keydown_state, should_replay_win_key,
};
use binkybox::snap::SnapDirection;
use windows_sys::Win32::UI::Input::KeyboardAndMouse::{
    VK_DOWN, VK_E, VK_LCONTROL, VK_LEFT, VK_LSHIFT, VK_LWIN, VK_OEM_3, VK_Q, VK_RETURN,
    VK_RIGHT, VK_RWIN, VK_UP,
};

#[test]
fn win_key_detection_supports_both_keys() {
    assert!(is_win_vk(VK_LWIN as u32));
    assert!(is_win_vk(VK_RWIN as u32));
    assert!(!is_win_vk(VK_Q as u32));
}

#[test]
fn replay_requires_intercept_without_combo_or_drag() {
    assert!(should_replay_win_key(false, false, true));
    assert!(!should_replay_win_key(true, false, true));
    assert!(!should_replay_win_key(false, true, true));
    assert!(!should_replay_win_key(false, false, false));
}

#[test]
fn stale_keydown_state_is_cleared_when_key_is_no_longer_physically_down() {
    assert!(should_clear_stale_keydown_state(true, false));
    assert!(!should_clear_stale_keydown_state(true, true));
    assert!(!should_clear_stale_keydown_state(false, false));
}

#[test]
fn number_shortcuts_map_to_desktops_and_shift_move() {
    assert_eq!(
        shortcut_action_for_key(b'1' as u32, true, false, false, false),
        Some(Action::SwitchDesktop { desktop: 0, move_window: false })
    );
    assert_eq!(
        shortcut_action_for_key(b'9' as u32, true, false, false, true),
        Some(Action::SwitchDesktop { desktop: 8, move_window: true })
    );
}

#[test]
fn tilde_shortcuts_toggle_previous_desktop_and_shift_moves() {
    assert_eq!(
        shortcut_action_for_key(VK_OEM_3 as u32, true, false, false, false),
        Some(Action::TogglePreviousDesktop { move_window: false })
    );
    assert_eq!(
        shortcut_action_for_key(VK_OEM_3 as u32, true, false, false, true),
        Some(Action::TogglePreviousDesktop { move_window: true })
    );
}

#[test]
fn plain_arrow_shortcuts_map_to_snap_actions() {
    assert_eq!(
        shortcut_action_for_key(VK_LEFT as u32, true, false, false, false),
        Some(Action::SnapWindow { direction: SnapDirection::Left })
    );
    assert_eq!(
        shortcut_action_for_key(VK_RIGHT as u32, true, false, false, false),
        Some(Action::SnapWindow { direction: SnapDirection::Right })
    );
    assert_eq!(
        shortcut_action_for_key(VK_UP as u32, true, false, false, false),
        Some(Action::SnapWindow { direction: SnapDirection::Up })
    );
    assert_eq!(
        shortcut_action_for_key(VK_DOWN as u32, true, false, false, false),
        Some(Action::SnapWindow { direction: SnapDirection::Down })
    );
}

#[test]
fn ctrl_shift_left_right_move_window_to_adjacent_desktops() {
    assert_eq!(
        shortcut_action_for_key(VK_LEFT as u32, true, true, false, true),
        Some(Action::MoveWindowToAdjacentDesktop { delta: -1 })
    );
    assert_eq!(
        shortcut_action_for_key(VK_RIGHT as u32, true, true, false, true),
        Some(Action::MoveWindowToAdjacentDesktop { delta: 1 })
    );
}

#[test]
fn shift_up_down_remain_native() {
    assert_eq!(shortcut_action_for_key(VK_UP as u32, true, false, false, true), None);
    assert_eq!(shortcut_action_for_key(VK_DOWN as u32, true, false, false, true), None);
}

#[test]
fn enter_shortcut_uses_shift_for_local_domain_choice() {
    assert_eq!(
        shortcut_action_for_key(VK_RETURN as u32, true, false, false, false),
        Some(Action::LaunchWezterm { local: false })
    );
    assert_eq!(
        shortcut_action_for_key(VK_RETURN as u32, true, false, false, true),
        Some(Action::LaunchWezterm { local: true })
    );
}

#[test]
fn alt_blocks_other_shortcuts_and_ctrl_only_changes_arrow_handling() {
    assert_eq!(shortcut_action_for_key(b'2' as u32, true, false, true, false), None);
    assert_eq!(shortcut_action_for_key(VK_OEM_3 as u32, true, false, true, false), None);
    assert_eq!(shortcut_action_for_key(VK_Q as u32, false, false, false, false), None);
    assert_eq!(shortcut_action_for_key(VK_LEFT as u32, true, true, false, false), None);
    assert_eq!(shortcut_action_for_key(VK_LEFT as u32, true, false, true, true), None);
    assert_eq!(
        shortcut_action_for_key(VK_RETURN as u32, true, true, false, false),
        Some(Action::LaunchWezterm { local: false })
    );
}

#[test]
fn recent_pressed_shortcut_supports_enter_then_win_order() {
    let action = most_recent_shortcut_action_from_pressed_keys(
        &[(VK_RETURN as u32, 1_000)],
        true,
        false,
        false,
        false,
        1_100,
    );
    assert_eq!(action, Some(Action::LaunchWezterm { local: false }));
}

#[test]
fn recent_pressed_shortcut_honors_shift_and_rollover_window() {
    assert_eq!(
        most_recent_shortcut_action_from_pressed_keys(
            &[(VK_RETURN as u32, 1_000)],
            true,
            false,
            false,
            true,
            1_100,
        ),
        Some(Action::LaunchWezterm { local: true })
    );
    assert_eq!(
        most_recent_shortcut_action_from_pressed_keys(
            &[(VK_RETURN as u32, 1_000)],
            true,
            false,
            false,
            false,
            1_200,
        ),
        None
    );
}

// Further cases.

#[test]
fn q_key_quits_and_unmapped_keys_do_nothing() {
    assert_eq!(shortcut_action_for_key(VK_Q as u32, true, false, false, false), Some(Action::Quit));
    assert_eq!(shortcut_action_for_key(VK_E as u32, true, false, false, false), None);
    assert_eq!(shortcut_action_for_key(b'0' as u32, true, false, false, false), None);
}

#[test]
fn recent_pressed_shortcut_prefers_latest_and_first_on_tie() {
    let keys: [(u32, u64); 3] = [(b'1' as u32, 1_000), (b'2' as u32, 1_050), (b'3' as u32, 1_050)];
    assert_eq!(
        most_recent_shortcut_action_from_pressed_keys(&keys, true, false, false, false, 1_100),
        Some(Action::SwitchDesktop { desktop: 1, move_window: false })
    );
    let unmapped_later: [(u32, u64); 2] = [(b'1' as u32, 1_000), (VK_E as u32, 1_090)];
    assert_eq!(
        most_recent_shortcut_action_from_pressed_keys(&unmapped_later, true, false, false, false, 1_100),
        Some(Action::SwitchDesktop { desktop: 0, move_window: false })
    );
}

#[test]
fn recent_pressed_shortcut_counts_future_presses_as_fresh() {
    assert_eq!(
        most_recent_shortcut_action_from_pressed_keys(&[(VK_RETURN as u32, 5_000)], true, false, false, false, 1_000),
        Some(Action::LaunchWezterm { local: false })
    );
    assert_eq!(
        most_recent_shortcut_action_from_pressed_keys(&[(VK_RETURN as u32, 1_000)], true, false, false, false, 1_150),
        Some(Action::LaunchWezterm { local: false })
    );
}

fn key(vk: u16, transition: KeyTransition, now_ms: u64) -> KeyEvent {
    KeyEvent {
        vk: vk as u32,
        transition,
        injected: false,
        physically_down: true,
        now_ms,
        dispatch_ready: true,
    }
}

fn outcome(swallow: bool, dispatched: Option<Action>, synthetic: SyntheticInput) -> KeyOutcome {
    KeyOutcome { swallow, dispatched, synthetic, cleared_stale: false }
}

#[test]
fn plain_win_tap_is_replayed() {
    let mut state = InputState::new();
    assert_eq!(
        state.on_key_event(key(VK_LWIN, KeyTransition::Down, 10)),
        outcome(true, None, SyntheticInput::Nothing)
    );
    assert_eq!(
        state.on_key_event(key(VK_LWIN, KeyTransition::Up, 50)),
        outcome(true, None, SyntheticInput::Tap(VK_LWIN as u8))
    );
}

#[test]
fn win_shortcut_dispatches_and_suppresses_start_menu() {
    let mut state = InputState::new();
    state.on_key_event(key(VK_LWIN, KeyTransition::Down, 10));
    assert_eq!(
        state.on_key_event(key(b'3' as u16, KeyTransition::Down, 500)),
        outcome(true, Some(Action::SwitchDesktop { desktop: 2, move_window: false }), SyntheticInput::Nothing)
    );
    assert_eq!(
        state.on_key_event(key(b'3' as u16, KeyTransition::Up, 600)),
        outcome(false, None, SyntheticInput::Nothing)
    );
    assert_eq!(
        state.on_key_event(key(VK_LWIN, KeyTransition::Up, 700)),
        outcome(true, None, SyntheticInput::Nothing)
    );
}

#[test]
fn chord_pressed_before_win_is_dispatched_on_win_press() {
    let mut state = InputState::new();
    assert_eq!(
        state.on_key_event(key(VK_RETURN, KeyTransition::Down, 1_000)),
        outcome(false, None, SyntheticInput::Nothing)
    );
    assert_eq!(
        state.on_key_event(key(VK_LWIN, KeyTransition::Down, 1_100)),
        outcome(true, Some(Action::LaunchWezterm { local: false }), SyntheticInput::Nothing)
    );
    assert_eq!(
        state.on_key_event(key(VK_LWIN, KeyTransition::Up, 1_200)),
        outcome(true, None, SyntheticInput::Nothing)
    );
}

#[test]
fn unhandled_win_combination_passes_to_windows() {
    let mut state = InputState::new();
    state.on_key_event(key(VK_LWIN, KeyTransition::Down, 10));
    assert_eq!(
        state.on_key_event(key(VK_E, KeyTransition::Down, 20)),
        outcome(false, None, SyntheticInput::Press(VK_LWIN as u8))
    );
    assert_eq!(
        state.on_key_event(key(VK_E, KeyTransition::Down, 30)),
        outcome(false, None, SyntheticInput::Nothing)
    );
    assert_eq!(
        state.on_key_event(key(VK_LWIN, KeyTransition::Up, 40)),
        outcome(true, None, SyntheticInput::Release(VK_LWIN as u8))
    );
}

#[test]
fn injected_and_other_events_pass_untouched() {
    let mut state = InputState::new();
    let mut injected = key(VK_LWIN, KeyTransition::Down, 10);
    injected.injected = true;
    assert_eq!(state.on_key_event(injected), outcome(false, None, SyntheticInput::Nothing));
    assert_eq!(
        state.on_key_event(key(VK_LWIN, KeyTransition::Other, 10)),
        outcome(false, None, SyntheticInput::Nothing)
    );
    // Nothing was recorded: a later release of Win is not intercepted.
    assert_eq!(
        state.on_key_event(key(VK_LWIN, KeyTransition::Up, 20)),
        outcome(false, None, SyntheticInput::Nothing)
    );
}

#[test]
fn repeated_win_press_is_swallowed_and_other_repeats_pass() {
    let mut state = InputState::new();
    state.on_key_event(key(VK_LWIN, KeyTransition::Down, 10));
    assert_eq!(
        state.on_key_event(key(VK_LWIN, KeyTransition::Down, 40)),
        outcome(true, None, SyntheticInput::Nothing)
    );
    state.on_key_event(key(VK_LWIN, KeyTransition::Up, 50));
    state.on_key_event(key(VK_E, KeyTransition::Down, 60));
    assert_eq!(
        state.on_key_event(key(VK_E, KeyTransition::Down, 90)),
        outcome(false, None, SyntheticInput::Nothing)
    );
}

#[test]
fn stale_press_is_cleared_and_counted_fresh() {
    let mut state = InputState::new();
    state.on_key_event(key(VK_LWIN, KeyTransition::Down, 10));
    // The release was missed; the key is no longer physically down.
    let mut again = key(VK_LWIN, KeyTransition::Down, 5_000);
    again.physically_down = false;
    assert_eq!(
        state.on_key_event(again),
        KeyOutcome { swallow: true, dispatched: None, synthetic: SyntheticInput::Nothing, cleared_stale: true }
    );
}

#[test]
fn win_q_quits_on_release_unless_ctrl_is_down() {
    let mut state = InputState::new();
    state.on_key_event(key(VK_LWIN, KeyTransition::Down, 10));
    assert_eq!(
        state.on_key_event(key(VK_Q, KeyTransition::Down, 20)),
        outcome(true, Some(Action::Quit), SyntheticInput::Nothing)
    );
    assert_eq!(
        state.on_key_event(key(VK_Q, KeyTransition::Up, 30)),
        outcome(true, Some(Action::Quit), SyntheticInput::Nothing)
    );

    let mut with_ctrl = InputState::new();
    with_ctrl.on_key_event(key(VK_LCONTROL, KeyTransition::Down, 5));
    with_ctrl.on_key_event(key(VK_LWIN, KeyTransition::Down, 10));
    assert_eq!(
        with_ctrl.on_key_event(key(VK_Q, KeyTransition::Up, 30)),
        outcome(false, None, SyntheticInput::Nothing)
    );
}

#[test]
fn shortcut_is_not_swallowed_when_worker_is_unavailable() {
    let mut state = InputState::new();
    state.on_key_event(key(VK_LWIN, KeyTransition::Down, 10));
    let mut press = key(VK_LEFT, KeyTransition::Down, 20);
    press.dispatch_ready = false;
    assert_eq!(state.on_key_event(press), outcome(false, None, SyntheticInput::Press(VK_LWIN as u8)));
}

#[test]
fn shift_arrow_with_win_starts_native_passthrough() {
    let mut state = InputState::new();
    state.on_key_event(key(VK_LWIN, KeyTransition::Down, 10));
    assert_eq!(
        state.on_key_event(key(VK_LSHIFT, KeyTransition::Down, 20)),
        outcome(false, None, SyntheticInput::Press(VK_LWIN as u8))
    );
    assert_eq!(
        state.on_key_event(key(VK_UP, KeyTransition::Down, 30)),
        outcome(false, None, SyntheticInput::Nothing)
    );
}

fn mouse(transition: MouseTransition, x: i32, y: i32, candidate_window: Option<isize>) -> MouseEvent {
    MouseEvent { transition, x, y, candidate_window }
}

#[test]
fn win_drag_is_swallowed_and_keeps_start_menu_closed() {
    let mut state = InputState::new();
    state.on_key_event(key(VK_LWIN, KeyTransition::Down, 10));
    assert!(state.on_mouse_event(mouse(MouseTransition::LeftDown, 100, 100, Some(0x1234))));
    assert!(state.drag.snapshot_for_worker().is_none());
    assert!(!state.on_mouse_event(mouse(MouseTransition::Move, 103, 103, None)));
    let snapshot = state.drag.snapshot_for_worker().unwrap();
    assert_eq!(snapshot.hwnd, 0x1234);
    assert_eq!((snapshot.start_x, snapshot.cursor_x, snapshot.cursor_y), (100, 103, 103));
    assert!(state.on_mouse_event(mouse(MouseTransition::LeftUp, 103, 103, None)));
    assert!(state.drag.snapshot_for_worker().is_none());
    assert_eq!(
        state.on_key_event(key(VK_LWIN, KeyTransition::Up, 900)),
        outcome(true, None, SyntheticInput::Nothing)
    );
}

#[test]
fn click_without_win_passes() {
    let mut state = InputState::new();
    assert!(!state.on_mouse_event(mouse(MouseTransition::LeftDown, 5, 5, Some(0x1234))));
    assert!(!state.drag.gesture_active());
    assert!(!state.on_mouse_event(mouse(MouseTransition::Move, 50, 50, None)));
    assert!(!state.on_mouse_event(mouse(MouseTransition::LeftUp, 50, 50, None)));
}

#[test]
fn win_click_on_desktop_passes() {
    let mut state = InputState::new();
    state.on_key_event(key(VK_LWIN, KeyTransition::Down, 10));
    assert!(!state.on_mouse_event(mouse(MouseTransition::LeftDown, 5, 5, None)));
    assert!(!state.on_mouse_event(mouse(MouseTransition::LeftUp, 5, 5, None)));
    assert_eq!(
        state.on_key_event(key(VK_LWIN, KeyTransition::Up, 20)),
        outcome(true, None, SyntheticInput::Tap(VK_LWIN as u8))
    );
}

#[test]
fn small_win_click_without_drag_still_opens_start() {
    let mut state = InputState::new();
    state.on_key_event(key(VK_LWIN, KeyTransition::Down, 10));
    assert!(state.on_mouse_event(mouse(MouseTransition::LeftDown, 100, 100, Some(7))));
    // Squared distance 2*2 + 3*3 = 13 stays under the threshold.
    assert!(!state.on_mouse_event(mouse(MouseTransition::Move, 102, 103, None)));
    assert!(state.drag.snapshot_for_worker().is_none());
    assert!(state.on_mouse_event(mouse(MouseTransition::LeftUp, 102, 103, None)));
    assert_eq!(
        state.on_key_event(key(VK_LWIN, KeyTransition::Up, 20)),
        outcome(true, None, SyntheticInput::Tap(VK_LWIN as u8))
    );
}
