//! Which action a key pressed together with the Win key stands for.
use vstd::prelude::*;
use crate::actions::Action;
use crate::snap::SnapDirection;

verus! {

/// Windows virtual-key codes that the shortcuts use.
pub const VK_RETURN: u32 = 13;
pub const VK_LEFT: u32 = 37;
pub const VK_UP: u32 = 38;
pub const VK_RIGHT: u32 = 39;
pub const VK_DOWN: u32 = 40;
pub const VK_1: u32 = 49;
pub const VK_9: u32 = 57;
pub const VK_Q: u32 = 81;
pub const VK_LWIN: u32 = 91;
pub const VK_RWIN: u32 = 92;
pub const VK_LSHIFT: u32 = 160;
pub const VK_RSHIFT: u32 = 161;
pub const VK_LCONTROL: u32 = 162;
pub const VK_RCONTROL: u32 = 163;
pub const VK_LMENU: u32 = 164;
pub const VK_RMENU: u32 = 165;
/// The key left of `1` on a US keyboard (backtick and tilde).
pub const VK_OEM_3: u32 = 192;

/// How long, in milliseconds, a key may have been down before the Win key
/// and still form a shortcut with it.
pub const SHORTCUT_CHORD_ROLLOVER_MS: u64 = 150;

/// The shortcut table. Nothing without Win, and nothing while Alt is down.
/// Win+Left/Right snap the window, and with Ctrl+Shift move it one desktop
/// over; Win+Up/Down snap it; any other Ctrl or Shift with an arrow leaves the
/// key to Windows. Win+1..9 switch to desktops 0..8, Win+` toggles the
/// previous desktop, Win+Enter opens a terminal and Win+Q quits; Shift with
/// these takes the window along or picks the local terminal domain.
pub open spec fn shortcut_spec(vk: u32, win_down: bool, ctrl_down: bool, alt_down: bool, shift_down: bool) -> Option<Action> {
    if !win_down || alt_down {
        None
    } else if vk == VK_LEFT || vk == VK_RIGHT {
        if ctrl_down && shift_down {
            Some(Action::MoveWindowToAdjacentDesktop { delta: if vk == VK_LEFT { -1i32 } else { 1i32 } })
        } else if ctrl_down || shift_down {
            None
        } else {
            Some(Action::SnapWindow {
                direction: if vk == VK_LEFT { SnapDirection::Left } else { SnapDirection::Right },
            })
        }
    } else if vk == VK_UP || vk == VK_DOWN {
        if ctrl_down || shift_down {
            None
        } else {
            Some(Action::SnapWindow {
                direction: if vk == VK_UP { SnapDirection::Up } else { SnapDirection::Down },
            })
        }
    } else if VK_1 <= vk <= VK_9 {
        Some(Action::SwitchDesktop { desktop: (vk - VK_1) as u32, move_window: shift_down })
    } else if vk == VK_OEM_3 {
        Some(Action::TogglePreviousDesktop { move_window: shift_down })
    } else if vk == VK_RETURN {
        Some(Action::LaunchWezterm { local: shift_down })
    } else if vk == VK_Q {
        Some(Action::Quit)
    } else {
        None
    }
}

pub fn shortcut_action_for_key(
    vk: u32,
    win_down: bool,
    ctrl_down: bool,
    alt_down: bool,
    shift_down: bool,
) -> (r: Option<Action>)
    ensures
        r == shortcut_spec(vk, win_down, ctrl_down, alt_down, shift_down),
{
    if !win_down || alt_down {
        return None;
    }
    if vk == VK_LEFT {
        if ctrl_down && shift_down {
            return Some(Action::MoveWindowToAdjacentDesktop { delta: -1 });
        }
        if ctrl_down || shift_down {
            return None;
        }
        return Some(Action::SnapWindow { direction: SnapDirection::Left });
    }
    if vk == VK_RIGHT {
        if ctrl_down && shift_down {
            return Some(Action::MoveWindowToAdjacentDesktop { delta: 1 });
        }
        if ctrl_down || shift_down {
            return None;
        }
        return Some(Action::SnapWindow { direction: SnapDirection::Right });
    }
    if vk == VK_UP {
        if ctrl_down || shift_down {
            return None;
        }
        return Some(Action::SnapWindow { direction: SnapDirection::Up });
    }
    if vk == VK_DOWN {
        if ctrl_down || shift_down {
            return None;
        }
        return Some(Action::SnapWindow { direction: SnapDirection::Down });
    }
    if VK_1 <= vk && vk <= VK_9 {
        let desktop = vk - VK_1;
        return Some(Action::SwitchDesktop { desktop, move_window: shift_down });
    }
    if vk == VK_OEM_3 {
        return Some(Action::TogglePreviousDesktop { move_window: shift_down });
    }
    if vk == VK_RETURN {
        return Some(Action::LaunchWezterm { local: shift_down });
    }
    if vk == VK_Q {
        return Some(Action::Quit);
    }
    None
}

pub open spec fn is_win_key(vk: u32) -> bool {
    vk == VK_LWIN || vk == VK_RWIN
}

pub fn is_win_vk(vk: u32) -> (r: bool)
    ensures
        r == is_win_key(vk),
{
    vk == VK_LWIN || vk == VK_RWIN
}

/// A keydown that the hook still tracks as down is stale when the key is no
/// longer physically down: its keyup was missed.
pub fn should_clear_stale_keydown_state(tracked_as_down: bool, physically_down: bool) -> (r: bool)
    ensures
        r == (tracked_as_down && !physically_down),
{
    tracked_as_down && !physically_down
}

/// On release of an intercepted Win key, a plain Win tap is replayed so that
/// the Start menu opens; not after a Win+drag or a Win shortcut.
pub fn should_replay_win_key(dragged: bool, combo_used: bool, intercepted: bool) -> (r: bool)
    ensures
        r == (intercepted && !dragged && !combo_used),
{
    intercepted && !dragged && !combo_used
}

/// Milliseconds from `pressed_at_ms` to `now_ms`, zero when the press lies
/// in the future.
pub open spec fn elapsed_ms(now_ms: u64, pressed_at_ms: u64) -> int {
    if now_ms >= pressed_at_ms { now_ms - pressed_at_ms } else { 0 }
}

/// A pressed key that counts for a chord: pressed within the rollover window
/// and standing for an action under the given modifiers.
pub open spec fn chord_eligible(key: (u32, u64), win_down: bool, ctrl_down: bool, alt_down: bool, shift_down: bool, now_ms: u64) -> bool {
    &&& elapsed_ms(now_ms, key.1) <= SHORTCUT_CHORD_ROLLOVER_MS
    &&& shortcut_spec(key.0, win_down, ctrl_down, alt_down, shift_down) is Some
}

/// The best chord candidate among `keys`, scanning in order and replacing
/// the candidate only by a strictly later press.
pub open spec fn best_chord(keys: Seq<(u32, u64)>, win_down: bool, ctrl_down: bool, alt_down: bool, shift_down: bool, now_ms: u64) -> Option<(Action, u64)>
    decreases keys.len(),
{
    if keys.len() == 0 {
        None
    } else {
        let prev = best_chord(keys.drop_last(), win_down, ctrl_down, alt_down, shift_down, now_ms);
        let k = keys.last();
        if chord_eligible(k, win_down, ctrl_down, alt_down, shift_down, now_ms) && (prev is None
            || k.1 > prev.unwrap().1) {
            Some((shortcut_spec(k.0, win_down, ctrl_down, alt_down, shift_down).unwrap(), k.1))
        } else {
            prev
        }
    }
}

pub open spec fn chord_spec(keys: Seq<(u32, u64)>, win_down: bool, ctrl_down: bool, alt_down: bool, shift_down: bool, now_ms: u64) -> Option<Action> {
    match best_chord(keys, win_down, ctrl_down, alt_down, shift_down, now_ms) {
        Some(p) => Some(p.0),
        None => None,
    }
}

/// Key `i` is the one a chord picks: it is eligible, no eligible key was
/// pressed later, and no eligible key before it was pressed at the same time.
pub open spec fn is_chosen_chord(keys: Seq<(u32, u64)>, i: int, win_down: bool, ctrl_down: bool, alt_down: bool, shift_down: bool, now_ms: u64) -> bool {
    &&& 0 <= i < keys.len()
    &&& chord_eligible(keys[i], win_down, ctrl_down, alt_down, shift_down, now_ms)
    &&& forall|j: int|
        0 <= j < keys.len() && chord_eligible(#[trigger] keys[j], win_down, ctrl_down, alt_down, shift_down, now_ms)
            ==> keys[j].1 <= keys[i].1
    &&& forall|j: int|
        0 <= j < i && chord_eligible(#[trigger] keys[j], win_down, ctrl_down, alt_down, shift_down, now_ms)
            ==> keys[j].1 < keys[i].1
}

proof fn lemma_best_chord_chosen(keys: Seq<(u32, u64)>, win_down: bool, ctrl_down: bool, alt_down: bool, shift_down: bool, now_ms: u64)
    ensures
        best_chord(keys, win_down, ctrl_down, alt_down, shift_down, now_ms) is None <==> forall|j: int|
            0 <= j < keys.len() ==> !chord_eligible(#[trigger] keys[j], win_down, ctrl_down, alt_down, shift_down, now_ms),
        best_chord(keys, win_down, ctrl_down, alt_down, shift_down, now_ms) is Some ==> exists|i: int|
            is_chosen_chord(keys, i, win_down, ctrl_down, alt_down, shift_down, now_ms)
                && best_chord(keys, win_down, ctrl_down, alt_down, shift_down, now_ms) == Some(
                (shortcut_spec(keys[i].0, win_down, ctrl_down, alt_down, shift_down).unwrap(), keys[i].1),
            ),
    decreases keys.len(),
{
    if keys.len() > 0 {
        let pre = keys.drop_last();
        lemma_best_chord_chosen(pre, win_down, ctrl_down, alt_down, shift_down, now_ms);
        let n = keys.len() - 1;
        assert forall|j: int| 0 <= j < pre.len() implies pre[j] == keys[j] by {}
        let prev = best_chord(pre, win_down, ctrl_down, alt_down, shift_down, now_ms);
        if prev is Some {
            let c = choose|i: int|
                is_chosen_chord(pre, i, win_down, ctrl_down, alt_down, shift_down, now_ms) && prev == Some(
                    (shortcut_spec(pre[i].0, win_down, ctrl_down, alt_down, shift_down).unwrap(), pre[i].1),
                );
            if chord_eligible(keys[n], win_down, ctrl_down, alt_down, shift_down, now_ms) && keys[n].1 > prev.unwrap().1 {
                assert(is_chosen_chord(keys, n, win_down, ctrl_down, alt_down, shift_down, now_ms));
            } else {
                assert(is_chosen_chord(keys, c, win_down, ctrl_down, alt_down, shift_down, now_ms));
            }
        } else {
            if chord_eligible(keys[n], win_down, ctrl_down, alt_down, shift_down, now_ms) {
                assert(is_chosen_chord(keys, n, win_down, ctrl_down, alt_down, shift_down, now_ms));
            }
        }
    }
}

/// The action of the most recently pressed key that forms a shortcut under
/// the given modifiers, among keys pressed at most
/// `SHORTCUT_CHORD_ROLLOVER_MS` before `now_ms`; on a tie the first such key
/// in `pressed_keys` wins. This lets a chord pressed slightly out of order,
/// such as Enter then Win, still count.
pub fn most_recent_shortcut_action_from_pressed_keys(
    pressed_keys: &[(u32, u64)],
    win_down: bool,
    ctrl_down: bool,
    alt_down: bool,
    shift_down: bool,
    now_ms: u64,
) -> (r: Option<Action>)
    ensures
        r == chord_spec(pressed_keys@, win_down, ctrl_down, alt_down, shift_down, now_ms),
        r is None <==> forall|j: int|
            0 <= j < pressed_keys@.len() ==> !chord_eligible(
                #[trigger] pressed_keys@[j],
                win_down,
                ctrl_down,
                alt_down,
                shift_down,
                now_ms,
            ),
        r is Some ==> exists|i: int|
            is_chosen_chord(pressed_keys@, i, win_down, ctrl_down, alt_down, shift_down, now_ms) && r
                == shortcut_spec(pressed_keys@[i].0, win_down, ctrl_down, alt_down, shift_down),
{
    proof {
        lemma_best_chord_chosen(pressed_keys@, win_down, ctrl_down, alt_down, shift_down, now_ms);
    }
    let mut candidate: Option<(Action, u64)> = None;
    let mut i: usize = 0;
    while i < pressed_keys.len()
        invariant
            i <= pressed_keys@.len(),
            candidate == best_chord(pressed_keys@.take(i as int), win_down, ctrl_down, alt_down, shift_down, now_ms),
        decreases pressed_keys@.len() - i,
    {
        let (vk, pressed_at_ms) = pressed_keys[i];
        proof {
            assert(pressed_keys@.take(i + 1).drop_last() =~= pressed_keys@.take(i as int));
        }
        i = i + 1;
        if now_ms.saturating_sub(pressed_at_ms) > SHORTCUT_CHORD_ROLLOVER_MS {
            continue;
        }
        let action = match shortcut_action_for_key(vk, win_down, ctrl_down, alt_down, shift_down) {
            Some(action) => action,
            None => continue,
        };
        let better = match candidate {
            None => true,
            Some((_, best_pressed_at_ms)) => pressed_at_ms > best_pressed_at_ms,
        };
        if better {
            candidate = Some((action, pressed_at_ms));
        }
    }
    proof {
        assert(pressed_keys@.take(pressed_keys@.len() as int) =~= pressed_keys@);
    }
    match candidate {
        Some((action, _)) => Some(action),
        None => None,
    }
}

pub open spec fn is_arrow_key(vk: u32) -> bool {
    vk == VK_LEFT || vk == VK_RIGHT || vk == VK_UP || vk == VK_DOWN
}

/// Shortcuts need the Win key and are all blocked by Alt; Ctrl only matters
/// for the arrow keys, and Shift never turns a non-arrow shortcut off (it
/// only selects its variant).
pub proof fn lemma_modifier_rules(vk: u32, ctrl_down: bool, shift_down: bool)
    ensures
        forall|win: bool, ctrl: bool, shift: bool| #[trigger] shortcut_spec(vk, win, ctrl, true, shift) is None,
        forall|ctrl: bool, alt: bool, shift: bool| #[trigger] shortcut_spec(vk, false, ctrl, alt, shift) is None,
        !is_arrow_key(vk) ==> shortcut_spec(vk, true, ctrl_down, false, shift_down) == shortcut_spec(
            vk,
            true,
            false,
            false,
            shift_down,
        ),
        !is_arrow_key(vk) ==> (shortcut_spec(vk, true, ctrl_down, false, shift_down) is Some <==> shortcut_spec(
            vk,
            true,
            ctrl_down,
            false,
            !shift_down,
        ) is Some),
{
}

/// The number keys 1 to 9 switch to desktops 0 to 8, the only desktop
/// shortcuts, and no Win key forms a shortcut by itself.
pub proof fn lemma_number_keys_name_desktops(vk: u32, shift_down: bool)
    ensures
        VK_1 <= vk <= VK_9 ==> shortcut_spec(vk, true, false, false, shift_down) == Some(
            Action::SwitchDesktop { desktop: (vk - VK_1) as u32, move_window: shift_down },
        ),
        shortcut_spec(vk, true, false, false, shift_down) matches Some(
            Action::SwitchDesktop { desktop, move_window },
        ) ==> desktop < 9 && vk == desktop + VK_1 && move_window == shift_down,
        is_win_key(vk) ==> forall|win: bool, ctrl: bool, alt: bool, shift: bool| #[trigger] shortcut_spec(vk, win, ctrl, alt, shift) is None,
{
}

/// With Win down and Alt up, Left and Right move the window one desktop
/// over (left to the previous, right to the next) exactly when both Ctrl and
/// Shift are down, snap it when neither is, and are left to Windows when only
/// one of them is.
pub proof fn lemma_horizontal_arrow_modifiers(vk: u32, ctrl_down: bool, shift_down: bool)
    requires
        vk == VK_LEFT || vk == VK_RIGHT,
    ensures
        ({
            let r = shortcut_spec(vk, true, ctrl_down, false, shift_down);
            let delta: i32 = if vk == VK_LEFT { -1i32 } else { 1i32 };
            let direction = if vk == VK_LEFT { SnapDirection::Left } else { SnapDirection::Right };
            &&& (r matches Some(Action::MoveWindowToAdjacentDesktop { .. })) <==> (ctrl_down && shift_down)
            &&& ctrl_down && shift_down ==> r == Some(Action::MoveWindowToAdjacentDesktop { delta })
            &&& ctrl_down != shift_down ==> r is None
            &&& !ctrl_down && !shift_down ==> r == Some(Action::SnapWindow { direction })
        }),
{
}

} // verus!
