//! The mouse hook as a state machine, and the decisions of the worker that
//! moves a dragged window.
use vstd::prelude::*;
use crate::drag::{past_threshold, DragSnapshot, DragState};
use crate::hook::{key_step, InputState, KeyEvent, KeyModel, KeyTransition, SyntheticInput};
use crate::shortcut::VK_LWIN;
use crate::snap::{fits_i32, SnapRect};

verus! {

#[derive(Clone, Copy, Debug, PartialEq, Eq, Structural)]
pub enum MouseTransition {
    LeftDown,
    Move,
    LeftUp,
    Other,
}

/// One low-level mouse message.
#[derive(Clone, Copy, Debug, PartialEq, Eq, Structural)]
pub struct MouseEvent {
    pub transition: MouseTransition,
    pub x: i32,
    pub y: i32,
    /// For a left button press while the left Win key is down: the
    /// draggable top-level window under the cursor, if any.
    pub candidate_window: Option<isize>,
}

/// The mouse hook's response: the new gesture state and whether the message
/// is hidden from the rest of the system. A press with the left Win key down
/// on a draggable window starts a gesture and is swallowed; moves only update
/// the gesture and always pass, so the cursor keeps moving; the release that
/// ends a gesture is swallowed so that the window under it sees no click.
pub open spec fn mouse_step(k: KeyModel, d: DragState, ev: MouseEvent) -> (DragState, bool) {
    match ev.transition {
        MouseTransition::LeftDown => {
            let lwin_down = k.key_down(VK_LWIN);
            let target = if lwin_down { ev.candidate_window } else { None };
            (DragState::pressed_spec(lwin_down, target, ev.x, ev.y), lwin_down && target is Some)
        },
        MouseTransition::Move => (d.moved_spec(ev.x, ev.y), false),
        MouseTransition::LeftUp => (d.ended(), d.gesture_active),
        MouseTransition::Other => (d, false),
    }
}

pub open spec fn mouse_defined(d: DragState, ev: MouseEvent) -> bool {
    ev.transition == MouseTransition::Move ==> d.move_defined(ev.x, ev.y)
}

impl InputState {
    /// Handles one mouse message; returns whether to swallow it.
    pub fn on_mouse_event(&mut self, ev: MouseEvent) -> (swallow: bool)
        requires
            old(self).wf(),
            mouse_defined(old(self).drag, ev),
        ensures
            final(self).wf(),
            final(self).keys@ == old(self).keys@,
            (final(self).drag, swallow) == mouse_step(old(self).keys@, old(self).drag, ev),
    {
        match ev.transition {
            MouseTransition::LeftDown => {
                let lwin_down = self.keys.key_is_down(VK_LWIN);
                let target_window = if lwin_down {
                    ev.candidate_window
                } else {
                    None
                };
                self.drag.on_down(lwin_down, target_window, ev.x, ev.y);
                lwin_down && target_window.is_some()
            },
            MouseTransition::Move => {
                if !self.drag.gesture_active() {
                    return false;
                }
                self.drag.on_move(ev.x, ev.y);
                false
            },
            MouseTransition::LeftUp => {
                let was_drag_gesture = self.drag.gesture_active();
                self.drag.on_up();
                was_drag_gesture
            },
            MouseTransition::Other => false,
        }
    }
}

/// A window being moved by a drag: where the drag started and where the
/// window was then.
#[derive(Clone, Copy, Debug, PartialEq, Eq, Structural)]
pub struct MoveSession {
    pub hwnd: isize,
    pub start_cursor_x: i32,
    pub start_cursor_y: i32,
    pub origin_left: i32,
    pub origin_top: i32,
    pub width: i32,
    pub height: i32,
}

/// A new session is needed when there is none or the drag is of another
/// window or started elsewhere.
pub open spec fn needs_new_session_spec(session: Option<MoveSession>, snapshot: DragSnapshot) -> bool {
    match session {
        None => true,
        Some(active) => active.hwnd != snapshot.hwnd || active.start_cursor_x != snapshot.start_x
            || active.start_cursor_y != snapshot.start_y,
    }
}

pub fn needs_new_session(session: &Option<MoveSession>, snapshot: &DragSnapshot) -> (r: bool)
    ensures
        r == needs_new_session_spec(*session, *snapshot),
{
    match session {
        None => true,
        Some(active) => active.hwnd != snapshot.hwnd || active.start_cursor_x != snapshot.start_x
            || active.start_cursor_y != snapshot.start_y,
    }
}

impl MoveSession {
    /// A session for the drag in `snapshot` of a window whose outer
    /// rectangle is `window_rect` at the start.
    pub fn begin(snapshot: &DragSnapshot, window_rect: SnapRect) -> (r: MoveSession)
        requires
            window_rect.extent_fits(),
        ensures
            r == (MoveSession {
                hwnd: snapshot.hwnd,
                start_cursor_x: snapshot.start_x,
                start_cursor_y: snapshot.start_y,
                origin_left: window_rect.left,
                origin_top: window_rect.top,
                width: window_rect.spec_width() as i32,
                height: window_rect.spec_height() as i32,
            }),
    {
        MoveSession {
            hwnd: snapshot.hwnd,
            start_cursor_x: snapshot.start_x,
            start_cursor_y: snapshot.start_y,
            origin_left: window_rect.left,
            origin_top: window_rect.top,
            width: window_rect.width(),
            height: window_rect.height(),
        }
    }

    pub open spec fn position_defined(self, snapshot: DragSnapshot) -> bool {
        &&& fits_i32(snapshot.cursor_x - self.start_cursor_x)
        &&& fits_i32(snapshot.cursor_y - self.start_cursor_y)
        &&& fits_i32(self.origin_left + (snapshot.cursor_x - self.start_cursor_x))
        &&& fits_i32(self.origin_top + (snapshot.cursor_y - self.start_cursor_y))
    }

    /// Where the window's top-left corner goes: it moves by exactly as much
    /// as the cursor has moved since the drag started.
    pub fn position_for(&self, snapshot: &DragSnapshot) -> (r: (i32, i32))
        requires
            self.position_defined(*snapshot),
        ensures
            r.0 - self.origin_left == snapshot.cursor_x - self.start_cursor_x,
            r.1 - self.origin_top == snapshot.cursor_y - self.start_cursor_y,
    {
        let new_x = self.origin_left + (snapshot.cursor_x - self.start_cursor_x);
        let new_y = self.origin_top + (snapshot.cursor_y - self.start_cursor_y);
        (new_x, new_y)
    }

    /// Decides `position_defined` without overflowing.
    pub fn position_is_defined(&self, snapshot: &DragSnapshot) -> (r: bool)
        ensures
            r == self.position_defined(*snapshot),
    {
        let dx = snapshot.cursor_x as i64 - self.start_cursor_x as i64;
        let dy = snapshot.cursor_y as i64 - self.start_cursor_y as i64;
        let x = self.origin_left as i64 + dx;
        let y = self.origin_top as i64 + dy;
        -2147483648i64 <= dx && dx <= 2147483647i64 && -2147483648i64 <= dy && dy <= 2147483647i64
            && -2147483648i64 <= x && x <= 2147483647i64 && -2147483648i64 <= y && y
            <= 2147483647i64
    }
}

/// Cursor moves are never hidden from the system, whatever the gesture
/// state, so the cursor keeps following the mouse during a drag.
pub proof fn lemma_moves_always_pass(k: KeyModel, d: DragState, ev: MouseEvent)
    requires
        ev.transition == MouseTransition::Move,
    ensures
        !mouse_step(k, d, ev).1,
{
}

/// Without the left Win key a button press starts no gesture and is not
/// swallowed, and the following release is not swallowed either.
pub proof fn lemma_plain_click_passes(k: KeyModel, d: DragState, down: MouseEvent, up: MouseEvent)
    requires
        !k.key_down(VK_LWIN),
        down.transition == MouseTransition::LeftDown,
        up.transition == MouseTransition::LeftUp,
    ensures
        ({
            let (d1, s1) = mouse_step(k, d, down);
            let (d2, s2) = mouse_step(k, d1, up);
            &&& !s1 && !d1.gesture_active
            &&& !s2
        }),
{
}

/// Win+drag moves a window without side effects: with the left Win key
/// pressed, a button press on a draggable window is swallowed and starts a
/// gesture; a move past the threshold passes and hands the worker the window
/// and both cursor points; the button release is swallowed and ends the
/// drag; and the Win release is swallowed without replaying a tap, so the
/// Start menu stays closed.
pub proof fn lemma_win_drag_is_silent(
    k: KeyModel,
    d: DragState,
    win_press: KeyEvent,
    down: MouseEvent,
    moved: MouseEvent,
    up: MouseEvent,
    win_release: KeyEvent,
)
    requires
        k.wf(),
        !win_press.injected && win_press.transition == KeyTransition::Down && win_press.vk == VK_LWIN,
        !(k.key_down(VK_LWIN) && win_press.physically_down),
        down.transition == MouseTransition::LeftDown,
        down.candidate_window matches Some(h) && h != 0,
        moved.transition == MouseTransition::Move,
        fits_i32(moved.x - down.x) && fits_i32(moved.y - down.y),
        past_threshold(down.x, down.y, moved.x, moved.y),
        up.transition == MouseTransition::LeftUp,
        !win_release.injected && win_release.transition == KeyTransition::Up && win_release.vk == VK_LWIN,
    ensures
        ({
            let (k1, d1, o1) = key_step(k, d, win_press);
            let (d2, s2) = mouse_step(k1, d1, down);
            let (d3, s3) = mouse_step(k1, d2, moved);
            let (d4, s4) = mouse_step(k1, d3, up);
            let (k5, d5, o5) = key_step(k1, d4, win_release);
            &&& o1.swallow
            &&& s2 && d2.gesture_active
            &&& !s3 && d3.snapshot_spec() == Some(
                DragSnapshot {
                    hwnd: down.candidate_window.unwrap(),
                    start_x: down.x,
                    start_y: down.y,
                    cursor_x: moved.x,
                    cursor_y: moved.y,
                },
            )
            &&& s4 && d4.snapshot_spec() is None
            &&& o5.swallow && o5.synthetic == SyntheticInput::Nothing
        }),
{
}

} // verus!
