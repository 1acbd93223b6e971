//! The Win+drag gesture: a left button press on a draggable window while
//! the left Win key is down starts a gesture, which turns into a drag once the
//! cursor has moved far enough. The state lives here; a worker reads
//! snapshots of it to move the window.
use vstd::prelude::*;
use crate::snap::fits_i32;

verus! {

/// Squared distance, in pixels, the cursor must travel before a gesture
/// becomes a drag.
pub const DRAG_THRESHOLD_SQ: i32 = 16;

/// What the move worker needs of an active drag.
#[derive(Clone, Copy, Debug, PartialEq, Eq, Structural)]
pub struct DragSnapshot {
    pub hwnd: isize,
    pub start_x: i32,
    pub start_y: i32,
    pub cursor_x: i32,
    pub cursor_y: i32,
}

#[derive(Clone, Copy, Debug, PartialEq, Eq, Structural)]
pub struct DragState {
    /// A button press started a gesture on a draggable window.
    pub gesture_active: bool,
    /// The cursor has moved past the threshold since the press.
    pub drag_triggered: bool,
    /// The next release of the left Win key belongs to a drag and must not
    /// open the Start menu.
    pub consume_next_lwin_keyup: bool,
    /// The window being dragged, or 0.
    pub candidate_hwnd: isize,
    pub start_x: i32,
    pub start_y: i32,
    pub cursor_x: i32,
    pub cursor_y: i32,
}

/// `d * d` saturated at `i32::MAX`, as `i32::saturating_mul` gives it.
pub open spec fn saturating_square(d: int) -> int {
    if d * d > i32::MAX { i32::MAX as int } else { d * d }
}

/// The cursor at `(x, y)` is far enough from `(start_x, start_y)` to start a
/// drag.
pub open spec fn past_threshold(start_x: i32, start_y: i32, x: i32, y: i32) -> bool {
    saturating_square(x - start_x) + saturating_square(y - start_y) >= DRAG_THRESHOLD_SQ
}

fn saturating_square_i32(d: i32) -> (r: i32)
    ensures
        r == saturating_square(d as int),
        r >= 0,
{
    let wide = d as i64;
    assert(0 <= wide * wide <= 0x4000_0000_0000_0000) by (nonlinear_arith)
        requires
            -0x8000_0000 <= wide <= 0x7fff_ffff,
    ;
    let p = wide * wide;
    if p > 2147483647i64 {
        2147483647i32
    } else {
        p as i32
    }
}

impl DragState {
    /// The state of a gesture that ended or was cancelled.
    pub open spec fn ended(self) -> DragState {
        DragState { gesture_active: false, drag_triggered: false, candidate_hwnd: 0, ..self }
    }

    /// `on_move` computes without overflow: while a gesture waits for its
    /// threshold, the offsets from the start point and the sum of their
    /// saturated squares are `i32` values.
    pub open spec fn move_defined(self, x: i32, y: i32) -> bool {
        self.gesture_active && !self.drag_triggered ==> {
            &&& fits_i32(x - self.start_x)
            &&& fits_i32(y - self.start_y)
            &&& fits_i32(saturating_square(x - self.start_x) + saturating_square(y - self.start_y))
        }
    }

    /// The state after a left button press at `(x, y)`: a gesture starts
    /// when the left Win key is down and a window is given, and every press
    /// resets the points and the drag flags.
    pub open spec fn pressed_spec(lwin_down: bool, candidate_window: Option<isize>, x: i32, y: i32) -> DragState {
        let candidate = match candidate_window {
            Some(h) => h,
            None => 0,
        };
        let active = lwin_down && candidate != 0;
        DragState {
            gesture_active: active,
            drag_triggered: false,
            consume_next_lwin_keyup: false,
            candidate_hwnd: if active { candidate } else { 0 },
            start_x: x,
            start_y: y,
            cursor_x: x,
            cursor_y: y,
        }
    }

    /// The state after the cursor moved to `(x, y)`. Outside a gesture
    /// nothing changes; inside one the cursor is recorded, and the first move
    /// past the threshold triggers the drag and marks the Win key release as
    /// consumed.
    pub open spec fn moved_spec(self, x: i32, y: i32) -> DragState {
        if !self.gesture_active {
            self
        } else {
            let triggers = !self.drag_triggered && past_threshold(self.start_x, self.start_y, x, y);
            DragState {
                cursor_x: x,
                cursor_y: y,
                drag_triggered: self.drag_triggered || triggers,
                consume_next_lwin_keyup: self.consume_next_lwin_keyup || triggers,
                ..self
            }
        }
    }

    pub open spec fn snapshot_spec(self) -> Option<DragSnapshot> {
        if self.gesture_active && self.drag_triggered && self.candidate_hwnd != 0 {
            Some(
                DragSnapshot {
                    hwnd: self.candidate_hwnd,
                    start_x: self.start_x,
                    start_y: self.start_y,
                    cursor_x: self.cursor_x,
                    cursor_y: self.cursor_y,
                },
            )
        } else {
            None
        }
    }

    /// No gesture, all points at the origin.
    pub open spec fn new_spec() -> DragState {
        DragState {
            gesture_active: false,
            drag_triggered: false,
            consume_next_lwin_keyup: false,
            candidate_hwnd: 0,
            start_x: 0,
            start_y: 0,
            cursor_x: 0,
            cursor_y: 0,
        }
    }

    pub fn new() -> (r: DragState)
        ensures
            r == DragState::new_spec(),
    {
        DragState {
            gesture_active: false,
            drag_triggered: false,
            consume_next_lwin_keyup: false,
            candidate_hwnd: 0,
            start_x: 0,
            start_y: 0,
            cursor_x: 0,
            cursor_y: 0,
        }
    }

    /// A left button press at `(x, y)`. A gesture starts when the left Win
    /// key is down and a window is given; every press resets the start and
    /// cursor points and the drag flags.
    pub fn on_down(&mut self, lwin_down: bool, candidate_window: Option<isize>, x: i32, y: i32)
        ensures
            *final(self) == DragState::pressed_spec(lwin_down, candidate_window, x, y),
    {
        let candidate = match candidate_window {
            Some(hwnd) => hwnd,
            None => 0,
        };
        let active = lwin_down && candidate != 0;
        self.candidate_hwnd = if active { candidate } else { 0 };
        self.start_x = x;
        self.start_y = y;
        self.cursor_x = x;
        self.cursor_y = y;
        self.drag_triggered = false;
        self.consume_next_lwin_keyup = false;
        self.gesture_active = active;
    }

    /// The cursor moved to `(x, y)`. Outside a gesture nothing changes;
    /// inside one the cursor is recorded, and the first move past the
    /// threshold triggers the drag and marks the Win key release as consumed.
    pub fn on_move(&mut self, x: i32, y: i32)
        requires
            old(self).move_defined(x, y),
        ensures
            *final(self) == old(self).moved_spec(x, y),
    {
        if !self.gesture_active {
            return;
        }
        self.cursor_x = x;
        self.cursor_y = y;
        if self.drag_triggered {
            return;
        }
        let dx = x - self.start_x;
        let dy = y - self.start_y;
        if saturating_square_i32(dx) + saturating_square_i32(dy) < DRAG_THRESHOLD_SQ {
            return;
        }
        self.drag_triggered = true;
        self.consume_next_lwin_keyup = true;
    }

    /// The left button was released: the gesture ends.
    pub fn on_up(&mut self)
        ensures
            *final(self) == old(self).ended(),
    {
        self.gesture_active = false;
        self.drag_triggered = false;
        self.candidate_hwnd = 0;
    }

    /// The gesture is abandoned, as when the Win key goes up.
    pub fn on_cancel(&mut self)
        ensures
            *final(self) == old(self).ended(),
    {
        self.gesture_active = false;
        self.drag_triggered = false;
        self.candidate_hwnd = 0;
    }

    /// Decides `move_defined` without overflowing.
    pub fn move_is_defined(&self, x: i32, y: i32) -> (r: bool)
        ensures
            r == self.move_defined(x, y),
    {
        if !self.gesture_active || self.drag_triggered {
            return true;
        }
        let dx = x as i64 - self.start_x as i64;
        let dy = y as i64 - self.start_y as i64;
        if dx < -2147483648i64 || dx > 2147483647i64 || dy < -2147483648i64 || dy > 2147483647i64 {
            return false;
        }
        let sx = saturating_square_i32(dx as i32);
        let sy = saturating_square_i32(dy as i32);
        assert(dx as i32 == x - self.start_x);
        assert(dy as i32 == y - self.start_y);
        let sum = sx as i64 + sy as i64;
        sum <= 2147483647i64
    }

    pub fn gesture_active(&self) -> (r: bool)
        ensures
            r == self.gesture_active,
    {
        self.gesture_active
    }

    /// What the move worker should act on: only a triggered drag of a known
    /// window.
    pub fn snapshot_for_worker(&self) -> (r: Option<DragSnapshot>)
        ensures
            r == self.snapshot_spec(),
    {
        if !self.gesture_active || !self.drag_triggered {
            return None;
        }
        if self.candidate_hwnd == 0 {
            return None;
        }
        Some(
            DragSnapshot {
                hwnd: self.candidate_hwnd,
                start_x: self.start_x,
                start_y: self.start_y,
                cursor_x: self.cursor_x,
                cursor_y: self.cursor_y,
            },
        )
    }

    /// Reads and clears the flag that the next Win key release belongs to a
    /// drag.
    pub fn take_consume_next_lwin_keyup(&mut self) -> (r: bool)
        ensures
            r == old(self).consume_next_lwin_keyup,
            *final(self) == (DragState { consume_next_lwin_keyup: false, ..*old(self) }),
    {
        let consume = self.consume_next_lwin_keyup;
        self.consume_next_lwin_keyup = false;
        consume
    }
}

/// While a gesture is active every move records the cursor, before and
/// after the drag triggers, and keeps the window and the start point; so the
/// worker's snapshot of a triggered drag follows the latest cursor position.
/// Outside a gesture a move changes nothing. Once triggered, a drag stays
/// triggered until the gesture ends.
pub proof fn lemma_moves_track_cursor(d: DragState, x: i32, y: i32)
    ensures
        ({
            let m = d.moved_spec(x, y);
            &&& d.gesture_active ==> m.cursor_x == x && m.cursor_y == y
            &&& m.gesture_active == d.gesture_active
            &&& m.candidate_hwnd == d.candidate_hwnd
            &&& m.start_x == d.start_x && m.start_y == d.start_y
            &&& d.drag_triggered ==> m.drag_triggered
            &&& !d.gesture_active ==> m == d
            &&& (d.gesture_active && d.drag_triggered && d.candidate_hwnd != 0) ==> m.snapshot_spec() == Some(
                DragSnapshot {
                    hwnd: d.candidate_hwnd,
                    start_x: d.start_x,
                    start_y: d.start_y,
                    cursor_x: x,
                    cursor_y: y,
                },
            )
        }),
{
}

} // verus!
