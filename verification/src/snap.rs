//! Snap layouts: the eight half and quadrant rectangles of a monitor work
//! area, how a window rectangle is classified against them, and which
//! rectangle a snap shortcut moves the window to next.
use vstd::prelude::*;

verus! {

/// Pixels by which a window may miss a layout rectangle and still count as
/// snapped to it.
pub const SNAP_TOLERANCE_PX: i32 = 8;

#[derive(Clone, Copy, Debug, PartialEq, Eq, Structural)]
pub enum SnapDirection {
    Left,
    Right,
    Up,
    Down,
}

#[derive(Clone, Copy, Debug, PartialEq, Eq, Structural)]
pub enum SnapState {
    Other,
    Maximized,
    LeftHalf,
    RightHalf,
    TopHalf,
    BottomHalf,
    TopLeft,
    TopRight,
    BottomLeft,
    BottomRight,
}

/// A screen rectangle in the Win32 convention: `right` and `bottom` are
/// exclusive edges.
#[derive(Clone, Copy, Debug, PartialEq, Eq, Structural)]
pub struct SnapRect {
    pub left: i32,
    pub top: i32,
    pub right: i32,
    pub bottom: i32,
}

#[derive(Clone, Copy, Debug, PartialEq, Eq, Structural)]
pub enum TargetWindowState {
    Rect(SnapRect),
    Maximized,
}

/// Width of the invisible resize border on each side of a window: the
/// distance between its outer rectangle and its visible frame.
#[derive(Clone, Copy, Debug, PartialEq, Eq, Structural)]
pub struct FrameInsets {
    pub left: i32,
    pub top: i32,
    pub right: i32,
    pub bottom: i32,
}

#[derive(Clone, Copy, Debug, PartialEq, Eq, Structural)]
pub struct SnapLayout {
    pub left_half: SnapRect,
    pub right_half: SnapRect,
    pub top_half: SnapRect,
    pub bottom_half: SnapRect,
    pub top_left: SnapRect,
    pub top_right: SnapRect,
    pub bottom_left: SnapRect,
    pub bottom_right: SnapRect,
}

pub open spec fn fits_i32(x: int) -> bool {
    i32::MIN <= x <= i32::MAX
}

/// `x` can be negated without overflow and is an `i32`.
pub open spec fn has_i32_abs(x: int) -> bool {
    -i32::MAX <= x <= i32::MAX
}

pub open spec fn abs(x: int) -> int {
    if x < 0 { -x } else { x }
}

/// Integer division by two rounding toward zero, as `i32 / 2` does.
pub open spec fn half_toward_zero(x: int) -> int {
    if x >= 0 { x / 2 } else { -((-x) / 2) }
}

pub open spec fn rect(left: int, top: int, right: int, bottom: int) -> SnapRect {
    SnapRect { left: left as i32, top: top as i32, right: right as i32, bottom: bottom as i32 }
}

impl SnapRect {
    pub open spec fn spec_width(self) -> int {
        self.right - self.left
    }

    pub open spec fn spec_height(self) -> int {
        self.bottom - self.top
    }

    /// Width and height are both `i32` values.
    pub open spec fn extent_fits(self) -> bool {
        fits_i32(self.spec_width()) && fits_i32(self.spec_height())
    }

    pub fn width(self) -> (r: i32)
        requires
            fits_i32(self.spec_width()),
        ensures
            r == self.spec_width(),
    {
        self.right - self.left
    }

    pub fn height(self) -> (r: i32)
        requires
            fits_i32(self.spec_height()),
        ensures
            r == self.spec_height(),
    {
        self.bottom - self.top
    }
}

/// The vertical line splitting a work area into its left and right halves;
/// an odd remainder goes to the right half.
pub open spec fn mid_x(work_area: SnapRect) -> int {
    work_area.left + half_toward_zero(work_area.spec_width())
}

/// The horizontal line splitting a work area into its top and bottom halves;
/// an odd remainder goes to the bottom half.
pub open spec fn mid_y(work_area: SnapRect) -> int {
    work_area.top + half_toward_zero(work_area.spec_height())
}

/// The eight snap rectangles of a work area.
pub open spec fn layout_of(w: SnapRect) -> SnapLayout {
    let mx = mid_x(w);
    let my = mid_y(w);
    SnapLayout {
        left_half: rect(w.left as int, w.top as int, mx, w.bottom as int),
        right_half: rect(mx, w.top as int, w.right as int, w.bottom as int),
        top_half: rect(w.left as int, w.top as int, w.right as int, my),
        bottom_half: rect(w.left as int, my, w.right as int, w.bottom as int),
        top_left: rect(w.left as int, w.top as int, mx, my),
        top_right: rect(mx, w.top as int, w.right as int, my),
        bottom_left: rect(w.left as int, my, mx, w.bottom as int),
        bottom_right: rect(mx, my, w.right as int, w.bottom as int),
    }
}

proof fn lemma_mid_between(lo: i32, hi: i32)
    requires
        fits_i32(hi - lo),
    ensures
        lo <= hi ==> lo <= lo + half_toward_zero(hi - lo) <= hi,
        hi < lo ==> hi <= lo + half_toward_zero(hi - lo) <= lo,
{
}

impl SnapLayout {
    pub fn new(work_area: SnapRect) -> (r: SnapLayout)
        requires
            work_area.extent_fits(),
        ensures
            r == layout_of(work_area),
    {
        proof {
            lemma_mid_between(work_area.left, work_area.right);
            lemma_mid_between(work_area.top, work_area.bottom);
        }
        let mid_x = work_area.left + work_area.width() / 2;
        let mid_y = work_area.top + work_area.height() / 2;

        let left_half = SnapRect {
            left: work_area.left,
            top: work_area.top,
            right: mid_x,
            bottom: work_area.bottom,
        };
        let right_half = SnapRect {
            left: mid_x,
            top: work_area.top,
            right: work_area.right,
            bottom: work_area.bottom,
        };
        let top_half = SnapRect {
            left: work_area.left,
            top: work_area.top,
            right: work_area.right,
            bottom: mid_y,
        };
        let bottom_half = SnapRect {
            left: work_area.left,
            top: mid_y,
            right: work_area.right,
            bottom: work_area.bottom,
        };
        SnapLayout {
            left_half,
            right_half,
            top_half,
            bottom_half,
            top_left: SnapRect {
                left: left_half.left,
                top: top_half.top,
                right: left_half.right,
                bottom: top_half.bottom,
            },
            top_right: SnapRect {
                left: right_half.left,
                top: top_half.top,
                right: right_half.right,
                bottom: top_half.bottom,
            },
            bottom_left: SnapRect {
                left: left_half.left,
                top: bottom_half.top,
                right: left_half.right,
                bottom: bottom_half.bottom,
            },
            bottom_right: SnapRect {
                left: right_half.left,
                top: bottom_half.top,
                right: right_half.right,
                bottom: bottom_half.bottom,
            },
        }
    }
}

/// Whether `actual` lies within `tolerance` pixels of `expected` on every edge.
pub open spec fn within_tolerance(actual: SnapRect, expected: SnapRect, tolerance: int) -> bool {
    &&& abs(actual.left - expected.left) <= tolerance
    &&& abs(actual.top - expected.top) <= tolerance
    &&& abs(actual.right - expected.right) <= tolerance
    &&& abs(actual.bottom - expected.bottom) <= tolerance
}

/// The edge differences that `rect_matches` computes, in the order it
/// computes them and stopping at the first one out of tolerance, have an
/// `i32` absolute value.
pub open spec fn matches_defined(actual: SnapRect, expected: SnapRect, tolerance: int) -> bool {
    &&& has_i32_abs(actual.left - expected.left)
    &&& abs(actual.left - expected.left) <= tolerance ==> {
        &&& has_i32_abs(actual.top - expected.top)
        &&& abs(actual.top - expected.top) <= tolerance ==> {
            &&& has_i32_abs(actual.right - expected.right)
            &&& abs(actual.right - expected.right) <= tolerance ==> has_i32_abs(
                actual.bottom - expected.bottom,
            )
        }
    }
}

fn abs_i32(x: i32) -> (r: i32)
    requires
        x != i32::MIN,
    ensures
        r == abs(x as int),
{
    if x < 0 {
        -x
    } else {
        x
    }
}

pub fn rect_matches(actual: SnapRect, expected: SnapRect, tolerance: i32) -> (r: bool)
    requires
        matches_defined(actual, expected, tolerance as int),
    ensures
        r == within_tolerance(actual, expected, tolerance as int),
{
    abs_i32(actual.left - expected.left) <= tolerance && abs_i32(actual.top - expected.top)
        <= tolerance && abs_i32(actual.right - expected.right) <= tolerance && abs_i32(
        actual.bottom - expected.bottom,
    ) <= tolerance
}

/// The state of a window whose visible frame is `r`: the first layout
/// rectangle within tolerance of it, quadrants before halves, in the order
/// top-left, top-right, bottom-left, bottom-right, left, right, top, bottom.
#[verifier::opaque]
pub open spec fn classify_spec(r: SnapRect, work_area: SnapRect) -> SnapState {
    let l = layout_of(work_area);
    let t = SNAP_TOLERANCE_PX as int;
    if within_tolerance(r, l.top_left, t) {
        SnapState::TopLeft
    } else if within_tolerance(r, l.top_right, t) {
        SnapState::TopRight
    } else if within_tolerance(r, l.bottom_left, t) {
        SnapState::BottomLeft
    } else if within_tolerance(r, l.bottom_right, t) {
        SnapState::BottomRight
    } else if within_tolerance(r, l.left_half, t) {
        SnapState::LeftHalf
    } else if within_tolerance(r, l.right_half, t) {
        SnapState::RightHalf
    } else if within_tolerance(r, l.top_half, t) {
        SnapState::TopHalf
    } else if within_tolerance(r, l.bottom_half, t) {
        SnapState::BottomHalf
    } else {
        SnapState::Other
    }
}

/// `classify_rect` computes without overflow: the work area's extent fits
/// and each comparison it reaches is defined.
pub open spec fn classify_defined(r: SnapRect, work_area: SnapRect) -> bool {
    let l = layout_of(work_area);
    let t = SNAP_TOLERANCE_PX as int;
    &&& work_area.extent_fits()
    &&& matches_defined(r, l.top_left, t)
    &&& !within_tolerance(r, l.top_left, t) ==> {
        &&& matches_defined(r, l.top_right, t)
        &&& !within_tolerance(r, l.top_right, t) ==> {
            &&& matches_defined(r, l.bottom_left, t)
            &&& !within_tolerance(r, l.bottom_left, t) ==> {
                &&& matches_defined(r, l.bottom_right, t)
                &&& !within_tolerance(r, l.bottom_right, t) ==> {
                    &&& matches_defined(r, l.left_half, t)
                    &&& !within_tolerance(r, l.left_half, t) ==> {
                        &&& matches_defined(r, l.right_half, t)
                        &&& !within_tolerance(r, l.right_half, t) ==> {
                            &&& matches_defined(r, l.top_half, t)
                            &&& !within_tolerance(r, l.top_half, t) ==> matches_defined(
                                r,
                                l.bottom_half,
                                t,
                            )
                        }
                    }
                }
            }
        }
    }
}

pub fn classify_rect(rect: SnapRect, work_area: SnapRect) -> (r: SnapState)
    requires
        classify_defined(rect, work_area),
    ensures
        r == classify_spec(rect, work_area),
{
    reveal(classify_spec);
    let layout = SnapLayout::new(work_area);
    if rect_matches(rect, layout.top_left, SNAP_TOLERANCE_PX) {
        return SnapState::TopLeft;
    }
    if rect_matches(rect, layout.top_right, SNAP_TOLERANCE_PX) {
        return SnapState::TopRight;
    }
    if rect_matches(rect, layout.bottom_left, SNAP_TOLERANCE_PX) {
        return SnapState::BottomLeft;
    }
    if rect_matches(rect, layout.bottom_right, SNAP_TOLERANCE_PX) {
        return SnapState::BottomRight;
    }
    if rect_matches(rect, layout.left_half, SNAP_TOLERANCE_PX) {
        return SnapState::LeftHalf;
    }
    if rect_matches(rect, layout.right_half, SNAP_TOLERANCE_PX) {
        return SnapState::RightHalf;
    }
    if rect_matches(rect, layout.top_half, SNAP_TOLERANCE_PX) {
        return SnapState::TopHalf;
    }
    if rect_matches(rect, layout.bottom_half, SNAP_TOLERANCE_PX) {
        return SnapState::BottomHalf;
    }
    SnapState::Other
}

/// Where a snap shortcut sends a window in `state`. Left and right keep the
/// window's row (top or bottom quadrant) when it has one and otherwise take
/// the whole side; up and down keep its column likewise; up from the top half
/// maximizes; up or down from a maximized window gives the top half.
pub open spec fn target_spec(state: SnapState, direction: SnapDirection, work_area: SnapRect) -> TargetWindowState {
    let l = layout_of(work_area);
    match direction {
        SnapDirection::Left => TargetWindowState::Rect(
            match state {
                SnapState::TopRight | SnapState::TopHalf => l.top_left,
                SnapState::BottomRight | SnapState::BottomHalf => l.bottom_left,
                _ => l.left_half,
            },
        ),
        SnapDirection::Right => TargetWindowState::Rect(
            match state {
                SnapState::TopLeft | SnapState::TopHalf => l.top_right,
                SnapState::BottomLeft | SnapState::BottomHalf => l.bottom_right,
                _ => l.right_half,
            },
        ),
        SnapDirection::Up => match state {
            SnapState::TopHalf => TargetWindowState::Maximized,
            SnapState::BottomLeft | SnapState::LeftHalf => TargetWindowState::Rect(l.top_left),
            SnapState::BottomRight | SnapState::RightHalf => TargetWindowState::Rect(l.top_right),
            _ => TargetWindowState::Rect(l.top_half),
        },
        SnapDirection::Down => TargetWindowState::Rect(
            match state {
                SnapState::Maximized => l.top_half,
                SnapState::TopLeft | SnapState::LeftHalf => l.bottom_left,
                SnapState::TopRight | SnapState::RightHalf => l.bottom_right,
                _ => l.bottom_half,
            },
        ),
    }
}

pub fn target_state_for_direction(
    state: SnapState,
    direction: SnapDirection,
    work_area: SnapRect,
) -> (r: TargetWindowState)
    requires
        work_area.extent_fits(),
    ensures
        r == target_spec(state, direction, work_area),
{
    let layout = SnapLayout::new(work_area);
    match direction {
        SnapDirection::Left => TargetWindowState::Rect(
            match state {
                SnapState::Maximized => layout.left_half,
                SnapState::TopRight => layout.top_left,
                SnapState::BottomRight => layout.bottom_left,
                SnapState::TopHalf => layout.top_left,
                SnapState::BottomHalf => layout.bottom_left,
                SnapState::TopLeft | SnapState::BottomLeft => layout.left_half,
                _ => layout.left_half,
            },
        ),
        SnapDirection::Right => TargetWindowState::Rect(
            match state {
                SnapState::Maximized => layout.right_half,
                SnapState::TopLeft => layout.top_right,
                SnapState::BottomLeft => layout.bottom_right,
                SnapState::TopHalf => layout.top_right,
                SnapState::BottomHalf => layout.bottom_right,
                SnapState::TopRight | SnapState::BottomRight => layout.right_half,
                _ => layout.right_half,
            },
        ),
        SnapDirection::Up => match state {
            SnapState::TopHalf => TargetWindowState::Maximized,
            _ => TargetWindowState::Rect(
                match state {
                    SnapState::BottomLeft => layout.top_left,
                    SnapState::BottomRight => layout.top_right,
                    SnapState::LeftHalf => layout.top_left,
                    SnapState::RightHalf => layout.top_right,
                    SnapState::TopLeft | SnapState::TopRight => layout.top_half,
                    _ => layout.top_half,
                },
            ),
        },
        SnapDirection::Down => TargetWindowState::Rect(
            match state {
                SnapState::Maximized => layout.top_half,
                SnapState::TopLeft => layout.bottom_left,
                SnapState::TopRight => layout.bottom_right,
                SnapState::LeftHalf => layout.bottom_left,
                SnapState::RightHalf => layout.bottom_right,
                SnapState::BottomLeft | SnapState::BottomRight => layout.bottom_half,
                _ => layout.bottom_half,
            },
        ),
    }
}

pub open spec fn insets_spec(outer_rect: SnapRect, visible_rect: SnapRect) -> FrameInsets {
    FrameInsets {
        left: (visible_rect.left - outer_rect.left) as i32,
        top: (visible_rect.top - outer_rect.top) as i32,
        right: (outer_rect.right - visible_rect.right) as i32,
        bottom: (outer_rect.bottom - visible_rect.bottom) as i32,
    }
}

pub open spec fn insets_defined(outer_rect: SnapRect, visible_rect: SnapRect) -> bool {
    &&& fits_i32(visible_rect.left - outer_rect.left)
    &&& fits_i32(visible_rect.top - outer_rect.top)
    &&& fits_i32(outer_rect.right - visible_rect.right)
    &&& fits_i32(outer_rect.bottom - visible_rect.bottom)
}

pub fn frame_insets(outer_rect: SnapRect, visible_rect: SnapRect) -> (r: FrameInsets)
    requires
        insets_defined(outer_rect, visible_rect),
    ensures
        r == insets_spec(outer_rect, visible_rect),
{
    FrameInsets {
        left: visible_rect.left - outer_rect.left,
        top: visible_rect.top - outer_rect.top,
        right: outer_rect.right - visible_rect.right,
        bottom: outer_rect.bottom - visible_rect.bottom,
    }
}

pub open spec fn outer_spec(target_visible_rect: SnapRect, insets: FrameInsets) -> SnapRect {
    rect(
        target_visible_rect.left - insets.left,
        target_visible_rect.top - insets.top,
        target_visible_rect.right + insets.right,
        target_visible_rect.bottom + insets.bottom,
    )
}

pub open spec fn outer_defined(target_visible_rect: SnapRect, insets: FrameInsets) -> bool {
    &&& fits_i32(target_visible_rect.left - insets.left)
    &&& fits_i32(target_visible_rect.top - insets.top)
    &&& fits_i32(target_visible_rect.right + insets.right)
    &&& fits_i32(target_visible_rect.bottom + insets.bottom)
}

pub fn outer_rect_for_visible_target(target_visible_rect: SnapRect, frame_insets: FrameInsets) -> (r: SnapRect)
    requires
        outer_defined(target_visible_rect, frame_insets),
    ensures
        r == outer_spec(target_visible_rect, frame_insets),
{
    SnapRect {
        left: target_visible_rect.left - frame_insets.left,
        top: target_visible_rect.top - frame_insets.top,
        right: target_visible_rect.right + frame_insets.right,
        bottom: target_visible_rect.bottom + frame_insets.bottom,
    }
}

/// A work area large enough that its eight layout rectangles are pairwise
/// more than the snap tolerance apart: each half is at least
/// `2 * SNAP_TOLERANCE_PX + 2` pixels across.
pub open spec fn roomy(work_area: SnapRect) -> bool {
    &&& work_area.extent_fits()
    &&& work_area.spec_width() >= 2 * SNAP_TOLERANCE_PX + 2
    &&& work_area.spec_height() >= 2 * SNAP_TOLERANCE_PX + 2
}

/// The state a window reaches when one snap shortcut is applied to a window
/// in `state` and the result is classified again.
pub open spec fn snap_step(state: SnapState, direction: SnapDirection, work_area: SnapRect) -> SnapState {
    match target_spec(state, direction, work_area) {
        TargetWindowState::Maximized => SnapState::Maximized,
        TargetWindowState::Rect(r) => classify_spec(r, work_area),
    }
}

/// The halves split a work area of non-negative extent exactly: the left
/// and right halves meet at one vertical line and the top and bottom halves at
/// one horizontal line, an odd pixel goes to the right or bottom half, and each
/// quadrant takes its columns from a side half and its rows from a top or
/// bottom half.
pub proof fn lemma_layout_tiles_work_area(work_area: SnapRect)
    requires
        work_area.extent_fits(),
        work_area.left <= work_area.right,
        work_area.top <= work_area.bottom,
    ensures
        ({
            let l = layout_of(work_area);
            &&& l.left_half.left == work_area.left && l.right_half.right == work_area.right
            &&& l.left_half.right == l.right_half.left
            &&& l.left_half.spec_width() + l.right_half.spec_width() == work_area.spec_width()
            &&& 0 <= l.right_half.spec_width() - l.left_half.spec_width() <= 1
            &&& l.top_half.top == work_area.top && l.bottom_half.bottom == work_area.bottom
            &&& l.top_half.bottom == l.bottom_half.top
            &&& l.top_half.spec_height() + l.bottom_half.spec_height() == work_area.spec_height()
            &&& 0 <= l.bottom_half.spec_height() - l.top_half.spec_height() <= 1
            &&& l.left_half.top == work_area.top && l.left_half.bottom == work_area.bottom
            &&& l.right_half.top == work_area.top && l.right_half.bottom == work_area.bottom
            &&& l.top_half.left == work_area.left && l.top_half.right == work_area.right
            &&& l.bottom_half.left == work_area.left && l.bottom_half.right == work_area.right
            &&& l.top_left == rect(
                l.left_half.left as int,
                l.top_half.top as int,
                l.left_half.right as int,
                l.top_half.bottom as int,
            )
            &&& l.top_right == rect(
                l.right_half.left as int,
                l.top_half.top as int,
                l.right_half.right as int,
                l.top_half.bottom as int,
            )
            &&& l.bottom_left == rect(
                l.left_half.left as int,
                l.bottom_half.top as int,
                l.left_half.right as int,
                l.bottom_half.bottom as int,
            )
            &&& l.bottom_right == rect(
                l.right_half.left as int,
                l.bottom_half.top as int,
                l.right_half.right as int,
                l.bottom_half.bottom as int,
            )
        }),
{
    lemma_mid_between(work_area.left, work_area.right);
    lemma_mid_between(work_area.top, work_area.bottom);
}

/// In a roomy work area each of the eight layout rectangles is classified
/// as the state it stands for, and classifying it is defined.
pub proof fn lemma_layout_rects_classify_as_themselves(work_area: SnapRect)
    requires
        roomy(work_area),
    ensures
        ({
            let l = layout_of(work_area);
            &&& classify_defined(l.top_left, work_area)
            &&& classify_defined(l.top_right, work_area)
            &&& classify_defined(l.bottom_left, work_area)
            &&& classify_defined(l.bottom_right, work_area)
            &&& classify_defined(l.left_half, work_area)
            &&& classify_defined(l.right_half, work_area)
            &&& classify_defined(l.top_half, work_area)
            &&& classify_defined(l.bottom_half, work_area)
            &&& classify_spec(l.top_left, work_area) == SnapState::TopLeft
            &&& classify_spec(l.top_right, work_area) == SnapState::TopRight
            &&& classify_spec(l.bottom_left, work_area) == SnapState::BottomLeft
            &&& classify_spec(l.bottom_right, work_area) == SnapState::BottomRight
            &&& classify_spec(l.left_half, work_area) == SnapState::LeftHalf
            &&& classify_spec(l.right_half, work_area) == SnapState::RightHalf
            &&& classify_spec(l.top_half, work_area) == SnapState::TopHalf
            &&& classify_spec(l.bottom_half, work_area) == SnapState::BottomHalf
        }),
{
    reveal(classify_spec);
    lemma_mid_between(work_area.left, work_area.right);
    lemma_mid_between(work_area.top, work_area.bottom);
}

/// The state after one press of a snap shortcut: a maximized window asked to
/// snap up is left as it is (`keeps_maximized`), any other window takes a
/// snap step.
pub open spec fn press_step(state: SnapState, direction: SnapDirection, work_area: SnapRect) -> SnapState {
    if state == SnapState::Maximized && direction == SnapDirection::Up {
        SnapState::Maximized
    } else {
        snap_step(state, direction, work_area)
    }
}

/// Pressing the same snap shortcut repeatedly settles: in a roomy work area,
/// after three presses in one direction a further press leaves the window's
/// state unchanged (left and right settle on the side halves, down on the
/// bottom half, up on the maximized window).
pub proof fn lemma_repeated_snaps_settle(state: SnapState, direction: SnapDirection, work_area: SnapRect)
    requires
        roomy(work_area),
    ensures
        ({
            let s3 = press_step(
                press_step(press_step(state, direction, work_area), direction, work_area),
                direction,
                work_area,
            );
            &&& press_step(s3, direction, work_area) == s3
            &&& direction == SnapDirection::Left ==> s3 == SnapState::LeftHalf
            &&& direction == SnapDirection::Right ==> s3 == SnapState::RightHalf
            &&& direction == SnapDirection::Up ==> s3 == SnapState::Maximized
            &&& direction == SnapDirection::Down ==> s3 == SnapState::BottomHalf
        }),
{
    lemma_layout_rects_classify_as_themselves(work_area);
    let s1 = press_step(state, direction, work_area);
    let s2 = press_step(s1, direction, work_area);
    match direction {
        SnapDirection::Left => {
            assert(s1 == SnapState::TopLeft || s1 == SnapState::BottomLeft || s1 == SnapState::LeftHalf);
            assert(s2 == SnapState::LeftHalf);
        },
        SnapDirection::Right => {
            assert(s1 == SnapState::TopRight || s1 == SnapState::BottomRight || s1 == SnapState::RightHalf);
            assert(s2 == SnapState::RightHalf);
        },
        SnapDirection::Up => {
            assert(s1 == SnapState::Maximized || s1 == SnapState::TopLeft || s1 == SnapState::TopRight
                || s1 == SnapState::TopHalf);
            assert(s2 == SnapState::Maximized || s2 == SnapState::TopHalf);
        },
        SnapDirection::Down => {
            assert(s1 == SnapState::TopHalf || s1 == SnapState::BottomLeft || s1 == SnapState::BottomRight
                || s1 == SnapState::BottomHalf);
            assert(s2 == SnapState::BottomHalf);
        },
    }
}

/// Moving a window so that its visible frame lands on a target keeps its
/// frame: the insets measured between the computed outer rectangle and the
/// target are the insets that went in, and a window's own outer rectangle is
/// recovered from its visible frame and insets.
pub proof fn lemma_frame_insets_round_trip(outer_rect: SnapRect, visible_rect: SnapRect, target: SnapRect, insets: FrameInsets)
    requires
        insets_defined(outer_rect, visible_rect),
        outer_defined(target, insets),
    ensures
        outer_defined(visible_rect, insets_spec(outer_rect, visible_rect)),
        outer_spec(visible_rect, insets_spec(outer_rect, visible_rect)) == outer_rect,
        insets_defined(outer_spec(target, insets), target),
        insets_spec(outer_spec(target, insets), target) == insets,
{
}

/// What snapping the active window in one direction comes to once its
/// rectangles are known.
#[derive(Clone, Copy, Debug, PartialEq, Eq, Structural)]
pub enum SnapPlan {
    /// The visible frame already lies on the target within tolerance.
    AlreadyPlaced,
    /// Maximize the window.
    Maximize,
    /// Move the window's outer rectangle to this position and size.
    MoveTo { left: i32, top: i32, width: i32, height: i32 },
}

/// A maximized window asked to snap up stays as it is.
pub fn keeps_maximized(was_maximized: bool, direction: SnapDirection) -> (r: bool)
    ensures
        r == (was_maximized && direction == SnapDirection::Up),
{
    was_maximized && matches!(direction, SnapDirection::Up)
}

pub open spec fn current_state_spec(was_maximized: bool, visible_rect: SnapRect, work_area: SnapRect) -> SnapState {
    if was_maximized {
        SnapState::Maximized
    } else {
        classify_spec(visible_rect, work_area)
    }
}

/// The outcome of snapping: maximize, nothing to do, or the outer rectangle
/// that puts the visible frame on the target with the window's own frame
/// insets, given by position and size.
pub open spec fn plan_spec(
    direction: SnapDirection,
    was_maximized: bool,
    work_area: SnapRect,
    outer_rect: SnapRect,
    visible_rect: SnapRect,
) -> SnapPlan {
    let state = current_state_spec(was_maximized, visible_rect, work_area);
    match target_spec(state, direction, work_area) {
        TargetWindowState::Maximized => SnapPlan::Maximize,
        TargetWindowState::Rect(t) => if within_tolerance(visible_rect, t, SNAP_TOLERANCE_PX as int) {
            SnapPlan::AlreadyPlaced
        } else {
            let o = outer_spec(t, insets_spec(outer_rect, visible_rect));
            SnapPlan::MoveTo {
                left: o.left,
                top: o.top,
                width: o.spec_width() as i32,
                height: o.spec_height() as i32,
            }
        },
    }
}

/// Every `i32` operation on the way to the plan stays in range.
pub open spec fn plan_defined(
    direction: SnapDirection,
    was_maximized: bool,
    work_area: SnapRect,
    outer_rect: SnapRect,
    visible_rect: SnapRect,
) -> bool {
    let state = current_state_spec(was_maximized, visible_rect, work_area);
    &&& work_area.extent_fits()
    &&& !was_maximized ==> classify_defined(visible_rect, work_area)
    &&& match target_spec(state, direction, work_area) {
        TargetWindowState::Maximized => true,
        TargetWindowState::Rect(t) => {
            &&& matches_defined(visible_rect, t, SNAP_TOLERANCE_PX as int)
            &&& !within_tolerance(visible_rect, t, SNAP_TOLERANCE_PX as int) ==> {
                let ins = insets_spec(outer_rect, visible_rect);
                &&& insets_defined(outer_rect, visible_rect)
                &&& outer_defined(t, ins)
                &&& outer_spec(t, ins).extent_fits()
            }
        },
    }
}

/// Decides how to snap a window whose outer rectangle, visible frame and
/// monitor work area are given; `was_maximized` tells whether it was
/// maximized before being restored.
pub fn plan_snap(
    direction: SnapDirection,
    was_maximized: bool,
    work_area: SnapRect,
    outer_rect: SnapRect,
    visible_rect: SnapRect,
) -> (r: SnapPlan)
    requires
        plan_defined(direction, was_maximized, work_area, outer_rect, visible_rect),
    ensures
        r == plan_spec(direction, was_maximized, work_area, outer_rect, visible_rect),
{
    let state = if was_maximized {
        SnapState::Maximized
    } else {
        classify_rect(visible_rect, work_area)
    };
    match target_state_for_direction(state, direction, work_area) {
        TargetWindowState::Maximized => SnapPlan::Maximize,
        TargetWindowState::Rect(target_visible_rect) => {
            if rect_matches(visible_rect, target_visible_rect, SNAP_TOLERANCE_PX) {
                return SnapPlan::AlreadyPlaced;
            }
            let insets = frame_insets(outer_rect, visible_rect);
            let target_outer_rect = outer_rect_for_visible_target(target_visible_rect, insets);
            SnapPlan::MoveTo {
                left: target_outer_rect.left,
                top: target_outer_rect.top,
                width: target_outer_rect.width(),
                height: target_outer_rect.height(),
            }
        },
    }
}

fn has_i32_abs_wide(d: i64) -> (r: bool)
    ensures
        r == has_i32_abs(d as int),
{
    -2147483647i64 <= d && d <= 2147483647i64
}

fn fits_i32_wide(d: i64) -> (r: bool)
    ensures
        r == fits_i32(d as int),
{
    -2147483648i64 <= d && d <= 2147483647i64
}

fn abs_wide(d: i64) -> (r: i64)
    requires
        has_i32_abs(d as int),
    ensures
        r == abs(d as int),
{
    if d < 0 {
        -d
    } else {
        d
    }
}

/// Decides `matches_defined` without overflowing.
fn check_matches_defined(actual: SnapRect, expected: SnapRect, tolerance: i32) -> (r: bool)
    ensures
        r == matches_defined(actual, expected, tolerance as int),
{
    let tol = tolerance as i64;
    let dl = actual.left as i64 - expected.left as i64;
    if !has_i32_abs_wide(dl) {
        return false;
    }
    if abs_wide(dl) > tol {
        return true;
    }
    let dt = actual.top as i64 - expected.top as i64;
    if !has_i32_abs_wide(dt) {
        return false;
    }
    if abs_wide(dt) > tol {
        return true;
    }
    let dr = actual.right as i64 - expected.right as i64;
    if !has_i32_abs_wide(dr) {
        return false;
    }
    if abs_wide(dr) > tol {
        return true;
    }
    let db = actual.bottom as i64 - expected.bottom as i64;
    has_i32_abs_wide(db)
}

fn check_extent_fits(r: SnapRect) -> (b: bool)
    ensures
        b == r.extent_fits(),
{
    fits_i32_wide(r.right as i64 - r.left as i64) && fits_i32_wide(r.bottom as i64 - r.top as i64)
}

/// Decides `classify_defined` without overflowing.
fn check_classify_defined(rect: SnapRect, work_area: SnapRect) -> (r: bool)
    ensures
        r == classify_defined(rect, work_area),
{
    if !check_extent_fits(work_area) {
        return false;
    }
    let l = SnapLayout::new(work_area);
    let t = SNAP_TOLERANCE_PX;
    if !check_matches_defined(rect, l.top_left, t) {
        return false;
    }
    if rect_matches(rect, l.top_left, t) {
        return true;
    }
    if !check_matches_defined(rect, l.top_right, t) {
        return false;
    }
    if rect_matches(rect, l.top_right, t) {
        return true;
    }
    if !check_matches_defined(rect, l.bottom_left, t) {
        return false;
    }
    if rect_matches(rect, l.bottom_left, t) {
        return true;
    }
    if !check_matches_defined(rect, l.bottom_right, t) {
        return false;
    }
    if rect_matches(rect, l.bottom_right, t) {
        return true;
    }
    if !check_matches_defined(rect, l.left_half, t) {
        return false;
    }
    if rect_matches(rect, l.left_half, t) {
        return true;
    }
    if !check_matches_defined(rect, l.right_half, t) {
        return false;
    }
    if rect_matches(rect, l.right_half, t) {
        return true;
    }
    if !check_matches_defined(rect, l.top_half, t) {
        return false;
    }
    if rect_matches(rect, l.top_half, t) {
        return true;
    }
    check_matches_defined(rect, l.bottom_half, t)
}

/// `plan_snap` where its arithmetic stays in range, and `None` exactly on
/// the inputs where an `i32` operation on the way would overflow.
pub fn plan_snap_checked(
    direction: SnapDirection,
    was_maximized: bool,
    work_area: SnapRect,
    outer_rect: SnapRect,
    visible_rect: SnapRect,
) -> (r: Option<SnapPlan>)
    ensures
        r is None <==> !plan_defined(direction, was_maximized, work_area, outer_rect, visible_rect),
        r is Some ==> r == Some(plan_spec(direction, was_maximized, work_area, outer_rect, visible_rect)),
{
    if !check_extent_fits(work_area) {
        return None;
    }
    if !was_maximized && !check_classify_defined(visible_rect, work_area) {
        return None;
    }
    let state = if was_maximized {
        SnapState::Maximized
    } else {
        classify_rect(visible_rect, work_area)
    };
    if let TargetWindowState::Rect(t) = target_state_for_direction(state, direction, work_area) {
        if !check_matches_defined(visible_rect, t, SNAP_TOLERANCE_PX) {
            return None;
        }
        if !rect_matches(visible_rect, t, SNAP_TOLERANCE_PX) {
            let il = visible_rect.left as i64 - outer_rect.left as i64;
            let it = visible_rect.top as i64 - outer_rect.top as i64;
            let ir = outer_rect.right as i64 - visible_rect.right as i64;
            let ib = outer_rect.bottom as i64 - visible_rect.bottom as i64;
            if !(fits_i32_wide(il) && fits_i32_wide(it) && fits_i32_wide(ir) && fits_i32_wide(ib)) {
                return None;
            }
            let ol = t.left as i64 - il;
            let ot = t.top as i64 - it;
            let or = t.right as i64 + ir;
            let ob = t.bottom as i64 + ib;
            if !(fits_i32_wide(ol) && fits_i32_wide(ot) && fits_i32_wide(or) && fits_i32_wide(ob)) {
                return None;
            }
            if !(fits_i32_wide(or - ol) && fits_i32_wide(ob - ot)) {
                return None;
            }
        }
    }
    Some(plan_snap(direction, was_maximized, work_area, outer_rect, visible_rect))
}

/// Snapping keeps what it does not change: up and down keep a window's
/// column (left, right, or the full width), left and right keep its row (top,
/// bottom, or the full height). A maximized window goes to the side half it
/// is sent to, and to the top half up or down. Only up from the top half
/// maximizes.
pub proof fn lemma_snap_keeps_column_and_row(state: SnapState, work_area: SnapRect)
    ensures
        ({
            let l = layout_of(work_area);
            &&& (state == SnapState::LeftHalf || state == SnapState::TopLeft) ==> target_spec(
                state,
                SnapDirection::Down,
                work_area,
            ) == TargetWindowState::Rect(l.bottom_left)
            &&& (state == SnapState::RightHalf || state == SnapState::TopRight) ==> target_spec(
                state,
                SnapDirection::Down,
                work_area,
            ) == TargetWindowState::Rect(l.bottom_right)
            &&& (state == SnapState::LeftHalf || state == SnapState::BottomLeft) ==> target_spec(
                state,
                SnapDirection::Up,
                work_area,
            ) == TargetWindowState::Rect(l.top_left)
            &&& (state == SnapState::RightHalf || state == SnapState::BottomRight) ==> target_spec(
                state,
                SnapDirection::Up,
                work_area,
            ) == TargetWindowState::Rect(l.top_right)
            &&& (state == SnapState::TopHalf || state == SnapState::TopRight) ==> target_spec(
                state,
                SnapDirection::Left,
                work_area,
            ) == TargetWindowState::Rect(l.top_left)
            &&& (state == SnapState::BottomHalf || state == SnapState::BottomRight) ==> target_spec(
                state,
                SnapDirection::Left,
                work_area,
            ) == TargetWindowState::Rect(l.bottom_left)
            &&& (state == SnapState::TopHalf || state == SnapState::TopLeft) ==> target_spec(
                state,
                SnapDirection::Right,
                work_area,
            ) == TargetWindowState::Rect(l.top_right)
            &&& (state == SnapState::BottomHalf || state == SnapState::BottomLeft) ==> target_spec(
                state,
                SnapDirection::Right,
                work_area,
            ) == TargetWindowState::Rect(l.bottom_right)
            &&& target_spec(SnapState::Maximized, SnapDirection::Left, work_area) == TargetWindowState::Rect(
                l.left_half,
            )
            &&& target_spec(SnapState::Maximized, SnapDirection::Right, work_area) == TargetWindowState::Rect(
                l.right_half,
            )
            &&& target_spec(SnapState::Maximized, SnapDirection::Up, work_area) == TargetWindowState::Rect(
                l.top_half,
            )
            &&& target_spec(SnapState::Maximized, SnapDirection::Down, work_area) == TargetWindowState::Rect(
                l.top_half,
            )
            &&& forall|d: SnapDirection|
                #[trigger] target_spec(state, d, work_area) == TargetWindowState::Maximized <==> (d
                    == SnapDirection::Up && state == SnapState::TopHalf)
        }),
{
}

/// In geometric terms: a window in the left column that is snapped up or
/// down into the other row (the left half either way, the top-left quadrant
/// down, the bottom-left quadrant up) keeps the work area's left edge and the
/// middle line as its sides; a left quadrant snapped further toward its own
/// edge widens to the full-width half there.
pub proof fn lemma_vertical_snaps_keep_left_column(state: SnapState, direction: SnapDirection, work_area: SnapRect)
    requires
        direction == SnapDirection::Up || direction == SnapDirection::Down,
    ensures
        (state == SnapState::LeftHalf || (state == SnapState::TopLeft && direction == SnapDirection::Down)
            || (state == SnapState::BottomLeft && direction == SnapDirection::Up)) ==> (target_spec(
            state,
            direction,
            work_area,
        ) matches TargetWindowState::Rect(t) && t.left == work_area.left && t.right == mid_x(work_area) as i32),
        state == SnapState::TopLeft && direction == SnapDirection::Up ==> target_spec(state, direction, work_area)
            == TargetWindowState::Rect(layout_of(work_area).top_half),
        state == SnapState::BottomLeft && direction == SnapDirection::Down ==> target_spec(state, direction, work_area)
            == TargetWindowState::Rect(layout_of(work_area).bottom_half),
{
}

/// A window that was maximized and is snapped left or right lands with its
/// visible frame on that side half: the plan either finds the frame already
/// there, or moves the outer rectangle so that, less the window's own frame
/// insets, it is exactly that half. It is never left maximized: only up from
/// the top half maximizes.
pub proof fn lemma_maximized_window_snaps_to_side_half(
    direction: SnapDirection,
    work_area: SnapRect,
    outer_rect: SnapRect,
    visible_rect: SnapRect,
)
    requires
        direction == SnapDirection::Left || direction == SnapDirection::Right,
        plan_defined(direction, true, work_area, outer_rect, visible_rect),
    ensures
        ({
            let l = layout_of(work_area);
            let half = if direction == SnapDirection::Left { l.left_half } else { l.right_half };
            let ins = insets_spec(outer_rect, visible_rect);
            let p = plan_spec(direction, true, work_area, outer_rect, visible_rect);
            &&& p != SnapPlan::Maximize
            &&& p == SnapPlan::AlreadyPlaced <==> within_tolerance(visible_rect, half, SNAP_TOLERANCE_PX as int)
            &&& p matches SnapPlan::MoveTo { left, top, width, height } ==> {
                &&& left + ins.left == half.left
                &&& top + ins.top == half.top
                &&& left + width - ins.right == half.right
                &&& top + height - ins.bottom == half.bottom
            }
        }),
{
}

/// The plan maximizes exactly when a window that was not maximized sits on
/// the top half and is snapped up.
pub proof fn lemma_plan_maximizes_only_from_top_half(
    direction: SnapDirection,
    was_maximized: bool,
    work_area: SnapRect,
    outer_rect: SnapRect,
    visible_rect: SnapRect,
)
    ensures
        plan_spec(direction, was_maximized, work_area, outer_rect, visible_rect) == SnapPlan::Maximize
            <==> (direction == SnapDirection::Up && !was_maximized && classify_spec(visible_rect, work_area)
            == SnapState::TopHalf),
{
}

} // verus!
