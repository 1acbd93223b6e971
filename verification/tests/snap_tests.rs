use binkybox::snap::{
    classify_rect, frame_insets, keeps_maximized, outer_rect_for_visible_target, plan_snap,
    plan_snap_checked, rect_matches, target_state_for_direction, FrameInsets, SnapDirection,
    SnapLayout, SnapPlan, SnapRect, SnapState, TargetWindowState,
};

fn rect(left: i32, top: i32, right: i32, bottom: i32) -> SnapRect {
    SnapRect { left, top, right, bottom }
}

#[test]
fn layout_splits_odd_work_area_with_remainder_on_right_and_bottom() {
    let layout = SnapLayout::new(rect(0, 0, 101, 81));
    assert_eq!(layout.left_half, rect(0, 0, 50, 81));
    assert_eq!(layout.right_half, rect(50, 0, 101, 81));
    assert_eq!(layout.top_half, rect(0, 0, 101, 40));
    assert_eq!(layout.bottom_half, rect(0, 40, 101, 81));
}

#[test]
fn classify_half_states() {
    let work_area = rect(0, 0, 100, 80);
    let layout = SnapLayout::new(work_area);
    assert_eq!(classify_rect(layout.left_half, work_area), SnapState::LeftHalf);
    assert_eq!(classify_rect(layout.right_half, work_area), SnapState::RightHalf);
    assert_eq!(classify_rect(layout.top_half, work_area), SnapState::TopHalf);
    assert_eq!(classify_rect(layout.bottom_half, work_area), SnapState::BottomHalf);
}

#[test]
fn classify_quadrant_states() {
    let work_area = rect(0, 0, 100, 80);
    let layout = SnapLayout::new(work_area);
    assert_eq!(classify_rect(layout.top_left, work_area), SnapState::TopLeft);
    assert_eq!(classify_rect(layout.top_right, work_area), SnapState::TopRight);
    assert_eq!(classify_rect(layout.bottom_left, work_area), SnapState::BottomLeft);
    assert_eq!(classify_rect(layout.bottom_right, work_area), SnapState::BottomRight);
}

#[test]
fn classify_uses_tolerance_for_nearby_rects() {
    let work_area = rect(0, 0, 100, 80);
    let layout = SnapLayout::new(work_area);
    let off_by_a_bit = rect(
        layout.top_left.left + 3,
        layout.top_left.top + 2,
        layout.top_left.right - 4,
        layout.top_left.bottom + 5,
    );
    assert_eq!(classify_rect(off_by_a_bit, work_area), SnapState::TopLeft);
}

#[test]
fn classify_prefers_quadrants_before_halves() {
    let work_area = rect(0, 0, 100, 80);
    let layout = SnapLayout::new(work_area);
    assert_eq!(classify_rect(layout.top_left, work_area), SnapState::TopLeft);
}

#[test]
fn frame_insets_capture_invisible_borders() {
    let outer = rect(-8, 0, 108, 88);
    let visible = rect(0, 0, 100, 80);
    assert_eq!(
        frame_insets(outer, visible),
        FrameInsets { left: 8, top: 0, right: 8, bottom: 8 }
    );
}

#[test]
fn target_outer_rect_expands_visible_target_by_frame_insets() {
    let target_visible = rect(0, 0, 100, 80);
    assert_eq!(
        outer_rect_for_visible_target(
            target_visible,
            FrameInsets { left: 8, top: 0, right: 8, bottom: 8 }
        ),
        rect(-8, 0, 108, 88)
    );
}

#[test]
fn transitions_from_other_go_to_requested_half() {
    let work_area = rect(0, 0, 100, 80);
    let layout = SnapLayout::new(work_area);
    assert_eq!(
        target_state_for_direction(SnapState::Other, SnapDirection::Left, work_area),
        TargetWindowState::Rect(layout.left_half)
    );
    assert_eq!(
        target_state_for_direction(SnapState::Other, SnapDirection::Right, work_area),
        TargetWindowState::Rect(layout.right_half)
    );
    assert_eq!(
        target_state_for_direction(SnapState::Other, SnapDirection::Up, work_area),
        TargetWindowState::Rect(layout.top_half)
    );
    assert_eq!(
        target_state_for_direction(SnapState::Other, SnapDirection::Down, work_area),
        TargetWindowState::Rect(layout.bottom_half)
    );
}

#[test]
fn horizontal_transitions_expand_and_contract_between_half_and_quadrant() {
    let work_area = rect(0, 0, 100, 80);
    let layout = SnapLayout::new(work_area);
    assert_eq!(
        target_state_for_direction(SnapState::TopHalf, SnapDirection::Left, work_area),
        TargetWindowState::Rect(layout.top_left)
    );
    assert_eq!(
        target_state_for_direction(SnapState::BottomHalf, SnapDirection::Right, work_area),
        TargetWindowState::Rect(layout.bottom_right)
    );
    assert_eq!(
        target_state_for_direction(SnapState::TopLeft, SnapDirection::Left, work_area),
        TargetWindowState::Rect(layout.left_half)
    );
    assert_eq!(
        target_state_for_direction(SnapState::BottomRight, SnapDirection::Right, work_area),
        TargetWindowState::Rect(layout.right_half)
    );
    assert_eq!(
        target_state_for_direction(SnapState::TopRight, SnapDirection::Left, work_area),
        TargetWindowState::Rect(layout.top_left)
    );
    assert_eq!(
        target_state_for_direction(SnapState::BottomLeft, SnapDirection::Right, work_area),
        TargetWindowState::Rect(layout.bottom_right)
    );
}

#[test]
fn vertical_transitions_expand_and_contract_between_half_and_quadrant() {
    let work_area = rect(0, 0, 100, 80);
    let layout = SnapLayout::new(work_area);
    assert_eq!(
        target_state_for_direction(SnapState::LeftHalf, SnapDirection::Up, work_area),
        TargetWindowState::Rect(layout.top_left)
    );
    assert_eq!(
        target_state_for_direction(SnapState::RightHalf, SnapDirection::Down, work_area),
        TargetWindowState::Rect(layout.bottom_right)
    );
    assert_eq!(
        target_state_for_direction(SnapState::TopLeft, SnapDirection::Up, work_area),
        TargetWindowState::Rect(layout.top_half)
    );
    assert_eq!(
        target_state_for_direction(SnapState::BottomRight, SnapDirection::Down, work_area),
        TargetWindowState::Rect(layout.bottom_half)
    );
    assert_eq!(
        target_state_for_direction(SnapState::TopRight, SnapDirection::Down, work_area),
        TargetWindowState::Rect(layout.bottom_right)
    );
    assert_eq!(
        target_state_for_direction(SnapState::BottomLeft, SnapDirection::Up, work_area),
        TargetWindowState::Rect(layout.top_left)
    );
}

#[test]
fn up_from_top_half_maximizes() {
    let work_area = rect(0, 0, 100, 80);
    assert_eq!(
        target_state_for_direction(SnapState::TopHalf, SnapDirection::Up, work_area),
        TargetWindowState::Maximized
    );
}

#[test]
fn maximized_transitions_back_into_snap_layout() {
    let work_area = rect(0, 0, 100, 80);
    let layout = SnapLayout::new(work_area);
    assert_eq!(
        target_state_for_direction(SnapState::Maximized, SnapDirection::Left, work_area),
        TargetWindowState::Rect(layout.left_half)
    );
    assert_eq!(
        target_state_for_direction(SnapState::Maximized, SnapDirection::Right, work_area),
        TargetWindowState::Rect(layout.right_half)
    );
    assert_eq!(
        target_state_for_direction(SnapState::Maximized, SnapDirection::Up, work_area),
        TargetWindowState::Rect(layout.top_half)
    );
    assert_eq!(
        target_state_for_direction(SnapState::Maximized, SnapDirection::Down, work_area),
        TargetWindowState::Rect(layout.top_half)
    );
}

// Further cases.

#[test]
fn layout_of_offset_work_area_keeps_its_origin() {
    let layout = SnapLayout::new(rect(-1920, 40, 0, 1080));
    assert_eq!(layout.left_half, rect(-1920, 40, -960, 1080));
    assert_eq!(layout.right_half, rect(-960, 40, 0, 1080));
    assert_eq!(layout.top_half, rect(-1920, 40, 0, 560));
    assert_eq!(layout.bottom_right, rect(-960, 560, 0, 1080));
}

#[test]
fn layout_of_inverted_work_area_rounds_toward_zero() {
    // Width -7: half is -3 (toward zero), so the split is at 10 - 3 = 7.
    let layout = SnapLayout::new(rect(10, 0, 3, 10));
    assert_eq!(layout.left_half, rect(10, 0, 7, 10));
}

#[test]
fn rect_matches_is_inclusive_at_the_tolerance() {
    let a = rect(0, 0, 100, 100);
    assert!(rect_matches(rect(8, -8, 108, 92), a, 8));
    assert!(!rect_matches(rect(9, 0, 100, 100), a, 8));
    assert!(!rect_matches(rect(0, 0, 100, 109), a, 8));
}

#[test]
fn classify_far_rect_is_other() {
    let work_area = rect(0, 0, 100, 80);
    assert_eq!(classify_rect(rect(20, 20, 60, 60), work_area), SnapState::Other);
}

#[test]
fn three_left_presses_settle_on_left_half() {
    let work_area = rect(0, 0, 100, 80);
    let layout = SnapLayout::new(work_area);
    let mut state = SnapState::BottomRight;
    for _ in 0..3 {
        match target_state_for_direction(state, SnapDirection::Left, work_area) {
            TargetWindowState::Rect(r) => state = classify_rect(r, work_area),
            TargetWindowState::Maximized => state = SnapState::Maximized,
        }
    }
    assert_eq!(state, SnapState::LeftHalf);
    assert_eq!(
        target_state_for_direction(state, SnapDirection::Left, work_area),
        TargetWindowState::Rect(layout.left_half)
    );
}

#[test]
fn three_up_presses_end_maximized() {
    let work_area = rect(0, 0, 100, 80);
    let mut state = SnapState::BottomLeft;
    let mut seen: Vec<SnapState> = Vec::new();
    for _ in 0..3 {
        match target_state_for_direction(state, SnapDirection::Up, work_area) {
            TargetWindowState::Rect(r) => state = classify_rect(r, work_area),
            TargetWindowState::Maximized => state = SnapState::Maximized,
        }
        seen.push(state);
    }
    assert_eq!(seen, vec![SnapState::TopLeft, SnapState::TopHalf, SnapState::Maximized]);
}

#[test]
fn frame_insets_round_trip_to_outer_rect() {
    let outer = rect(93, -7, 517, 611);
    let visible = rect(100, 0, 510, 604);
    let insets = frame_insets(outer, visible);
    assert_eq!(outer_rect_for_visible_target(visible, insets), outer);
}

#[test]
fn maximized_window_snapping_up_is_left_alone() {
    assert!(keeps_maximized(true, SnapDirection::Up));
    assert!(!keeps_maximized(true, SnapDirection::Left));
    assert!(!keeps_maximized(false, SnapDirection::Up));
}

#[test]
fn plan_moves_outer_rect_so_visible_frame_hits_target() {
    let work_area = rect(0, 0, 100, 80);
    let outer = rect(12, 20, 78, 68);
    let visible = rect(20, 20, 70, 60);
    // Visible frame classifies as Other; Left targets the left half (0,0,50,80).
    let plan = plan_snap(SnapDirection::Left, false, work_area, outer, visible);
    assert_eq!(plan, SnapPlan::MoveTo { left: -8, top: 0, width: 66, height: 88 });
}

#[test]
fn plan_leaves_window_already_in_place() {
    let work_area = rect(0, 0, 100, 80);
    let visible = rect(2, 1, 49, 79);
    let outer = rect(-6, 1, 57, 87);
    // Near the left half: Left keeps it as the left half, which it already matches.
    assert_eq!(
        plan_snap(SnapDirection::Left, false, work_area, outer, visible),
        SnapPlan::AlreadyPlaced
    );
}

#[test]
fn plan_maximizes_top_half_on_up() {
    let work_area = rect(0, 0, 100, 80);
    let visible = rect(0, 0, 100, 40);
    assert_eq!(
        plan_snap(SnapDirection::Up, false, work_area, visible, visible),
        SnapPlan::Maximize
    );
}

#[test]
fn plan_from_maximized_down_goes_to_top_half() {
    let work_area = rect(0, 0, 100, 80);
    let visible = rect(10, 10, 30, 30);
    assert_eq!(
        plan_snap(SnapDirection::Down, true, work_area, visible, visible),
        SnapPlan::MoveTo { left: 0, top: 0, width: 100, height: 40 }
    );
}

#[test]
fn checked_plan_reports_overflow() {
    let work_area = rect(i32::MIN, 0, i32::MAX, 80);
    let visible = rect(0, 0, 10, 10);
    assert_eq!(
        plan_snap_checked(SnapDirection::Left, false, work_area, visible, visible),
        None
    );
    let ok_area = rect(0, 0, 100, 80);
    assert_eq!(
        plan_snap_checked(SnapDirection::Up, false, ok_area, visible, visible),
        Some(SnapPlan::MoveTo { left: 0, top: 0, width: 100, height: 40 })
    );
}
