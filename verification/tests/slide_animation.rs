//! The slide animation: off-screen positions, interpolated and clipped
//! rectangles, and the border cut effect. Progress is in thousandths.

use ratatui_notifications::{slide_apply_border_effect, slide_calculate_rect,
    slide_offscreen_position, Anchor, AnimationPhase, BorderSet, Position, Rect, SlideDirection};

#[test]
fn test_from_left_returns_position_left_of_frame() {
    let full_rect = Rect::new(50, 25, 20, 10);
    let frame_area = Rect::new(0, 0, 100, 50);
    let (x, y) = slide_offscreen_position(
        Anchor::MiddleLeft,
        SlideDirection::FromLeft,
        full_rect,
        frame_area,
    );
    // Should be positioned left of frame: frame_x - width - margin
    // 0 - 20 - 1 = -21
    assert_eq!(x, -21);
    assert_eq!(y, full_rect.y as i32); // Y should match full_rect.y
}

#[test]
fn test_from_right_returns_position_right_of_frame() {
    let full_rect = Rect::new(50, 25, 20, 10);
    let frame_area = Rect::new(0, 0, 100, 50);
    let (x, y) = slide_offscreen_position(
        Anchor::MiddleRight,
        SlideDirection::FromRight,
        full_rect,
        frame_area,
    );
    // Should be positioned right of frame: frame_right + margin
    // 100 + 1 = 101
    assert_eq!(x, 101);
    assert_eq!(y, full_rect.y as i32);
}

#[test]
fn test_from_top_returns_position_above_frame() {
    let full_rect = Rect::new(50, 25, 20, 10);
    let frame_area = Rect::new(0, 0, 100, 50);
    let (x, y) = slide_offscreen_position(
        Anchor::TopCenter,
        SlideDirection::FromTop,
        full_rect,
        frame_area,
    );
    // Should be positioned above frame: frame_y - height - margin
    // 0 - 10 - 1 = -11
    assert_eq!(x, full_rect.x as i32); // X should match full_rect.x
    assert_eq!(y, -11);
}

#[test]
fn test_from_bottom_returns_position_below_frame() {
    let full_rect = Rect::new(50, 25, 20, 10);
    let frame_area = Rect::new(0, 0, 100, 50);
    let (x, y) = slide_offscreen_position(
        Anchor::BottomCenter,
        SlideDirection::FromBottom,
        full_rect,
        frame_area,
    );
    // Should be positioned below frame: frame_bottom + margin
    // 50 + 1 = 51
    assert_eq!(x, full_rect.x as i32);
    assert_eq!(y, 51);
}

#[test]
fn test_from_top_left_returns_diagonal_position() {
    let full_rect = Rect::new(50, 25, 20, 10);
    let frame_area = Rect::new(0, 0, 100, 50);
    let (x, y) = slide_offscreen_position(
        Anchor::TopLeft,
        SlideDirection::FromTopLeft,
        full_rect,
        frame_area,
    );
    // Should be positioned both left and above frame
    assert_eq!(x, -21); // 0 - 20 - 1
    assert_eq!(y, -11); // 0 - 10 - 1
}

#[test]
fn test_from_top_right_returns_diagonal_position() {
    let full_rect = Rect::new(50, 25, 20, 10);
    let frame_area = Rect::new(0, 0, 100, 50);
    let (x, y) = slide_offscreen_position(
        Anchor::TopRight,
        SlideDirection::FromTopRight,
        full_rect,
        frame_area,
    );
    // Should be positioned both right and above frame
    assert_eq!(x, 101); // 100 + 1
    assert_eq!(y, -11); // 0 - 10 - 1
}

#[test]
fn test_from_bottom_left_returns_diagonal_position() {
    let full_rect = Rect::new(50, 25, 20, 10);
    let frame_area = Rect::new(0, 0, 100, 50);
    let (x, y) = slide_offscreen_position(
        Anchor::BottomLeft,
        SlideDirection::FromBottomLeft,
        full_rect,
        frame_area,
    );
    // Should be positioned both left and below frame
    assert_eq!(x, -21); // 0 - 20 - 1
    assert_eq!(y, 51); // 50 + 1
}

#[test]
fn test_from_bottom_right_returns_diagonal_position() {
    let full_rect = Rect::new(50, 25, 20, 10);
    let frame_area = Rect::new(0, 0, 100, 50);
    let (x, y) = slide_offscreen_position(
        Anchor::BottomRight,
        SlideDirection::FromBottomRight,
        full_rect,
        frame_area,
    );
    // Should be positioned both right and below frame
    assert_eq!(x, 101); // 100 + 1
    assert_eq!(y, 51); // 50 + 1
}

#[test]
fn test_default_direction_returns_full_rect_position() {
    let full_rect = Rect::new(50, 25, 20, 10);
    let frame_area = Rect::new(0, 0, 100, 50);
    let (x, y) = slide_offscreen_position(
        Anchor::MiddleCenter,
        SlideDirection::Default,
        full_rect,
        frame_area,
    );
    // Default should return the full_rect's position
    assert_eq!(x, full_rect.x as i32);
    assert_eq!(y, full_rect.y as i32);
}

#[test]
fn test_offscreen_positions_lie_strictly_outside_frame() {
    let full_rect = Rect::new(30, 12, 14, 6);
    let frame_area = Rect::new(2, 3, 80, 40);
    let cases = [
        (SlideDirection::FromLeft, Anchor::MiddleLeft),
        (SlideDirection::FromRight, Anchor::MiddleRight),
        (SlideDirection::FromTop, Anchor::TopCenter),
        (SlideDirection::FromBottom, Anchor::BottomCenter),
        (SlideDirection::FromTopLeft, Anchor::TopLeft),
        (SlideDirection::FromTopRight, Anchor::TopRight),
        (SlideDirection::FromBottomLeft, Anchor::BottomLeft),
        (SlideDirection::FromBottomRight, Anchor::BottomRight),
    ];
    for (direction, anchor) in cases {
        let (x, y) = slide_offscreen_position(anchor, direction, full_rect, frame_area);
        match direction {
            SlideDirection::FromLeft | SlideDirection::FromTopLeft
            | SlideDirection::FromBottomLeft => {
                // Exactly width + 1 cells beyond the left edge.
                assert_eq!(x + full_rect.width as i32, frame_area.x as i32 - 1);
            }
            SlideDirection::FromRight | SlideDirection::FromTopRight
            | SlideDirection::FromBottomRight => {
                assert_eq!(x, frame_area.right() as i32 + 1);
            }
            _ => {}
        }
        match direction {
            SlideDirection::FromTop | SlideDirection::FromTopLeft
            | SlideDirection::FromTopRight => {
                assert_eq!(y + full_rect.height as i32, frame_area.y as i32 - 1);
            }
            SlideDirection::FromBottom | SlideDirection::FromBottomLeft
            | SlideDirection::FromBottomRight => {
                assert_eq!(y, frame_area.bottom() as i32 + 1);
            }
            _ => {}
        }
    }
}

#[test]
fn test_sliding_in_progress_zero_returns_offscreen() {
    let full_rect = Rect::new(100, 25, 10, 5);
    let frame_area = Rect::new(0, 0, 120, 50);
    let progress = 0;
    let phase = AnimationPhase::SlidingIn;
    let slide_direction = SlideDirection::FromRight;
    let custom_start = None;

    let rect = slide_calculate_rect(
        full_rect,
        frame_area,
        progress,
        phase,
        Anchor::MiddleRight,
        slide_direction,
        custom_start,
        None,
    );

    // At progress 0, notification should be fully offscreen
    // Width should be 0 or very small due to clipping
    assert_eq!(rect, Rect::default());
}

#[test]
fn test_sliding_in_progress_one_returns_full_rect() {
    let full_rect = Rect::new(100, 25, 10, 5);
    let frame_area = Rect::new(0, 0, 120, 50);
    let progress = 1000;
    let phase = AnimationPhase::SlidingIn;
    let slide_direction = SlideDirection::FromRight;

    let rect = slide_calculate_rect(
        full_rect,
        frame_area,
        progress,
        phase,
        Anchor::MiddleRight,
        slide_direction,
        None,
        None,
    );

    // At full progress, notification should be at full_rect
    assert_eq!(rect, full_rect);
}

#[test]
fn test_sliding_in_progress_half_returns_interpolated() {
    let full_rect = Rect::new(50, 25, 10, 5);
    let frame_area = Rect::new(0, 0, 100, 50);
    let progress = 500;
    let phase = AnimationPhase::SlidingIn;
    let slide_direction = SlideDirection::FromLeft;

    let rect = slide_calculate_rect(
        full_rect,
        frame_area,
        progress,
        phase,
        Anchor::MiddleLeft,
        slide_direction,
        None,
        None,
    );

    // At half progress, should be partway between start and end
    // The exact rect depends on clipping logic, but should not be empty or full
    assert!(rect.width > 0);
    assert!(rect.width < full_rect.width || rect.x != full_rect.x);
}

#[test]
fn test_sliding_out_progress_zero_returns_full_rect() {
    let full_rect = Rect::new(100, 25, 10, 5);
    let frame_area = Rect::new(0, 0, 120, 50);
    let progress = 0;
    let phase = AnimationPhase::SlidingOut;
    let slide_direction = SlideDirection::FromRight;

    let rect = slide_calculate_rect(
        full_rect,
        frame_area,
        progress,
        phase,
        Anchor::MiddleRight,
        slide_direction,
        None,
        None,
    );

    // At progress 0 when sliding out, should be at full_rect
    assert_eq!(rect, full_rect);
}

#[test]
fn test_sliding_out_progress_one_returns_offscreen() {
    let full_rect = Rect::new(100, 25, 10, 5);
    let frame_area = Rect::new(0, 0, 120, 50);
    let progress = 1000;
    let phase = AnimationPhase::SlidingOut;
    let slide_direction = SlideDirection::FromRight;

    let rect = slide_calculate_rect(
        full_rect,
        frame_area,
        progress,
        phase,
        Anchor::MiddleRight,
        slide_direction,
        None,
        None,
    );

    // At full progress when sliding out, should be offscreen
    assert_eq!(rect, Rect::default());
}

#[test]
fn test_dwelling_phase_returns_full_rect() {
    let full_rect = Rect::new(100, 25, 10, 5);
    let frame_area = Rect::new(0, 0, 120, 50);
    let progress = 500; // Progress irrelevant during dwelling
    let phase = AnimationPhase::Dwelling;
    let slide_direction = SlideDirection::FromRight;

    let rect = slide_calculate_rect(
        full_rect,
        frame_area,
        progress,
        phase,
        Anchor::MiddleRight,
        slide_direction,
        None,
        None,
    );

    // During dwelling, should always return full_rect
    assert_eq!(rect, full_rect);
}

#[test]
fn test_custom_start_position_is_used() {
    let full_rect = Rect::new(50, 25, 10, 5);
    let frame_area = Rect::new(0, 0, 100, 50);
    let progress = 0;
    let phase = AnimationPhase::SlidingIn;
    let slide_direction = SlideDirection::FromLeft;
    let custom_start = Some(Position::new(20, 30)); // Custom start position

    let rect = slide_calculate_rect(
        full_rect,
        frame_area,
        progress,
        phase,
        Anchor::MiddleLeft,
        slide_direction,
        custom_start,
        None,
    );

    // At progress 0 with custom start, should clip to custom position
    // Since custom start (20, 30) is onscreen, we should get a non-empty rect
    assert!(rect.x >= 20 || rect.width > 0);
}

#[test]
fn test_custom_end_position_is_used() {
    let full_rect = Rect::new(50, 25, 10, 5);
    let frame_area = Rect::new(0, 0, 100, 50);
    let progress = 1000;
    let phase = AnimationPhase::SlidingOut;
    let slide_direction = SlideDirection::FromRight;
    let custom_end = Some(Position::new(80, 30)); // Custom end position

    let rect = slide_calculate_rect(
        full_rect,
        frame_area,
        progress,
        phase,
        Anchor::MiddleRight,
        slide_direction,
        None,
        custom_end,
    );

    // At full progress with custom end, should clip to custom position
    // Custom end at (80, 30) is onscreen, so should have some width
    assert!(rect.width > 0);
}

#[test]
fn test_no_effect_during_dwelling() {
    let full_rect = Rect::new(50, 25, 20, 10);
    let frame_area = Rect::new(0, 0, 100, 50);
    let base_set = BorderSet::rounded();

    let result = slide_apply_border_effect(
        base_set,
        Anchor::MiddleRight,
        SlideDirection::FromRight,
        500,
        AnimationPhase::Dwelling,
        full_rect,
        None,
        None,
        frame_area,
    );

    // During dwelling, no effect should be applied
    assert_eq!(result, base_set);
}

#[test]
fn test_no_effect_when_fully_onscreen() {
    let full_rect = Rect::new(50, 25, 20, 10);
    let frame_area = Rect::new(0, 0, 100, 50);
    let base_set = BorderSet::rounded();

    // Custom path that stays fully within frame
    let custom_start = Some(Position::new(40, 25));
    let custom_end = Some(Position::new(60, 25));

    let result = slide_apply_border_effect(
        base_set,
        Anchor::MiddleCenter,
        SlideDirection::Default,
        500,
        AnimationPhase::SlidingOut,
        full_rect,
        custom_start,
        custom_end,
        frame_area,
    );

    // When path stays onscreen, no effect should be applied
    assert_eq!(result, base_set);
}

#[test]
fn test_effect_applied_when_sliding_from_right() {
    let full_rect = Rect::new(90, 25, 20, 10);
    let frame_area = Rect::new(0, 0, 100, 50);
    let base_set = BorderSet::rounded();

    let result = slide_apply_border_effect(
        base_set,
        Anchor::MiddleRight,
        SlideDirection::FromRight,
        900, // Late in the animation when edge crosses
        AnimationPhase::SlidingOut,
        full_rect,
        None,
        None,
        frame_area,
    );

    // Effect should modify right edge symbols
    // vertical_right should become blank
    assert_eq!(result.vertical_right, ' ');
    // top_right should become horizontal_top
    assert_eq!(result.top_right, base_set.horizontal_top);
    // bottom_right should become horizontal_bottom
    assert_eq!(result.bottom_right, base_set.horizontal_bottom);
}

#[test]
fn test_effect_applied_when_sliding_from_left() {
    let full_rect = Rect::new(5, 25, 20, 10);
    let frame_area = Rect::new(0, 0, 100, 50);
    let base_set = BorderSet::rounded();

    let result = slide_apply_border_effect(
        base_set,
        Anchor::MiddleLeft,
        SlideDirection::FromLeft,
        900, // Late in the animation
        AnimationPhase::SlidingOut,
        full_rect,
        None,
        None,
        frame_area,
    );

    // Effect should modify left edge symbols
    // vertical_left should become blank
    assert_eq!(result.vertical_left, ' ');
    // top_left should become horizontal_top
    assert_eq!(result.top_left, base_set.horizontal_top);
    // bottom_left should become horizontal_bottom
    assert_eq!(result.bottom_left, base_set.horizontal_bottom);
}

#[test]
fn test_no_effect_early_in_slide_out() {
    let full_rect = Rect::new(90, 25, 20, 10);
    let frame_area = Rect::new(0, 0, 100, 50);
    let base_set = BorderSet::rounded();

    let result = slide_apply_border_effect(
        base_set,
        Anchor::MiddleRight,
        SlideDirection::FromRight,
        100, // Early in the animation, before edge crosses
        AnimationPhase::SlidingOut,
        full_rect,
        None,
        None,
        frame_area,
    );

    // Early in slide-out, no effect yet
    assert_eq!(result, base_set);
}

#[test]
fn test_effect_applied_early_in_slide_in_from_right() {
    let full_rect = Rect::new(90, 25, 20, 10);
    let frame_area = Rect::new(0, 0, 100, 50);
    let base_set = BorderSet::rounded();

    let result = slide_apply_border_effect(
        base_set,
        Anchor::MiddleRight,
        SlideDirection::FromRight,
        50, // Early in slide-in, effect should be active
        AnimationPhase::SlidingIn,
        full_rect,
        None,
        None,
        frame_area,
    );

    // Early in slide-in, effect should be applied
    assert_eq!(result.vertical_right, ' ');
}

#[test]
fn test_no_effect_late_in_slide_in() {
    let full_rect = Rect::new(90, 25, 20, 10);
    let frame_area = Rect::new(0, 0, 100, 50);
    let base_set = BorderSet::rounded();

    let result = slide_apply_border_effect(
        base_set,
        Anchor::MiddleRight,
        SlideDirection::FromRight,
        900, // Late in slide-in, effect should be gone
        AnimationPhase::SlidingIn,
        full_rect,
        None,
        None,
        frame_area,
    );

    // Late in slide-in, no effect
    assert_eq!(result, base_set);
}
