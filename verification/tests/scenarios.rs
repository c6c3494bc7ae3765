//! End-to-end scenarios: builder defaults and validation, full lifecycles
//! driven through the manager, and the combined animation configurations.

use ratatui_notifications::{update_states, Anchor, Animation, AnimationPhase, AutoDismiss,
    BorderType, Level, ManagerDefaults, NotificationBuilder, NotificationError, NotificationState,
    Notifications, Overflow, Padding, Position, Rect, SizeConstraint, SlideDirection, Timing,
    CONTENT_LIMIT};

fn test_frame() -> Rect {
    // Standard test frame area (120x40 terminal)
    Rect::new(0, 0, 120, 40)
}

// ============================================================================
// Default value tests - ensure sensible defaults prevent full-height issues
// ============================================================================

#[test]
fn test_default_notification_has_size_constraints() {
    let notification = NotificationBuilder::new("Test content").build().unwrap();

    // These defaults are critical - without them, notifications render at full frame height
    assert!(
        notification.max_width().is_some(),
        "max_width must have a default to prevent full-width notifications"
    );
    assert!(
        notification.max_height().is_some(),
        "max_height must have a default to prevent full-height notifications"
    );

    // Verify they're percentage-based (relative to frame size)
    match notification.max_width() {
        Some(SizeConstraint::Percentage(p)) => {
            assert!(p > 0 && p <= 100, "max_width percentage should be a valid percent");
            assert!(p <= 50, "max_width should be reasonable (<=50% of frame)");
        }
        _ => panic!("max_width should be a Percentage constraint by default"),
    }

    match notification.max_height() {
        Some(SizeConstraint::Percentage(p)) => {
            assert!(p > 0 && p <= 100, "max_height percentage should be a valid percent");
            assert!(p <= 30, "max_height should be reasonable (<=30% of frame)");
        }
        _ => panic!("max_height should be a Percentage constraint by default"),
    }
}

#[test]
fn test_default_notification_has_border() {
    let notification = NotificationBuilder::new("Test content").build().unwrap();

    assert!(
        notification.border_type().is_some(),
        "border_type must have a default for proper size calculation"
    );
}

#[test]
fn test_default_notification_has_padding() {
    let notification = NotificationBuilder::new("Test content").build().unwrap();

    // Padding should not be zero - at least horizontal padding for readability
    assert!(notification.padding() != Padding::zero(), "padding should not be zero by default");
}

#[test]
fn test_default_notification_has_level() {
    let notification = NotificationBuilder::new("Test content").build().unwrap();

    assert!(notification.level().is_some(), "level should have a default for consistent styling");
}

// ============================================================================
// Builder validation
// ============================================================================

#[test]
fn test_empty_content_without_title_is_invalid() {
    let result = NotificationBuilder::new("").build();
    assert!(matches!(result, Err(NotificationError::InvalidConfig(_))));
}

#[test]
fn test_empty_content_with_title_is_valid() {
    let result = NotificationBuilder::new("").title("Heads up").build();
    assert!(result.is_ok());
}

#[test]
fn test_oversized_content_is_rejected() {
    let content = "x".repeat(CONTENT_LIMIT + 1);
    let result = NotificationBuilder::new(&content).build();
    assert_eq!(result.unwrap_err(), NotificationError::ContentTooLarge(CONTENT_LIMIT + 1, CONTENT_LIMIT));
}

#[test]
fn test_oversized_title_is_rejected() {
    let title = "t".repeat(CONTENT_LIMIT + 1);
    let result = NotificationBuilder::new("body").title(&title).build();
    assert_eq!(result.unwrap_err(), NotificationError::ContentTooLarge(CONTENT_LIMIT + 1, CONTENT_LIMIT));
}

#[test]
fn test_percentage_above_one_hundred_is_invalid() {
    let result = NotificationBuilder::new("body")
        .max_size(SizeConstraint::Percentage(101), SizeConstraint::Absolute(10))
        .build();
    assert!(matches!(result, Err(NotificationError::InvalidConfig(_))));
}

#[test]
fn test_content_at_the_limit_is_accepted() {
    let content = "x".repeat(CONTENT_LIMIT);
    let result = NotificationBuilder::new(&content).build();
    assert!(result.is_ok());
}

// ============================================================================
// Anchor tests - all 9 anchors must work correctly
// ============================================================================

#[test]
fn test_all_anchors_can_add_notifications() {
    let anchors = [
        Anchor::TopLeft,
        Anchor::TopCenter,
        Anchor::TopRight,
        Anchor::MiddleLeft,
        Anchor::MiddleCenter,
        Anchor::MiddleRight,
        Anchor::BottomLeft,
        Anchor::BottomCenter,
        Anchor::BottomRight,
    ];

    for anchor in anchors {
        let mut manager = Notifications::new();

        let notification = NotificationBuilder::new(&format!("Test at {:?}", anchor))
            .anchor(anchor)
            .title(&format!("{:?}", anchor))
            .build()
            .unwrap();

        let result = manager.add(notification);
        assert!(result.is_ok(), "Should be able to add notification at {:?}", anchor);
    }
}

#[test]
fn test_notifications_at_different_anchors_are_independent() {
    let mut manager = Notifications::new();

    // Add notifications at different anchors
    let top_left = NotificationBuilder::new("TopLeft").anchor(Anchor::TopLeft).build().unwrap();
    let bottom_right =
        NotificationBuilder::new("BottomRight").anchor(Anchor::BottomRight).build().unwrap();

    let id1 = manager.add(top_left).unwrap();
    let id2 = manager.add(bottom_right).unwrap();

    assert_ne!(id1, id2, "Different notifications should have different IDs");
}

// ============================================================================
// Animation type tests - all animation types must work
// ============================================================================

#[test]
fn test_slide_animation_notification() {
    let mut manager = Notifications::new();

    let notification = NotificationBuilder::new("Slide test")
        .animation(Animation::Slide)
        .slide_direction(SlideDirection::FromRight)
        .anchor(Anchor::TopRight)
        .build()
        .unwrap();

    let result = manager.add(notification);
    assert!(result.is_ok(), "Slide animation notification should be addable");

    // Tick to start animation
    manager.tick(16);
}

#[test]
fn test_expand_collapse_animation_notification() {
    let mut manager = Notifications::new();

    let notification = NotificationBuilder::new("ExpandCollapse test")
        .animation(Animation::ExpandCollapse)
        .anchor(Anchor::MiddleCenter)
        .build()
        .unwrap();

    let result = manager.add(notification);
    assert!(result.is_ok(), "ExpandCollapse animation notification should be addable");

    // Tick to start animation
    manager.tick(16);
}

#[test]
fn test_fade_animation_notification() {
    let mut manager = Notifications::new();

    let notification = NotificationBuilder::new("Fade test")
        .animation(Animation::Fade)
        .anchor(Anchor::MiddleLeft)
        .build()
        .unwrap();

    let result = manager.add(notification);
    assert!(result.is_ok(), "Fade animation notification should be addable");

    // Tick to start animation
    manager.tick(16);
}

// ============================================================================
// Custom position tests - entry/exit positions must be propagated
// ============================================================================

#[test]
fn test_custom_entry_position_is_set() {
    let entry_pos = Position::new(10, 20);

    let notification =
        NotificationBuilder::new("Custom entry test").entry_position(entry_pos).build().unwrap();

    assert_eq!(
        notification.custom_entry_position(),
        Some(entry_pos),
        "Custom entry position should be stored in notification"
    );
}

#[test]
fn test_custom_exit_position_is_set() {
    let exit_pos = Position::new(100, 30);

    let notification =
        NotificationBuilder::new("Custom exit test").exit_position(exit_pos).build().unwrap();

    assert_eq!(
        notification.custom_exit_position(),
        Some(exit_pos),
        "Custom exit position should be stored in notification"
    );
}

#[test]
fn test_custom_positions_with_slide_animation() {
    let mut manager = Notifications::new();

    let entry_pos = Position::new(10, 20);
    let exit_pos = Position::new(100, 20);

    let notification = NotificationBuilder::new("Custom path test")
        .anchor(Anchor::MiddleCenter)
        .animation(Animation::Slide)
        .slide_direction(SlideDirection::FromLeft)
        .entry_position(entry_pos)
        .exit_position(exit_pos)
        .fade(true)
        .build()
        .unwrap();

    let result = manager.add(notification);
    assert!(result.is_ok(), "Notification with custom positions should be addable");

    // Tick to start animation
    manager.tick(16);
}

// ============================================================================
// Timing tests - various timing configurations must work
// ============================================================================

#[test]
fn test_custom_timing_is_respected() {
    let notification = NotificationBuilder::new("Timing test")
        .timing(Timing::Fixed(500), Timing::Fixed(4000), Timing::Fixed(750))
        .build()
        .unwrap();

    assert_eq!(notification.slide_in_timing(), Timing::Fixed(500));
    assert_eq!(notification.dwell_timing(), Timing::Fixed(4000));
    assert_eq!(notification.slide_out_timing(), Timing::Fixed(750));
}

#[test]
fn test_auto_dismiss_configurations() {
    // Test AutoDismiss::After
    let notification = NotificationBuilder::new("Auto dismiss test")
        .auto_dismiss(AutoDismiss::After(5000))
        .build()
        .unwrap();
    assert_eq!(notification.auto_dismiss(), AutoDismiss::After(5000));

    // Test AutoDismiss::Never
    let notification = NotificationBuilder::new("Never dismiss test")
        .auto_dismiss(AutoDismiss::Never)
        .build()
        .unwrap();
    assert_eq!(notification.auto_dismiss(), AutoDismiss::Never);
}

// ============================================================================
// Slide direction tests - all directions must work with appropriate anchors
// ============================================================================

#[test]
fn test_slide_directions_with_anchors() {
    let test_cases = [
        (Anchor::TopRight, SlideDirection::FromTop),
        (Anchor::TopRight, SlideDirection::FromRight),
        (Anchor::BottomLeft, SlideDirection::FromBottom),
        (Anchor::BottomLeft, SlideDirection::FromLeft),
        (Anchor::MiddleCenter, SlideDirection::Default),
    ];

    for (anchor, direction) in test_cases {
        let mut manager = Notifications::new();

        let notification = NotificationBuilder::new(&format!("{:?} from {:?}", anchor, direction))
            .anchor(anchor)
            .slide_direction(direction)
            .build()
            .unwrap();

        let result = manager.add(notification);
        assert!(
            result.is_ok(),
            "Notification at {:?} with direction {:?} should be addable",
            anchor,
            direction
        );

        // Tick to verify no panics during animation
        manager.tick(16);
    }
}

// ============================================================================
// Styling tests - custom styles must work
// ============================================================================

#[test]
fn test_custom_border_types() {
    let border_types =
        [BorderType::Plain, BorderType::Rounded, BorderType::Double, BorderType::Thick];

    for border_type in border_types {
        let notification = NotificationBuilder::new(&format!("Border: {:?}", border_type))
            .border_type(border_type)
            .build()
            .unwrap();

        assert_eq!(
            notification.border_type(),
            Some(border_type),
            "Border type {:?} should be set",
            border_type
        );
    }
}

#[test]
fn test_all_log_levels() {
    let levels = [Level::Info, Level::Warn, Level::Error, Level::Debug, Level::Trace];

    for level in levels {
        let notification = NotificationBuilder::new(&format!("Level: {:?}", level))
            .level(level)
            .build()
            .unwrap();

        assert_eq!(notification.level(), Some(level), "Level {:?} should be set", level);
    }
}

// ============================================================================
// Manager configuration tests - overflow and concurrent limits
// ============================================================================

#[test]
fn test_max_concurrent_with_overflow_discard_oldest() {
    let mut manager = Notifications::new().max_concurrent(Some(3)).overflow(Overflow::DiscardOldest);

    // Add 5 notifications at same anchor
    for i in 0..5 {
        let notification = NotificationBuilder::new(&format!("Notification {}", i))
            .anchor(Anchor::BottomRight)
            .build()
            .unwrap();
        manager.add(notification).unwrap();
    }

    // Tick to process
    manager.tick(16);

    // The three newest survive.
    assert_eq!(manager.states.len(), 3);
}

#[test]
fn test_max_concurrent_with_overflow_discard_newest() {
    let mut manager = Notifications::new().max_concurrent(Some(3)).overflow(Overflow::DiscardNewest);

    // Add 5 notifications at same anchor
    for i in 0..5 {
        let notification = NotificationBuilder::new(&format!("Notification {}", i))
            .anchor(Anchor::BottomRight)
            .build()
            .unwrap();
        manager.add(notification).unwrap();
    }

    // Tick to process
    manager.tick(16);

    // The three oldest survive.
    assert_eq!(manager.states.len(), 3);
}

// ============================================================================
// Full demo scenario tests
// ============================================================================

#[test]
fn test_demo_scenario_position_anchor() {
    let mut manager = Notifications::new().max_concurrent(Some(3)).overflow(Overflow::DiscardOldest);

    let notification = NotificationBuilder::new("Position: TopLeft\nSlide animation")
        .anchor(Anchor::TopLeft)
        .title(" TopLeft ")
        .level(Level::Info)
        .slide_direction(SlideDirection::Default)
        .margin(0)
        .timing(Timing::Fixed(400), Timing::Fixed(3000), Timing::Fixed(500))
        .border_type(BorderType::Rounded)
        .build()
        .unwrap();

    let result = manager.add(notification);
    assert!(result.is_ok(), "Position anchor scenario should work");
    manager.tick(16);
}

#[test]
fn test_demo_scenario_combined_effects() {
    let mut manager = Notifications::new();

    let entry_pos = Position::new(30, 20);
    let exit_pos = Position::new(80, 20);

    let notification =
        NotificationBuilder::new("Slides in while fading\nthen fades out while sliding")
            .anchor(Anchor::MiddleLeft)
            .title(" Slide + Fade ")
            .slide_direction(SlideDirection::FromLeft)
            .timing(Timing::Fixed(600), Timing::Fixed(3000), Timing::Fixed(700))
            .entry_position(entry_pos)
            .exit_position(exit_pos)
            .fade(true)
            .border_type(BorderType::Rounded)
            .build()
            .unwrap();

    // Verify custom positions are set
    assert_eq!(notification.custom_entry_position(), Some(entry_pos));
    assert_eq!(notification.custom_exit_position(), Some(exit_pos));
    assert!(notification.fade_effect());

    let result = manager.add(notification);
    assert!(result.is_ok(), "Combined effects scenario should work");
    manager.tick(16);
}

#[test]
fn test_demo_scenario_expand_animation() {
    let mut manager = Notifications::new();

    let notification = NotificationBuilder::new("Expands from center point\nand collapses back")
        .anchor(Anchor::MiddleCenter)
        .title(" Expand ")
        .level(Level::Info)
        .animation(Animation::ExpandCollapse)
        .timing(Timing::Fixed(350), Timing::Fixed(2000), Timing::Fixed(350))
        .border_type(BorderType::Rounded)
        .build()
        .unwrap();

    let result = manager.add(notification);
    assert!(result.is_ok(), "Expand animation scenario should work");
    manager.tick(16);
}

#[test]
fn test_demo_scenario_fade_animation() {
    let mut manager = Notifications::new();

    let notification = NotificationBuilder::new("Fades in smoothly\nthen fades out")
        .anchor(Anchor::MiddleCenter)
        .title(" Fade ")
        .animation(Animation::Fade)
        .timing(Timing::Fixed(600), Timing::Fixed(2000), Timing::Fixed(600))
        .border_type(BorderType::Rounded)
        .build()
        .unwrap();

    let result = manager.add(notification);
    assert!(result.is_ok(), "Fade animation scenario should work");
    manager.tick(16);
}

#[test]
fn test_demo_scenario_all_log_levels() {
    let mut manager = Notifications::new();

    let levels_anchors = [
        (Level::Trace, Anchor::BottomLeft),
        (Level::Debug, Anchor::BottomCenter),
        (Level::Info, Anchor::BottomRight),
        (Level::Warn, Anchor::TopLeft),
        (Level::Error, Anchor::TopRight),
    ];

    for (level, anchor) in levels_anchors {
        let notification = NotificationBuilder::new(&format!("{:?}: level demonstration", level))
            .anchor(anchor)
            .title(&format!(" {:?} ", level))
            .level(level)
            .border_type(BorderType::Rounded)
            .build()
            .unwrap();

        let result = manager.add(notification);
        assert!(result.is_ok(), "Log levels scenario should work for {:?}", level);
    }

    manager.tick(16);
}

// ============================================================================
// Regression tests
// ============================================================================

#[test]
fn test_regression_middle_anchors_render() {
    // Middle anchors must produce in-frame layouts: notification height must
    // not exceed the available height.
    let mut manager = Notifications::new();

    let middle_anchors = [Anchor::MiddleLeft, Anchor::MiddleCenter, Anchor::MiddleRight];

    for anchor in middle_anchors {
        let notification =
            NotificationBuilder::new(&format!("Test at {:?}", anchor)).anchor(anchor).build().unwrap();

        // Verify size constraints are reasonable
        assert!(notification.max_height().is_some(), "Notification must have max_height constraint");

        let result = manager.add(notification);
        assert!(result.is_ok(), "Middle anchor {:?} notification should be addable", anchor);
    }

    // Tick and render to ensure every middle-anchored notification produces
    // an in-frame layout.
    manager.tick(16);
    let items = manager.render_plan(test_frame());
    assert_eq!(items.len(), 3);
}

#[test]
fn test_regression_bottom_anchors_render() {
    let mut manager = Notifications::new();

    let bottom_anchors = [Anchor::BottomLeft, Anchor::BottomCenter, Anchor::BottomRight];

    for anchor in bottom_anchors {
        let notification =
            NotificationBuilder::new(&format!("Test at {:?}", anchor)).anchor(anchor).build().unwrap();

        let result = manager.add(notification);
        assert!(result.is_ok(), "Bottom anchor {:?} notification should be addable", anchor);
    }

    manager.tick(16);
    let items = manager.render_plan(test_frame());
    assert_eq!(items.len(), 3);
}

#[test]
fn test_regression_custom_positions_propagated() {
    // Custom entry and exit positions must be copied from the Notification
    // into the NotificationState at construction time.
    let entry_pos = Position::new(10, 20);
    let exit_pos = Position::new(100, 50);

    let notification = NotificationBuilder::new("Custom position test")
        .entry_position(entry_pos)
        .exit_position(exit_pos)
        .build()
        .unwrap();

    // Verify positions are stored in notification
    assert_eq!(notification.custom_entry_position(), Some(entry_pos), "Entry position must be stored");
    assert_eq!(notification.custom_exit_position(), Some(exit_pos), "Exit position must be stored");

    // The state created from the notification must carry the same copies.
    let state = NotificationState::new(7, notification, &ManagerDefaults::default());
    assert_eq!(state.custom_entry_position, Some(entry_pos));
    assert_eq!(state.custom_exit_position, Some(exit_pos));

    // Add to manager and tick to ensure state is created properly
    let mut manager = Notifications::new();
    let notification2 = NotificationBuilder::new("Custom position test")
        .entry_position(entry_pos)
        .exit_position(exit_pos)
        .build()
        .unwrap();
    manager.add(notification2).unwrap();
    manager.tick(16);
    assert_eq!(manager.states[0].custom_entry_position, Some(entry_pos));
    assert_eq!(manager.states[0].custom_exit_position, Some(exit_pos));
}

#[test]
fn test_regression_notification_not_full_height() {
    // Guards against notifications being calculated as full frame height.
    let notification = NotificationBuilder::new("Short content").build().unwrap();

    match notification.max_height() {
        Some(SizeConstraint::Percentage(p)) => {
            let max_height = test_frame().height as u32 * p as u32 / 100;
            assert!(
                max_height < (test_frame().height / 2) as u32,
                "Max height ({}) should be less than half frame height ({})",
                max_height,
                test_frame().height / 2
            );
        }
        Some(SizeConstraint::Absolute(h)) => {
            assert!(
                h < test_frame().height / 2,
                "Max height ({}) should be less than half frame height",
                h
            );
        }
        None => panic!("max_height should not be None"),
    }
}

// ============================================================================
// End-to-end lifecycle scenarios
// ============================================================================

#[test]
fn test_slide_lifecycle_end_to_end() {
    // A slide notification with entry 100ms, dwell 200ms, exit 100ms walks
    // Pending -> SlidingIn -> Dwelling -> SlidingOut -> Finished on exactly
    // those boundaries, and the last call reports it finished.
    let defaults = ManagerDefaults::default();
    let notification = NotificationBuilder::new("lifecycle")
        .animation(Animation::Slide)
        .timing(Timing::Fixed(100), Timing::Fixed(200), Timing::Fixed(100))
        .build()
        .unwrap();
    let mut states = vec![NotificationState::new(1, notification, &defaults)];

    let finished = update_states(&mut states, 100);
    assert_eq!(states[0].current_phase, AnimationPhase::Dwelling);
    assert_eq!(states[0].animation_progress, 1000);
    assert!(finished.is_empty());

    let finished = update_states(&mut states, 200);
    assert_eq!(states[0].current_phase, AnimationPhase::SlidingOut);
    assert_eq!(states[0].animation_progress, 0);
    assert!(finished.is_empty());

    let finished = update_states(&mut states, 100);
    assert_eq!(states[0].current_phase, AnimationPhase::Finished);
    assert_eq!(states[0].animation_progress, 1000);
    assert_eq!(finished, vec![1]);
}

#[test]
fn test_manager_full_lifecycle_evicts_when_done() {
    let mut manager = Notifications::new();
    let notification = NotificationBuilder::new("whole life")
        .timing(Timing::Fixed(100), Timing::Fixed(200), Timing::Fixed(100))
        .auto_dismiss(AutoDismiss::After(200))
        .build()
        .unwrap();
    let id = manager.add(notification).unwrap();

    manager.tick(100);
    assert_eq!(manager.states[0].current_phase, AnimationPhase::Dwelling);
    manager.tick(200);
    assert_eq!(manager.states[0].current_phase, AnimationPhase::SlidingOut);
    manager.tick(100);
    // Finished notifications are removed by the same tick.
    assert!(manager.states.is_empty());
    assert!(!manager.remove(id));
}

#[test]
fn test_stacking_scenario_three_newest_of_ten() {
    // Ten eligible notifications at one anchor with a limit of three: the
    // layout holds exactly the three most recently created.
    let defaults = ManagerDefaults::default();
    let mut states = Vec::new();
    for id in 1..=10u64 {
        let notification = NotificationBuilder::new("stacked")
            .anchor(Anchor::TopRight)
            .build()
            .unwrap();
        let mut state = NotificationState::new(id, notification, &defaults);
        state.current_phase = AnimationPhase::Dwelling;
        state.full_rect = Rect::new(0, 0, 20, 5);
        states.push(state);
    }
    let ids: Vec<u64> = (1..=10).collect();
    let frame = Rect::new(0, 0, 100, 100);

    let result =
        ratatui_notifications::calculate_stacking_positions(&states, Anchor::TopRight, &ids, frame, Some(3));

    assert_eq!(result.len(), 3);
    assert_eq!(result[0].id, 10);
    assert_eq!(result[1].id, 9);
    assert_eq!(result[2].id, 8);
}

#[test]
fn test_expand_scenario_minimum_box_centered() {
    // An expand-collapse notification at zero progress is a 3x3 box centered
    // on the source rectangle's center.
    let source = Rect::new(10, 20, 33, 13);
    let frame = Rect::new(0, 0, 100, 100);
    let result = ratatui_notifications::expand::calculate_rect(
        source,
        frame,
        AnimationPhase::Expanding,
        0,
    );
    assert_eq!(result, Rect::new(25, 25, 3, 3));
}
