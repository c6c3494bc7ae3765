//! The notification manager (identifiers, overflow policy, tick, render
//! plan) and the stacking orchestrator.

use ratatui_notifications::{calculate_stacking_positions, Anchor, AnimationPhase,
    ManagerDefaults, Notification, NotificationBuilder, NotificationState, Notifications,
    Overflow, Rect};

// Helper to create a simple notification for testing
fn create_test_notification(anchor: Anchor) -> Notification {
    NotificationBuilder::new("Test notification").anchor(anchor).build().unwrap()
}

#[test]
fn test_new_manager_has_no_notifications() {
    let manager = Notifications::new();

    // Manager should start empty
    assert!(manager.states.is_empty());
    drop(manager);
}

#[test]
fn test_add_notification_returns_unique_id() {
    let mut manager = Notifications::new();

    let notif1 = create_test_notification(Anchor::BottomRight);
    let notif2 = create_test_notification(Anchor::BottomRight);

    let id1 = manager.add(notif1).unwrap();
    let id2 = manager.add(notif2).unwrap();

    // IDs should be different
    assert_ne!(id1, id2);
}

#[test]
fn test_add_notification_with_custom_id_uses_that_id() {
    let mut manager = Notifications::new();

    let notif = create_test_notification(Anchor::BottomRight);
    let id = manager.add(notif).unwrap();

    // ID should be 0 (first notification)
    assert_eq!(id, 0);
}

#[test]
fn test_remove_notification_returns_true_if_existed() {
    let mut manager = Notifications::new();

    let notif = create_test_notification(Anchor::BottomRight);
    let id = manager.add(notif).unwrap();

    // Remove should return true for existing notification
    assert!(manager.remove(id));
}

#[test]
fn test_remove_notification_returns_false_if_not_existed() {
    let mut manager = Notifications::new();

    // Remove non-existent ID should return false
    assert!(!manager.remove(999));
}

#[test]
fn test_clear_removes_all_notifications() {
    let mut manager = Notifications::new();

    // Add several notifications
    let notif1 = create_test_notification(Anchor::BottomRight);
    let notif2 = create_test_notification(Anchor::TopLeft);
    let notif3 = create_test_notification(Anchor::BottomRight);

    manager.add(notif1).unwrap();
    manager.add(notif2).unwrap();
    manager.add(notif3).unwrap();

    // Clear should remove all
    manager.clear();

    // After clear, manager should be empty (verify by trying to remove)
    assert!(!manager.remove(0));
    assert!(!manager.remove(1));
    assert!(!manager.remove(2));
}

#[test]
fn test_max_concurrent_setting_is_respected() {
    let mut manager = Notifications::new().max_concurrent(Some(2));

    // Add 2 notifications (should succeed)
    let notif1 = create_test_notification(Anchor::BottomRight);
    let notif2 = create_test_notification(Anchor::BottomRight);

    let id1 = manager.add(notif1).unwrap();
    let id2 = manager.add(notif2).unwrap();

    // Add 3rd notification - should trigger overflow behavior
    let notif3 = create_test_notification(Anchor::BottomRight);
    let id3 = manager.add(notif3).unwrap();

    // Default overflow is DiscardOldest, so id1 should be gone
    assert!(!manager.remove(id1)); // Already removed
    assert!(manager.remove(id2)); // Still exists
    assert!(manager.remove(id3)); // Newly added
}

#[test]
fn test_overflow_discard_oldest_removes_oldest_when_full() {
    let mut manager = Notifications::new().max_concurrent(Some(2)).overflow(Overflow::DiscardOldest);

    // Add first notification
    let notif1 = create_test_notification(Anchor::BottomRight);
    let id1 = manager.add(notif1).unwrap();

    // Add second notification
    let notif2 = create_test_notification(Anchor::BottomRight);
    let id2 = manager.add(notif2).unwrap();

    // Add third notification - should discard id1
    let notif3 = create_test_notification(Anchor::BottomRight);
    let id3 = manager.add(notif3).unwrap();

    // id1 should be gone, id2 and id3 should exist
    assert!(!manager.remove(id1));
    assert!(manager.remove(id2));
    assert!(manager.remove(id3));
}

#[test]
fn test_overflow_discard_newest_drops_the_incoming_notification() {
    // Under DiscardNewest the incoming notification still receives an
    // identifier but is dropped at once; the established ones remain.
    let mut manager = Notifications::new().max_concurrent(Some(2)).overflow(Overflow::DiscardNewest);

    let id1 = manager.add(create_test_notification(Anchor::TopLeft)).unwrap();
    let id2 = manager.add(create_test_notification(Anchor::TopLeft)).unwrap();
    let id3 = manager.add(create_test_notification(Anchor::TopLeft)).unwrap();

    assert_ne!(id2, id3);
    assert!(manager.remove(id1));
    assert!(manager.remove(id2));
    assert!(!manager.remove(id3));
}

#[test]
fn test_tick_updates_notification_states() {
    let mut manager = Notifications::new();

    let notif = create_test_notification(Anchor::BottomRight);
    manager.add(notif).unwrap();

    // Tick should not panic
    manager.tick(16);

    // The single notification entered its entry phase on the first tick.
    assert_eq!(manager.states[0].current_phase, AnimationPhase::SlidingIn);
}

#[test]
fn test_tick_evicts_finished_notifications() {
    let mut manager = Notifications::new();
    let notification = NotificationBuilder::new("short lived")
        .timing(
            ratatui_notifications::Timing::Fixed(10),
            ratatui_notifications::Timing::Auto,
            ratatui_notifications::Timing::Fixed(10),
        )
        .auto_dismiss(ratatui_notifications::AutoDismiss::After(10))
        .build()
        .unwrap();
    let id = manager.add(notification).unwrap();

    manager.tick(10); // entry completes
    manager.tick(10); // dwell expires
    manager.tick(10); // exit completes; finished notifications are evicted

    assert!(!manager.remove(id));
    assert!(manager.states.is_empty());
}

#[test]
fn test_builder_pattern_is_fluent() {
    // Should be able to chain builder methods
    let _manager = Notifications::new().max_concurrent(Some(5)).overflow(Overflow::DiscardNewest);

    // If this compiles, fluent interface works
}

#[test]
fn test_default_creates_unlimited_manager() {
    let mut manager = Notifications::default();

    // Should be able to add many notifications without limit
    for i in 0..10 {
        let notif = NotificationBuilder::new(&format!("Notification {}", i))
            .anchor(Anchor::BottomRight)
            .build()
            .unwrap();
        manager.add(notif).unwrap();
    }

    // All should still exist (no overflow)
    for i in 0..10 {
        assert!(manager.remove(i));
    }
}

#[test]
fn test_render_does_not_panic() {
    let mut manager = Notifications::new();
    let notif = create_test_notification(Anchor::BottomRight);
    manager.add(notif).unwrap();
    manager.tick(16);

    // Computing the draw instructions must not panic, and everything it
    // returns must lie within the frame.
    let frame = Rect::new(0, 0, 80, 24);
    let items = manager.render_plan(frame);
    for item in &items {
        assert!(item.rect.x >= frame.x || item.rect.width == 0);
        assert!(item.rect.right() <= frame.right() || item.rect.width == 0);
        assert!(item.rect.y >= frame.y || item.rect.height == 0);
        assert!(item.rect.bottom() <= frame.bottom() || item.rect.height == 0);
    }
    assert_eq!(items.len(), 1);
}

// Helper to build a stacking test state, mirroring the runtime states the
// manager owns: a given phase, size and creation ordinal.
fn stack_state(id: u64, phase: AnimationPhase, width: u16, height: u16) -> NotificationState {
    let defaults = ManagerDefaults::default();
    let notification = create_test_notification(Anchor::BottomRight);
    let mut state = NotificationState::new(id, notification, &defaults);
    state.current_phase = phase;
    state.full_rect = Rect::new(0, 0, width, height);
    state
}

fn with_created_at(mut state: NotificationState, created_at: u64) -> NotificationState {
    state.created_at = created_at;
    state
}

#[test]
fn test_empty_notifications_returns_empty() {
    let notifications: Vec<NotificationState> = Vec::new();
    let ids_at_anchor: Vec<u64> = vec![];
    let frame_area = Rect::new(0, 0, 100, 100);

    let result = calculate_stacking_positions(
        &notifications,
        Anchor::BottomRight,
        &ids_at_anchor,
        frame_area,
        None,
    );

    assert!(result.is_empty(), "Empty notifications should return empty result");
}

#[test]
fn test_single_notification_correct_position() {
    let notifications = vec![stack_state(1, AnimationPhase::Dwelling, 40, 10)];
    let ids_at_anchor = vec![1];
    let frame_area = Rect::new(0, 0, 100, 100);

    let result = calculate_stacking_positions(
        &notifications,
        Anchor::BottomRight,
        &ids_at_anchor,
        frame_area,
        None,
    );

    assert_eq!(result.len(), 1, "Should return one stacked notification");
    assert_eq!(result[0].id, 1, "Should have correct ID");
    assert!(result[0].rect.width > 0 && result[0].rect.height > 0, "Should have valid dimensions");
}

#[test]
fn test_multiple_notifications_stack_correctly() {
    let now = 1000;
    let notifications = vec![
        with_created_at(stack_state(1, AnimationPhase::Dwelling, 40, 10), now),
        with_created_at(stack_state(2, AnimationPhase::Dwelling, 40, 10), now + 100),
        with_created_at(stack_state(3, AnimationPhase::Dwelling, 40, 10), now + 200),
    ];

    let ids_at_anchor = vec![1, 2, 3];
    let frame_area = Rect::new(0, 0, 100, 100);

    let result = calculate_stacking_positions(
        &notifications,
        Anchor::BottomRight,
        &ids_at_anchor,
        frame_area,
        None,
    );

    assert_eq!(result.len(), 3, "Should return all three notifications");

    // For bottom anchors: newest is first (at anchor), oldest is last (furthest from anchor)
    // This is the visual stacking order - newest appears at the bottom corner
    assert_eq!(result[0].id, 3, "First (at anchor) should be newest");
    assert_eq!(result[1].id, 2, "Second should be middle");
    assert_eq!(result[2].id, 1, "Third (furthest from anchor) should be oldest");

    // Verify they stack correctly: newer notifications closer to anchor (higher Y for bottom)
    assert!(result[2].rect.y < result[1].rect.y, "Oldest should be higher (lower Y)");
    assert!(result[1].rect.y < result[0].rect.y, "Middle should be between oldest and newest");
}

#[test]
fn test_bottom_anchors_stack_upward() {
    let now = 1000;
    let notifications = vec![
        with_created_at(stack_state(1, AnimationPhase::Dwelling, 40, 10), now),
        with_created_at(stack_state(2, AnimationPhase::Dwelling, 40, 10), now + 100),
    ];

    let ids_at_anchor = vec![1, 2];
    let frame_area = Rect::new(0, 0, 100, 100);

    let result = calculate_stacking_positions(
        &notifications,
        Anchor::BottomRight,
        &ids_at_anchor,
        frame_area,
        None,
    );

    assert_eq!(result.len(), 2);

    // For bottom anchors, newer notifications should be higher... the newest
    // sits at the anchor (largest Y), each older one above it.
    assert!(result[1].rect.y < result[0].rect.y,
        "Bottom anchor: older notification should have lower Y (stack upward)");
}

#[test]
fn test_top_anchors_stack_downward() {
    let now = 1000;
    let notifications = vec![
        with_created_at(stack_state(1, AnimationPhase::Dwelling, 40, 10), now),
        with_created_at(stack_state(2, AnimationPhase::Dwelling, 40, 10), now + 100),
    ];

    let ids_at_anchor = vec![1, 2];
    let frame_area = Rect::new(0, 0, 100, 100);

    let result = calculate_stacking_positions(
        &notifications,
        Anchor::TopRight,
        &ids_at_anchor,
        frame_area,
        None,
    );

    assert_eq!(result.len(), 2);

    // For top anchors, the newest sits at the anchor (smallest Y), each older
    // one below it.
    assert!(result[1].rect.y > result[0].rect.y,
        "Top anchor: older notification should have higher Y (stack downward)");
}

#[test]
fn test_stacking_respects_available_height() {
    // Create 10 notifications, each 15 cells tall
    let mut notifications = Vec::new();
    for i in 1..=10 {
        notifications.push(with_created_at(
            stack_state(i, AnimationPhase::Dwelling, 40, 15),
            1000 + i * 10,
        ));
    }

    let ids_at_anchor: Vec<u64> = (1..=10).collect();

    // Frame area only 50 cells tall - can only fit ~3 notifications with spacing
    let frame_area = Rect::new(0, 0, 100, 50);

    let result = calculate_stacking_positions(
        &notifications,
        Anchor::BottomRight,
        &ids_at_anchor,
        frame_area,
        None,
    );

    // Should return fewer than 10 due to height constraint
    assert!(result.len() < 10, "Should limit based on available height");
    assert!(result.len() > 0, "Should return at least some notifications");

    // All returned notifications should fit within frame
    for stacked in &result {
        assert!(stacked.rect.y >= frame_area.y, "Y should be within frame");
        assert!(stacked.rect.bottom() <= frame_area.bottom(), "Bottom should be within frame");
    }
}

#[test]
fn test_max_concurrent_limit_respected() {
    // Create 10 notifications
    let mut notifications = Vec::new();
    for i in 1..=10 {
        notifications.push(with_created_at(
            stack_state(i, AnimationPhase::Dwelling, 40, 10),
            1000 + i * 10,
        ));
    }

    let ids_at_anchor: Vec<u64> = (1..=10).collect();
    let frame_area = Rect::new(0, 0, 100, 200); // Plenty of space

    // Set max_concurrent to 3
    let result = calculate_stacking_positions(
        &notifications,
        Anchor::BottomRight,
        &ids_at_anchor,
        frame_area,
        Some(3),
    );

    assert_eq!(result.len(), 3, "Should respect max_concurrent limit of 3");

    // Should keep the newest 3 (IDs 8, 9, 10)
    // For bottom anchors: newest first (at anchor), oldest last (furthest from anchor)
    assert_eq!(result[0].id, 10, "First (at anchor) should be newest");
    assert_eq!(result[1].id, 9, "Second should be second newest");
    assert_eq!(result[2].id, 8, "Third (furthest from anchor) should be third newest");
}

#[test]
fn test_pending_and_finished_notifications_excluded() {
    let now = 1000;
    let notifications = vec![
        with_created_at(stack_state(1, AnimationPhase::Pending, 40, 10), now),
        with_created_at(stack_state(2, AnimationPhase::Dwelling, 40, 10), now + 100),
        with_created_at(stack_state(3, AnimationPhase::Finished, 40, 10), now + 200),
    ];

    let ids_at_anchor = vec![1, 2, 3];
    let frame_area = Rect::new(0, 0, 100, 100);

    let result = calculate_stacking_positions(
        &notifications,
        Anchor::BottomRight,
        &ids_at_anchor,
        frame_area,
        None,
    );

    assert_eq!(result.len(), 1, "Should only include visible notifications");
    assert_eq!(result[0].id, 2, "Should only include the Dwelling notification");
}
