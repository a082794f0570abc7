use pawsse::window::{DragController, HostAction, KeyPress};

#[test]
fn press_in_drag_zone_then_move_shifts_window_by_cursor_delta() {
    // Press at local (150, 10) anchors the drag; moving the absolute cursor
    // by (+20, -5) asks for the window anchor shifted by (+20, -5).
    let mut c = DragController::new();
    let act = c.on_mouse_press((150, 10), (500, 300), (100, 200));
    assert_eq!(act, HostAction::Stay);
    assert!(c.is_dragging);
    assert_eq!(c.cursor_anchor, Some((500, 300)));
    assert_eq!(c.window_anchor, Some((100, 200)));

    let act = c.on_cursor_moved((170, 5), (520, 295));
    assert_eq!(act, HostAction::MoveWindow { x: 120, y: 195 });
}

#[test]
fn press_on_close_button_exits_instead_of_dragging() {
    let mut c = DragController::new();
    let act = c.on_mouse_press((280, 10), (600, 400), (50, 60));
    assert_eq!(act, HostAction::Exit);
    assert!(!c.is_dragging);
    assert_eq!(c.cursor_anchor, None);
    assert_eq!(c.window_anchor, None);
}

#[test]
fn close_zone_wins_over_the_overlapping_drag_zone() {
    // (280, 10) lies in both hot-zones; the close test comes first.
    let mut c = DragController::new();
    assert_eq!(c.on_mouse_press((280, 10), (0, 0), (0, 0)), HostAction::Exit);
    // Just left of the close zone at the same height, the drag zone wins.
    let mut c = DragController::new();
    assert_eq!(c.on_mouse_press((274, 10), (0, 0), (0, 0)), HostAction::Stay);
    assert!(c.is_dragging);
}

#[test]
fn press_outside_both_zones_does_nothing() {
    let mut c = DragController::new();
    let act = c.on_mouse_press((150, 100), (500, 300), (100, 200));
    assert_eq!(act, HostAction::Stay);
    assert!(!c.is_dragging);
}

#[test]
fn move_without_drag_only_tracks_the_cursor() {
    let mut c = DragController::new();
    let act = c.on_cursor_moved((33, 44), (533, 544));
    assert_eq!(act, HostAction::Stay);
    assert_eq!(c.last_cursor, (33, 44));
    assert!(!c.is_dragging);
}

#[test]
fn release_always_ends_the_drag() {
    let mut c = DragController::new();
    c.on_mouse_press((10, 10), (500, 300), (100, 200));
    assert!(c.is_dragging);
    c.on_mouse_release();
    assert!(!c.is_dragging);
    assert_eq!(c.cursor_anchor, None);
    assert_eq!(c.window_anchor, None);
    // Releasing again is harmless.
    c.on_mouse_release();
    assert!(!c.is_dragging);
}

#[test]
fn drag_keeps_following_the_cursor() {
    let mut c = DragController::new();
    c.on_mouse_press((5, 5), (1000, 1000), (10, 20));
    assert_eq!(
        c.on_cursor_moved((6, 6), (1001, 999)),
        HostAction::MoveWindow { x: 11, y: 19 }
    );
    assert_eq!(
        c.on_cursor_moved((7, 7), (900, 1100)),
        HostAction::MoveWindow { x: -90, y: 120 }
    );
}

#[test]
fn cancel_key_and_close_request_exit() {
    let c = DragController::new();
    assert_eq!(c.on_key(KeyPress::Cancel), HostAction::Exit);
    assert_eq!(c.on_key(KeyPress::Other), HostAction::Stay);
    assert_eq!(c.on_close_requested(), HostAction::Exit);
}
