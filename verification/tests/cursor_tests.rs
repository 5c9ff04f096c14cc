use juhradial::cursor::{CursorPosition, ScreenBounds, EDGE_MARGIN, MENU_DIAMETER, MENU_RADIUS};

#[test]
fn test_cursor_position_new() {
    let pos = CursorPosition::new(100, 200);
    assert_eq!(pos.x, 100);
    assert_eq!(pos.y, 200);
}

#[test]
fn test_edge_clamping_center() {
    // Cursor in center of screen should not be clamped
    let bounds = ScreenBounds { width: 1920, height: 1080 };
    let pos = CursorPosition::new(960, 540);
    let clamped = pos.clamp_to_screen(&bounds);

    assert_eq!(clamped.x, 960);
    assert_eq!(clamped.y, 540);
}

#[test]
fn test_edge_clamping_top_left() {
    // Cursor at (0, 0) should be clamped to the minimum valid position
    let bounds = ScreenBounds { width: 1920, height: 1080 };
    let pos = CursorPosition::new(0, 0);
    let clamped = pos.clamp_to_screen(&bounds);

    // min_x = EDGE_MARGIN + MENU_RADIUS = 20 + 140 = 160
    assert_eq!(clamped.x, EDGE_MARGIN + MENU_RADIUS);
    assert_eq!(clamped.y, EDGE_MARGIN + MENU_RADIUS);
}

#[test]
fn test_edge_clamping_bottom_right() {
    // Cursor at the bottom-right corner should be clamped
    let bounds = ScreenBounds { width: 1920, height: 1080 };
    let pos = CursorPosition::new(1920, 1080);
    let clamped = pos.clamp_to_screen(&bounds);

    // max_x = width - EDGE_MARGIN - MENU_RADIUS = 1920 - 20 - 140 = 1760
    // max_y = height - EDGE_MARGIN - MENU_RADIUS = 1080 - 20 - 140 = 920
    assert_eq!(clamped.x, 1920 - EDGE_MARGIN - MENU_RADIUS);
    assert_eq!(clamped.y, 1080 - EDGE_MARGIN - MENU_RADIUS);
}

#[test]
fn test_edge_clamping_near_edge() {
    // Cursor 10px from the left edge should be clamped
    let bounds = ScreenBounds { width: 1920, height: 1080 };
    let pos = CursorPosition::new(10, 540);
    let clamped = pos.clamp_to_screen(&bounds);

    assert_eq!(clamped.x, EDGE_MARGIN + MENU_RADIUS); // 160
    assert_eq!(clamped.y, 540); // Y unchanged
}

#[test]
fn test_menu_constants() {
    assert_eq!(MENU_DIAMETER, 280);
    assert_eq!(EDGE_MARGIN, 20);
    assert_eq!(MENU_RADIUS, 140);
}

#[test]
fn test_screen_bounds_default() {
    let bounds = ScreenBounds::default();
    assert_eq!(bounds.width, 1920);
    assert_eq!(bounds.height, 1080);
}
