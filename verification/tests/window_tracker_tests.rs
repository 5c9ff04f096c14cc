use juhradial::window_tracker::WindowInfo;

#[test]
fn test_window_info_default() {
    let info = WindowInfo::default();
    assert!(info.resource_class.is_empty());
    assert!(info.caption.is_none());
}

#[test]
fn test_window_info_clone() {
    let info = WindowInfo {
        resource_class: "firefox".to_string(),
        caption: Some("Mozilla Firefox".to_string()),
    };

    let cloned = info.clone();
    assert_eq!(cloned.resource_class, "firefox");
    assert_eq!(cloned.caption, Some("Mozilla Firefox".to_string()));
}
