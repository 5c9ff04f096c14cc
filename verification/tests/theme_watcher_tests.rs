use juhradial::theme_watcher::{
    within_debounce_window, ThemeEvent, ThemeWatcherError, DEBOUNCE_MS,
};

#[test]
fn test_theme_event_display() {
    let event = ThemeEvent::Modified(String::from("/test/theme.json"));
    assert!(matches!(event, ThemeEvent::Modified(_)));
}

#[test]
fn test_theme_watcher_error_display() {
    let error = ThemeWatcherError::InitError("test error".to_string());
    let msg = error.message();
    assert!(msg.contains("initialize"));
    assert!(msg.contains("test error"));
}

#[test]
fn test_watch_error_display() {
    let error =
        ThemeWatcherError::WatchError(String::from("/test/path"), "permission denied".to_string());
    let msg = error.message();
    assert!(msg.contains("/test/path"));
    assert!(msg.contains("permission denied"));
}

#[test]
fn test_debounce_constant() {
    assert_eq!(DEBOUNCE_MS, 50);
}

#[test]
fn test_debounce_window() {
    assert!(within_debounce_window(0));
    assert!(within_debounce_window(49));
    assert!(!within_debounce_window(50));
    assert!(!within_debounce_window(1000));
}
