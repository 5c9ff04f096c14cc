use juhradial::actions::ActionError;
use juhradial::direction;
use juhradial::profiles::validate_icon_reference;

#[test]
fn test_validate_icon_reference() {
    // Valid emoji
    assert!(validate_icon_reference("📋"));
    assert!(validate_icon_reference("🎯"));

    // Valid file paths
    assert!(validate_icon_reference("/path/to/icon.png"));
    assert!(validate_icon_reference("icons/copy.svg"));
    assert!(validate_icon_reference("C:\\icons\\paste.ico"));

    // Valid system icon names
    assert!(validate_icon_reference("edit-copy"));
    assert!(validate_icon_reference("document_save"));
    assert!(validate_icon_reference("icon123"));

    // Invalid
    assert!(!validate_icon_reference(""));
    assert!(!validate_icon_reference("has space.txt"));
}

#[test]
fn test_direction_constants() {
    assert_eq!(direction::NORTH, 0);
    assert_eq!(direction::NORTH_EAST, 1);
    assert_eq!(direction::EAST, 2);
    assert_eq!(direction::SOUTH_EAST, 3);
    assert_eq!(direction::SOUTH, 4);
    assert_eq!(direction::SOUTH_WEST, 5);
    assert_eq!(direction::WEST, 6);
    assert_eq!(direction::NORTH_WEST, 7);
}

#[test]
fn test_action_error_display() {
    let err = ActionError::ExecutionFailed("test error".to_string());
    assert!(err.message().contains("test error"));

    let err = ActionError::Timeout;
    assert!(err.message().contains("timed out"));

    let err = ActionError::ShellExecution("command not found".to_string());
    assert!(err.message().contains("Shell execution"));
}
