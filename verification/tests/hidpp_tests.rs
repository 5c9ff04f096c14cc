use juhradial::blocklisted_features;
use juhradial::allowed_features;
use juhradial::features;
use juhradial::hidpp::{
    hex_u16, verify_feature_safety, ConnectionType, HapticError, HidppLongMessage,
    HidppShortMessage,
};

#[test]
fn test_short_message_construction() {
    let msg = HidppShortMessage::new(0xFF, 0x00, 0x01, 0x05).with_params([0xAA, 0xBB, 0xCC]);

    let bytes = msg.to_bytes();
    assert_eq!(bytes[0], 0x10); // Short report type
    assert_eq!(bytes[1], 0xFF); // Device index
    assert_eq!(bytes[2], 0x00); // Feature index
    assert_eq!(bytes[3], 0x15); // Function 1, SW ID 5
    assert_eq!(bytes[4], 0xAA);
    assert_eq!(bytes[5], 0xBB);
    assert_eq!(bytes[6], 0xCC);
}

#[test]
fn test_short_message_parsing() {
    let bytes = [0x10, 0xFF, 0x00, 0x15, 0xAA, 0xBB, 0xCC];
    let msg = HidppShortMessage::from_bytes(&bytes).unwrap();

    assert_eq!(msg.device_index, 0xFF);
    assert_eq!(msg.feature_index, 0x00);
    assert_eq!(msg.function_id(), 0x01);
    assert_eq!(msg.sw_id(), 0x05);
    assert_eq!(msg.params, [0xAA, 0xBB, 0xCC]);
}

#[test]
fn test_long_message_construction() {
    let msg = HidppLongMessage::new(0x01, 0x05, 0x02, 0x0A).with_params(&[1, 2, 3, 4, 5]);

    let bytes = msg.to_bytes();
    assert_eq!(bytes[0], 0x11); // Long report type
    assert_eq!(bytes[1], 0x01); // Device index
    assert_eq!(bytes[2], 0x05); // Feature index
    assert_eq!(bytes[3], 0x2A); // Function 2, SW ID 10
    assert_eq!(bytes[4], 1);
    assert_eq!(bytes[5], 2);
    assert_eq!(bytes[6], 3);
}

#[test]
fn test_short_message_round_trip() {
    let msg = HidppShortMessage::new(0x01, 0x07, 0x03, 0x09).with_params([0x10, 0x20, 0x30]);
    let decoded = HidppShortMessage::from_bytes(&msg.to_bytes()).unwrap();
    assert_eq!(decoded.device_index, msg.device_index);
    assert_eq!(decoded.feature_index, msg.feature_index);
    assert_eq!(decoded.function_id(), 0x03);
    assert_eq!(decoded.sw_id(), 0x09);
    assert_eq!(decoded.params, msg.params);
}

#[test]
fn test_long_message_round_trip() {
    let msg = HidppLongMessage::new(0x02, 0x0B, 0x01, 0x04).with_params(&[9, 8, 7]);
    let decoded = HidppLongMessage::from_bytes(&msg.to_bytes()).unwrap();
    assert_eq!(decoded.device_index, msg.device_index);
    assert_eq!(decoded.feature_index, msg.feature_index);
    assert_eq!(decoded.function_sw_id, msg.function_sw_id);
    assert_eq!(decoded.params, msg.params);
}

#[test]
fn test_short_message_rejects_wrong_tag() {
    let bytes = [0x11, 0xFF, 0x00, 0x15, 0xAA, 0xBB, 0xCC];
    assert!(HidppShortMessage::from_bytes(&bytes).is_none());
    assert!(HidppShortMessage::from_bytes(&bytes[..6]).is_none());
}

#[test]
fn test_long_message_rejects_short_buffer() {
    let bytes = [0x11u8; 19];
    assert!(HidppLongMessage::from_bytes(&bytes).is_none());
    let bytes20 = [0x10u8; 20];
    assert!(HidppLongMessage::from_bytes(&bytes20).is_none());
}

#[test]
fn test_connection_type_display() {
    assert_eq!(ConnectionType::Usb.name(), "USB");
    assert_eq!(ConnectionType::Bolt.name(), "Bolt");
    assert_eq!(ConnectionType::Bluetooth.name(), "Bluetooth");
    assert_eq!(ConnectionType::Unifying.name(), "Unifying");
}

#[test]
fn test_haptic_error_display() {
    assert!(HapticError::DeviceNotFound.message().contains("not found"));
    assert!(HapticError::PermissionDenied.message().contains("Permission"));
    assert!(HapticError::UnsupportedDevice.message().contains("not support"));
}

#[test]
fn test_hex_rendering() {
    assert_eq!(hex_u16(0x1B04), "1B04");
    assert_eq!(hex_u16(0x0000), "0000");
    assert_eq!(hex_u16(0xFFFF), "FFFF");
    assert_eq!(hex_u16(0x8123), "8123");
}

// ========================================================================
// Safety verification
// ========================================================================

#[test]
fn test_blocklisted_features_detection() {
    // All blocklisted features should be detected
    assert!(blocklisted_features::is_blocklisted(blocklisted_features::SPECIAL_KEYS));
    assert!(blocklisted_features::is_blocklisted(blocklisted_features::REPORT_RATE));
    assert!(blocklisted_features::is_blocklisted(blocklisted_features::ONBOARD_PROFILES));
    assert!(blocklisted_features::is_blocklisted(blocklisted_features::MODE_STATUS));
    assert!(blocklisted_features::is_blocklisted(blocklisted_features::MOUSE_BUTTON_SPY));
    assert!(blocklisted_features::is_blocklisted(
        blocklisted_features::PERSISTENT_REMAPPABLE_ACTION
    ));
    assert!(blocklisted_features::is_blocklisted(blocklisted_features::HOST_INFO));
}

#[test]
fn test_allowed_features_not_blocklisted() {
    // All allowed features should NOT be blocklisted
    assert!(!blocklisted_features::is_blocklisted(features::I_ROOT));
    assert!(!blocklisted_features::is_blocklisted(features::I_FEATURE_SET));
    assert!(!blocklisted_features::is_blocklisted(features::DEVICE_NAME));
    assert!(!blocklisted_features::is_blocklisted(features::BATTERY_STATUS));
    assert!(!blocklisted_features::is_blocklisted(features::LED_CONTROL));
    assert!(!blocklisted_features::is_blocklisted(features::FORCE_FEEDBACK));
}

#[test]
fn test_allowed_features_in_safelist() {
    // All our used features should be in the allow-list
    assert!(allowed_features::is_allowed(features::I_ROOT));
    assert!(allowed_features::is_allowed(features::I_FEATURE_SET));
    assert!(allowed_features::is_allowed(features::DEVICE_NAME));
    assert!(allowed_features::is_allowed(features::BATTERY_STATUS));
    assert!(allowed_features::is_allowed(features::LED_CONTROL));
    assert!(allowed_features::is_allowed(features::FORCE_FEEDBACK));
}

#[test]
fn test_verify_feature_safety_allowed() {
    // Allowed features should pass safety check
    assert!(verify_feature_safety(features::I_ROOT).is_ok());
    assert!(verify_feature_safety(features::I_FEATURE_SET).is_ok());
    assert!(verify_feature_safety(features::FORCE_FEEDBACK).is_ok());
}

#[test]
fn test_verify_feature_safety_blocklisted() {
    // Blocklisted features should fail safety check
    let result = verify_feature_safety(blocklisted_features::SPECIAL_KEYS);
    assert!(result.is_err());

    if let Err(HapticError::SafetyViolation { feature_id, reason }) = result {
        assert_eq!(feature_id, blocklisted_features::SPECIAL_KEYS);
        assert!(reason.contains("button"));
    } else {
        panic!("Expected SafetyViolation error");
    }
}

#[test]
fn test_verify_feature_safety_onboard_profiles() {
    // Onboard profiles should definitely fail
    let result = verify_feature_safety(blocklisted_features::ONBOARD_PROFILES);
    assert!(result.is_err());

    if let Err(HapticError::SafetyViolation { feature_id, reason }) = result {
        assert_eq!(feature_id, 0x8100);
        assert!(reason.contains("profile") || reason.contains("Persistent"));
    } else {
        panic!("Expected SafetyViolation error");
    }
}

#[test]
fn test_verify_feature_safety_unknown() {
    // Unknown features should pass (cautiously allowed)
    let unknown_feature = 0x9999;
    assert!(!blocklisted_features::is_blocklisted(unknown_feature));
    assert!(!allowed_features::is_allowed(unknown_feature));
    assert!(verify_feature_safety(unknown_feature).is_ok());
}

#[test]
fn test_safety_violation_error_display() {
    let error = HapticError::SafetyViolation {
        feature_id: 0x1B04,
        reason: "Persistent button remapping",
    };
    let msg = error.message();
    assert!(msg.contains("SAFETY VIOLATION"));
    assert!(msg.contains("1B04"));
    assert!(msg.contains("Persistent"));
}

#[test]
fn test_blocklist_reasons_exist() {
    // All blocklisted features should have reasons
    assert!(blocklisted_features::blocklist_reason(blocklisted_features::SPECIAL_KEYS).is_some());
    assert!(
        blocklisted_features::blocklist_reason(blocklisted_features::ONBOARD_PROFILES).is_some()
    );
    assert!(blocklisted_features::blocklist_reason(blocklisted_features::REPORT_RATE).is_some());

    // Non-blocklisted should return None
    assert!(blocklisted_features::blocklist_reason(features::FORCE_FEEDBACK).is_none());
}

#[test]
fn test_haptic_feature_is_safe() {
    // The haptic feature in use (force feedback) must be safe
    assert!(!blocklisted_features::is_blocklisted(features::FORCE_FEEDBACK));
    assert!(allowed_features::is_allowed(features::FORCE_FEEDBACK));
    assert!(verify_feature_safety(features::FORCE_FEEDBACK).is_ok());
}

#[test]
fn test_pulse_command_construction_fast() {
    // HidppShortMessage construction uses fixed-size arrays throughout
    let msg = HidppShortMessage::new(0xFF, 0x00, 0x01, 0x05).with_params([0xAA, 0xBB, 0xCC]);

    let bytes = msg.to_bytes();
    assert_eq!(bytes.len(), 7);
}
