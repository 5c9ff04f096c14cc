use juhradial::battery::{
    battery_feature_id, battery_query_function, charging_from_legacy, charging_from_unified,
    parse_battery_response, parse_feature_index_response, record_battery_failure,
    record_battery_success, record_conflicting_process, select_battery_feature, BatteryError,
    BatteryState, PollThrottle, ERROR_LOG_LIMIT,
};

#[test]
fn test_battery_state_default() {
    let state = BatteryState::default();
    assert_eq!(state.percentage, 0);
    assert!(!state.charging);
    assert!(!state.available);
}

// ========================================================================
// Charging-status decoding
// ========================================================================

#[test]
fn test_unified_charging_status_values() {
    // Unified format: 0=discharging, 1=charging, 2=charging slow,
    // 3=charging complete, 5=invalid.
    assert!(!charging_from_unified(0));
    assert!(charging_from_unified(1));
    assert!(charging_from_unified(2));
    assert!(charging_from_unified(3));
    assert!(!charging_from_unified(5));
}

#[test]
fn test_legacy_charging_status_values() {
    // Legacy format: 0=discharging, 1-4=charging states.
    assert!(!charging_from_legacy(0));
    assert!(charging_from_legacy(1));
    assert!(charging_from_legacy(4));
    assert!(!charging_from_legacy(5));
}

fn unified_response(percentage: u8, charging_status: u8) -> Vec<u8> {
    // [report, device, feature, function, state_of_charge, level, flags,
    //  charging_status]
    vec![0x11, 0x02, 0x06, 0x11, percentage, 2, 0, charging_status]
}

fn legacy_response(percentage: u8, status: u8) -> Vec<u8> {
    // [report, device, feature, function, level, next_level, status]
    vec![0x10, 0x02, 0x06, 0x01, percentage, 80, status]
}

#[test]
fn test_parse_unified_battery_response() {
    for (status, expected) in [(0u8, false), (1, true), (2, true), (3, true), (5, false)] {
        let resp = unified_response(77, status);
        let (pct, charging) = parse_battery_response(&resp, true).unwrap();
        assert_eq!(pct, 77);
        assert_eq!(charging, expected, "unified status {}", status);
    }
}

#[test]
fn test_parse_legacy_battery_response() {
    for (status, expected) in [(0u8, false), (1, true), (4, true), (5, false)] {
        let resp = legacy_response(55, status);
        let (pct, charging) = parse_battery_response(&resp, false).unwrap();
        assert_eq!(pct, 55);
        assert_eq!(charging, expected, "legacy status {}", status);
    }
}

#[test]
fn test_parse_battery_response_too_short() {
    let short = vec![0x11, 0x02, 0x06, 0x11, 50, 2, 0];
    let err = parse_battery_response(&short, true).unwrap_err();
    assert!(matches!(err, BatteryError::ProtocolError(_)));
    // The same bytes are long enough for the legacy variant.
    assert!(parse_battery_response(&short, false).is_ok());
}

// ========================================================================
// Feature resolution
// ========================================================================

#[test]
fn test_parse_feature_index_response() {
    let resp = vec![0x11, 0x02, 0x00, 0x01, 6, 0, 0];
    assert_eq!(parse_feature_index_response(&resp).unwrap(), 6);

    let unsupported = vec![0x11, 0x02, 0x00, 0x01, 0, 0, 0];
    assert!(matches!(
        parse_feature_index_response(&unsupported).unwrap_err(),
        BatteryError::FeatureNotSupported
    ));

    let truncated = vec![0x11, 0x02, 0x00];
    assert!(matches!(
        parse_feature_index_response(&truncated).unwrap_err(),
        BatteryError::ProtocolError(_)
    ));
}

#[test]
fn test_select_battery_feature_prefers_unified() {
    let f = select_battery_feature(Some(6), Some(4)).unwrap();
    assert!(f.is_unified);
    assert_eq!(f.feature_index, 6);

    let f = select_battery_feature(None, Some(4)).unwrap();
    assert!(!f.is_unified);
    assert_eq!(f.feature_index, 4);

    assert!(matches!(
        select_battery_feature(None, None).unwrap_err(),
        BatteryError::FeatureNotSupported
    ));
}

#[test]
fn test_battery_query_addressing() {
    assert_eq!(battery_query_function(true), 0x01);
    assert_eq!(battery_query_function(false), 0x00);
    assert_eq!(battery_feature_id(true), 0x1004);
    assert_eq!(battery_feature_id(false), 0x1000);
}

// ========================================================================
// Poll-cycle bookkeeping
// ========================================================================

#[test]
fn test_poll_throttle_quiets_after_limit() {
    let mut throttle = PollThrottle::new();
    // The first few failures are logged loudly, then the log goes quiet.
    assert!(throttle.record_failure());
    assert!(throttle.record_failure());
    assert!(throttle.record_failure());
    assert_eq!(throttle.consecutive_errors, ERROR_LOG_LIMIT);
    assert!(!throttle.record_failure());
    assert!(!throttle.record_failure());
    // A success resets the streak and logging comes back.
    throttle.record_success();
    assert!(throttle.record_failure());
}

#[test]
fn test_poll_throttle_conflict_recheck() {
    let mut throttle = PollThrottle::new();
    assert!(!throttle.should_recheck_conflict());
    for _ in 0..15 {
        throttle.record_failure();
    }
    assert!(throttle.should_recheck_conflict());
    throttle.record_failure();
    assert!(!throttle.should_recheck_conflict());
}

#[test]
fn test_battery_state_updates() {
    let mut state = BatteryState::default();
    record_battery_success(&mut state, 88, true);
    assert_eq!(state.percentage, 88);
    assert!(state.charging);
    assert!(state.available);
    assert!(state.error.is_none());

    record_battery_failure(&mut state, &BatteryError::Timeout);
    assert!(!state.available);
    assert_eq!(state.error.as_deref(), Some("Request timeout"));
    // The last known reading stays readable.
    assert_eq!(state.percentage, 88);
    assert!(state.charging);
}

#[test]
fn test_conflicting_process_reported() {
    let mut state = BatteryState::default();
    record_conflicting_process(&mut state);
    assert!(!state.available);
    assert!(state.logid_active);
    assert_eq!(state.error.as_deref(), Some("LogiOps controls HID++"));
}

#[test]
fn test_battery_error_messages() {
    assert_eq!(BatteryError::DeviceNotFound.message(), "Device not found");
    assert_eq!(BatteryError::PermissionDenied.message(), "Permission denied");
    assert_eq!(
        BatteryError::FeatureNotSupported.message(),
        "Battery feature not supported"
    );
    assert_eq!(BatteryError::Timeout.message(), "Request timeout");
    assert!(BatteryError::IoError("broken pipe".to_string())
        .message()
        .contains("broken pipe"));
    assert!(BatteryError::ProtocolError("bad frame".to_string())
        .message()
        .contains("bad frame"));
}
