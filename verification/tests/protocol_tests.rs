use juhradial::protocol::{
    feature_id_from_response, feature_index_request_params, ping_echoed, ping_request,
    ResponseKind, Transaction, MAX_POLL_ATTEMPTS,
};

#[test]
fn test_transaction_accepts_matching_response() {
    let t = Transaction::new(0x02, 0x06, 0x01, 0x01);
    let frame = t.request_frame([0, 0, 0]);
    let bytes = frame.to_bytes();
    assert_eq!(bytes[0], 0x10);
    assert_eq!(bytes[1], 0x02);
    assert_eq!(bytes[2], 0x06);
    assert_eq!(bytes[3], 0x11); // function 1, software id 1

    // A response echoing device index, feature index, function, and
    // software id matches.
    let resp = [0x11, 0x02, 0x06, 0x11, 55, 2, 0, 1];
    assert_eq!(t.offer(&resp), ResponseKind::Matched);
}

#[test]
fn test_transaction_discards_unrelated_frames() {
    let t = Transaction::new(0x02, 0x06, 0x01, 0x01);

    // Wrong software id: some other transaction's response.
    let wrong_sw = [0x11, 0x02, 0x06, 0x12, 55, 2, 0, 1];
    assert_eq!(t.offer(&wrong_sw), ResponseKind::Unrelated);

    // Wrong device index.
    let wrong_dev = [0x11, 0x03, 0x06, 0x11, 55, 2, 0, 1];
    assert_eq!(t.offer(&wrong_dev), ResponseKind::Unrelated);

    // A notification for another feature entirely.
    let notification = [0x10, 0x02, 0x0B, 0x00, 1, 2, 3];
    assert_eq!(t.offer(&notification), ResponseKind::Unrelated);

    // Not a HID++ report tag at all.
    let garbage = [0x42, 0x02, 0x06, 0x11, 0, 0, 0];
    assert_eq!(t.offer(&garbage), ResponseKind::Unrelated);

    // Too short to be a frame.
    let short = [0x10, 0x02, 0x06];
    assert_eq!(t.offer(&short), ResponseKind::Unrelated);
}

#[test]
fn test_transaction_surfaces_error_reports() {
    let t = Transaction::new(0x02, 0x06, 0x01, 0x01);

    // The dedicated error-report feature index.
    let error_report = [0x10, 0x02, 0x8F, 0x11, 0x06, 0x05, 0x00];
    assert_eq!(t.offer(&error_report), ResponseKind::ErrorReport);

    // The request's own feature index with the error marker at byte 4.
    let in_feature_error = [0x10, 0x02, 0x06, 0x21, 0x05, 0x00, 0x00];
    assert_eq!(t.offer(&in_feature_error), ResponseKind::ErrorReport);
}

#[test]
fn test_transaction_retry_budget() {
    let mut t = Transaction::new(0x02, 0x06, 0x01, 0x01);
    let mut budget_exhausted = false;
    for _ in 0..(MAX_POLL_ATTEMPTS + 1) {
        if !t.note_attempt() {
            budget_exhausted = true;
        }
    }
    assert!(budget_exhausted);
    assert_eq!(t.attempts, MAX_POLL_ATTEMPTS + 1);
}

#[test]
fn test_ping_round() {
    let req = ping_request(0xFF, 0x03);
    let bytes = req.to_bytes();
    assert_eq!(bytes[0], 0x10);
    assert_eq!(bytes[1], 0xFF);
    assert_eq!(bytes[2], 0x00); // IRoot
    assert_eq!(bytes[3], 0x13); // function 1, software id 3
    assert_eq!(bytes[6], 0xAA); // the sentinel to echo

    // A live device echoes the sentinel at byte 6.
    let pong = [0x10, 0xFF, 0x00, 0x13, 0x00, 0x00, 0xAA];
    assert!(ping_echoed(&pong));
    let silent = [0x10, 0xFF, 0x00, 0x13, 0x00, 0x00, 0x00];
    assert!(!ping_echoed(&silent));
    assert!(!ping_echoed(&pong[..6]));
}

#[test]
fn test_feature_id_addressing() {
    let params = feature_index_request_params(0x1004);
    assert_eq!(params, [0x10, 0x04, 0x00]);

    let resp = vec![0x11, 0x02, 0x01, 0x01, 0x81, 0x23, 0x00];
    assert_eq!(feature_id_from_response(&resp), Some(0x8123));
    let short = vec![0x11, 0x02, 0x01];
    assert_eq!(feature_id_from_response(&short), None);
}
