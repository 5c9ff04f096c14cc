use juhradial::discovery::{
    candidate_from_uevent, classify_candidate, product_priority, rank_candidates,
    DiscoveryCandidate,
};
use juhradial::hidpp::ConnectionType;

fn candidate(slot: usize, vendor_id: u16, product_id: u16, second: bool) -> DiscoveryCandidate {
    DiscoveryCandidate { slot, vendor_id, product_id, is_second_interface: second }
}

#[test]
fn test_product_priorities() {
    assert_eq!(product_priority(0xC548), 3); // Bolt receiver
    assert_eq!(product_priority(0xC52B), 2); // Unifying receiver
    assert_eq!(product_priority(0xB034), 2); // direct USB
    assert_eq!(product_priority(0x1234), 1); // other device of the vendor
}

#[test]
fn test_classify_candidate() {
    // Wrong vendor: not a candidate at all.
    assert!(classify_candidate(&candidate(0, 0x1234, 0xC548, false)).is_none());

    // Direct USB device uses the reserved direct index.
    assert_eq!(
        classify_candidate(&candidate(0, 0x046D, 0xB034, false)),
        Some((ConnectionType::Usb, 0xFF))
    );
    // Receivers host the mouse at the small fixed index.
    assert_eq!(
        classify_candidate(&candidate(0, 0x046D, 0xC548, false)),
        Some((ConnectionType::Bolt, 0x01))
    );
    assert_eq!(
        classify_candidate(&candidate(0, 0x046D, 0xC52B, false)),
        Some((ConnectionType::Unifying, 0x01))
    );
    // An unknown product qualifies only on the second logical interface,
    // as a Bluetooth endpoint.
    assert_eq!(
        classify_candidate(&candidate(0, 0x046D, 0xABCD, true)),
        Some((ConnectionType::Bluetooth, 0xFF))
    );
    assert!(classify_candidate(&candidate(0, 0x046D, 0xABCD, false)).is_none());
}

#[test]
fn test_rank_candidates_orders_by_quality() {
    let candidates = vec![
        candidate(0, 0x046D, 0x1111, false), // other, priority 1
        candidate(1, 0x1A2B, 0xC548, true),  // wrong vendor: dropped
        candidate(2, 0x046D, 0xB034, false), // direct USB, priority 2
        candidate(3, 0x046D, 0xC548, false), // Bolt receiver, priority 3
        candidate(4, 0x046D, 0xC52B, true),  // Unifying, priority 2, second interface
    ];
    let ranked = rank_candidates(&candidates);
    assert_eq!(ranked.len(), 4);
    assert_eq!(ranked[0].slot, 3); // Bolt first
    // Within priority 2 the second logical interface is preferred.
    assert_eq!(ranked[1].slot, 4);
    assert_eq!(ranked[2].slot, 2);
    assert_eq!(ranked[3].slot, 0); // other vendor device last
}

#[test]
fn test_candidate_from_uevent() {
    let bolt = "DRIVER=logitech-djreceiver\nHID_ID=0003:0000046D:0000C548\nHID_NAME=receiver\nMODALIAS=hid:input2";
    let c = candidate_from_uevent(7, bolt).unwrap();
    assert_eq!(c.slot, 7);
    assert_eq!(c.vendor_id, 0x046D);
    assert_eq!(c.product_id, 0xC548);
    assert!(c.is_second_interface);

    // Lower-case hex in the text is recognized too.
    let usb = "HID_ID=0003:0000046d:0000b034\nHID_PHYS=usb";
    let c = candidate_from_uevent(0, usb).unwrap();
    assert_eq!(c.product_id, 0xB034);
    assert!(!c.is_second_interface);

    // Another vendor's device is no candidate.
    assert!(candidate_from_uevent(0, "HID_ID=0003:00001234:0000C548").is_none());

    // An unrecognized product of the target vendor still qualifies,
    // with the lowest priority.
    let other = candidate_from_uevent(0, "HID_ID=0003:0000046D:0000AAAA").unwrap();
    assert_eq!(product_priority(other.product_id), 1);
}

#[test]
fn test_rank_candidates_keeps_nothing_foreign() {
    let candidates = vec![
        candidate(0, 0x1111, 0xC548, true),
        candidate(1, 0x2222, 0xB034, false),
    ];
    assert!(rank_candidates(&candidates).is_empty());
}
