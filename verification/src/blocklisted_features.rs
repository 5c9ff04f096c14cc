//! Blocklisted HID++ feature identifiers.
//!
//! Every identifier here names a feature that writes to onboard mouse memory
//! and would break cross-platform compatibility. Using any of them is
//! forbidden; the safety gate and the feature table both reject them.

use vstd::prelude::*;

verus! {

/// Special Keys & Mouse Buttons - persistent button remapping
pub const SPECIAL_KEYS: u16 = 0x1B04;

/// Report Rate - may persist on some devices
pub const REPORT_RATE: u16 = 0x8060;

/// Onboard Profiles - persistent profile storage
pub const ONBOARD_PROFILES: u16 = 0x8100;

/// Mode Status - profile switching that may persist
pub const MODE_STATUS: u16 = 0x8090;

/// Mouse Button Spy - profile modification
pub const MOUSE_BUTTON_SPY: u16 = 0x8110;

/// Persistent Remappable Action - persistent key remapping
pub const PERSISTENT_REMAPPABLE_ACTION: u16 = 0x1BC0;

/// Host Info - device pairing that persists
pub const HOST_INFO: u16 = 0x1815;

/// The blocklist as a predicate: true exactly on the feature identifiers
/// known to cause persistent device-state writes.
pub open spec fn spec_is_blocklisted(feature_id: u16) -> bool {
    ||| feature_id == SPECIAL_KEYS
    ||| feature_id == REPORT_RATE
    ||| feature_id == ONBOARD_PROFILES
    ||| feature_id == MODE_STATUS
    ||| feature_id == MOUSE_BUTTON_SPY
    ||| feature_id == PERSISTENT_REMAPPABLE_ACTION
    ||| feature_id == HOST_INFO
}

/// Check if a feature identifier is blocklisted (would write to memory).
pub fn is_blocklisted(feature_id: u16) -> (r: bool)
    ensures
        r == spec_is_blocklisted(feature_id),
{
    feature_id == SPECIAL_KEYS || feature_id == REPORT_RATE || feature_id == ONBOARD_PROFILES
        || feature_id == MODE_STATUS || feature_id == MOUSE_BUTTON_SPY
        || feature_id == PERSISTENT_REMAPPABLE_ACTION || feature_id == HOST_INFO
}

/// The human-readable reason a blocklisted identifier is forbidden,
/// as a character sequence; empty for identifiers that are not blocklisted.
pub open spec fn spec_blocklist_reason(feature_id: u16) -> Seq<char> {
    if feature_id == SPECIAL_KEYS {
        "Persistent button remapping"@
    } else if feature_id == REPORT_RATE {
        "May persist report rate settings"@
    } else if feature_id == ONBOARD_PROFILES {
        "Persistent profile storage"@
    } else if feature_id == MODE_STATUS {
        "Profile switching may persist"@
    } else if feature_id == MOUSE_BUTTON_SPY {
        "Profile modification"@
    } else if feature_id == PERSISTENT_REMAPPABLE_ACTION {
        "Persistent key remapping"@
    } else if feature_id == HOST_INFO {
        "Device pairing persistence"@
    } else {
        Seq::empty()
    }
}

/// Every blocklisted identifier carries a non-empty reason.
pub proof fn lemma_blocklist_reasons_nonempty(feature_id: u16)
    ensures
        spec_is_blocklisted(feature_id) ==> spec_blocklist_reason(feature_id).len() > 0,
{
    reveal_strlit("Persistent button remapping");
    reveal_strlit("May persist report rate settings");
    reveal_strlit("Persistent profile storage");
    reveal_strlit("Profile switching may persist");
    reveal_strlit("Profile modification");
    reveal_strlit("Persistent key remapping");
    reveal_strlit("Device pairing persistence");
}

/// Get the human-readable reason a blocklisted feature is forbidden.
pub fn blocklist_reason(feature_id: u16) -> (r: Option<&'static str>)
    ensures
        r is Some <==> spec_is_blocklisted(feature_id),
        r matches Some(s) ==> s@ == spec_blocklist_reason(feature_id) && s@.len() > 0,
{
    proof {
        lemma_blocklist_reasons_nonempty(feature_id);
    }
    if feature_id == SPECIAL_KEYS {
        Some("Persistent button remapping")
    } else if feature_id == REPORT_RATE {
        Some("May persist report rate settings")
    } else if feature_id == ONBOARD_PROFILES {
        Some("Persistent profile storage")
    } else if feature_id == MODE_STATUS {
        Some("Profile switching may persist")
    } else if feature_id == MOUSE_BUTTON_SPY {
        Some("Profile modification")
    } else if feature_id == PERSISTENT_REMAPPABLE_ACTION {
        Some("Persistent key remapping")
    } else if feature_id == HOST_INFO {
        Some("Device pairing persistence")
    } else {
        None
    }
}

} // verus!
