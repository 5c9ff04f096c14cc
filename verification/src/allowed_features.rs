//! Allow-listed HID++ feature identifiers, explicitly known safe for
//! runtime use.

use vstd::prelude::*;
use crate::features;

verus! {

/// The allow-list as a predicate: true exactly on the identifiers known
/// safe for runtime use.
pub open spec fn spec_is_allowed(feature_id: u16) -> bool {
    ||| feature_id == features::I_ROOT
    ||| feature_id == features::I_FEATURE_SET
    ||| feature_id == features::DEVICE_NAME
    ||| feature_id == features::BATTERY_STATUS
    ||| feature_id == features::LED_CONTROL
    ||| feature_id == features::FORCE_FEEDBACK
}

/// Check if a feature identifier is explicitly allowed.
pub fn is_allowed(feature_id: u16) -> (r: bool)
    ensures
        r == spec_is_allowed(feature_id),
{
    feature_id == features::I_ROOT || feature_id == features::I_FEATURE_SET
        || feature_id == features::DEVICE_NAME || feature_id == features::BATTERY_STATUS
        || feature_id == features::LED_CONTROL || feature_id == features::FORCE_FEEDBACK
}

/// No identifier is both allowed and blocklisted: the two static sets are
/// disjoint.
pub proof fn lemma_allowlist_blocklist_disjoint(feature_id: u16)
    ensures
        !(spec_is_allowed(feature_id)
            && crate::blocklisted_features::spec_is_blocklisted(feature_id)),
{
}

} // verus!
