//! Predefined haptic pulse profiles for the menu interaction events.

use vstd::prelude::*;
use crate::haptic::HapticPulse;

verus! {

/// Menu appearance haptic (20% intensity, 10ms)
pub fn menu_appear() -> (r: HapticPulse)
    ensures
        r.intensity == 20,
        r.duration_ms == 10,
{
    HapticPulse { intensity: 20, duration_ms: 10 }
}

/// Slice change haptic (40% intensity, 15ms)
pub fn slice_change() -> (r: HapticPulse)
    ensures
        r.intensity == 40,
        r.duration_ms == 15,
{
    HapticPulse { intensity: 40, duration_ms: 15 }
}

/// Selection confirm haptic (80% intensity, 25ms)
pub fn confirm() -> (r: HapticPulse)
    ensures
        r.intensity == 80,
        r.duration_ms == 25,
{
    HapticPulse { intensity: 80, duration_ms: 25 }
}

/// Invalid action haptic (30% intensity, 50ms)
pub fn invalid() -> (r: HapticPulse)
    ensures
        r.intensity == 30,
        r.duration_ms == 50,
{
    HapticPulse { intensity: 30, duration_ms: 50 }
}

} // verus!
