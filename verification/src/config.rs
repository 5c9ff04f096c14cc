//! The haptic configuration object consumed by the scheduler.
//!
//! Hot-updatable at runtime without reconnecting the device.

use vstd::prelude::*;

verus! {

/// Per-event intensity settings (each 0-100).
#[derive(Debug, Clone, Copy)]
pub struct HapticEventConfig {
    /// Menu appearance intensity
    pub menu_appear: u8,
    /// Slice change intensity
    pub slice_change: u8,
    /// Selection confirm intensity
    pub confirm: u8,
    /// Invalid action intensity
    pub invalid: u8,
}

impl Default for HapticEventConfig {
    fn default() -> (r: Self)
        ensures
            r.menu_appear == 20,
            r.slice_change == 40,
            r.confirm == 80,
            r.invalid == 30,
    {
        HapticEventConfig { menu_appear: 20, slice_change: 40, confirm: 80, invalid: 30 }
    }
}

/// Haptic feedback configuration.
#[derive(Debug, Clone, Copy)]
pub struct HapticConfig {
    /// Whether haptics are enabled
    pub enabled: bool,
    /// Global intensity multiplier (0-100)
    pub intensity: u8,
    /// Per-event intensity overrides
    pub per_event: HapticEventConfig,
    /// Minimum time between pulses (milliseconds)
    pub debounce_ms: u64,
    /// Slice-change debounce window (milliseconds)
    pub slice_debounce_ms: u64,
    /// Same-slice re-entry debounce window (milliseconds)
    pub reentry_debounce_ms: u64,
}

impl Default for HapticConfig {
    fn default() -> (r: Self)
        ensures
            r.enabled == true,
            r.intensity == 50,
            r.per_event.menu_appear == 20,
            r.per_event.slice_change == 40,
            r.per_event.confirm == 80,
            r.per_event.invalid == 30,
            r.debounce_ms == 20,
            r.slice_debounce_ms == 20,
            r.reentry_debounce_ms == 50,
    {
        HapticConfig {
            enabled: true,
            intensity: 50,
            per_event: HapticEventConfig::default(),
            debounce_ms: 20,
            slice_debounce_ms: 20,
            reentry_debounce_ms: 50,
        }
    }
}

} // verus!
