//! HID++ 2.0 feature identifiers that are safe for runtime use
//! (read-only or volatile).

use vstd::prelude::*;

verus! {

/// IRoot - protocol version, ping (read-only)
pub const I_ROOT: u16 = 0x0000;

/// IFeatureSet - enumerate device features (read-only)
pub const I_FEATURE_SET: u16 = 0x0001;

/// Device name and type (read-only)
pub const DEVICE_NAME: u16 = 0x0005;

/// Battery status (read-only)
pub const BATTERY_STATUS: u16 = 0x1000;

/// Unified battery status, the newer battery feature (read-only)
pub const UNIFIED_BATTERY: u16 = 0x1004;

/// LED control - some devices expose haptics here (runtime-only)
pub const LED_CONTROL: u16 = 0x1300;

/// Force feedback / haptic (runtime-only, does not persist)
pub const FORCE_FEEDBACK: u16 = 0x8123;

} // verus!
