//! HID++ report-type tags, byte 0 of every frame.

use vstd::prelude::*;

verus! {

/// Short HID++ report (7 bytes)
pub const SHORT: u8 = 0x10;

/// Long HID++ report (20 bytes)
pub const LONG: u8 = 0x11;

/// Very long HID++ report (64 bytes)
pub const VERY_LONG: u8 = 0x12;

} // verus!
