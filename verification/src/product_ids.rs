//! Known product identifiers for the target mouse and its receivers.

use vstd::prelude::*;

verus! {

/// MX Master 4 via USB
pub const MX_MASTER_4_USB: u16 = 0xB034;

/// MX Master 4 via Bolt receiver
pub const MX_MASTER_4_BOLT: u16 = 0xC548;

/// Bolt receiver itself
pub const BOLT_RECEIVER: u16 = 0xC548;

/// Generic Logitech receiver (may host MX Master 4)
pub const UNIFYING_RECEIVER: u16 = 0xC52B;

} // verus!
