//! Safety-constrained HID++ 2.0 bridge for a wireless pointing device.
//!
//! The crate models the request/response protocol, the feature-table safety
//! gate that forbids any feature able to write persistent device memory, the
//! haptic pulse scheduler with its debounce layers, and the battery probe.
//! Raw transport I/O stays outside; every decision the bridge makes is
//! verified here.

pub mod accessibility;
pub mod actions;
pub mod allowed_features;
pub mod battery;
pub mod blocklisted_features;
pub mod bundled_themes;
pub mod clock;
pub mod config;
pub mod cursor;
pub mod direction;
pub mod discovery;
pub mod feature_table;
pub mod features;
pub mod haptic;
pub mod haptic_profiles;
pub mod hidpp;
pub mod performance_monitor;
pub mod product_ids;
pub mod profiles;
pub mod protocol;
pub mod report_type;
pub mod text;
pub mod theme;
pub mod theme_watcher;
pub mod window_tracker;

use vstd::prelude::*;

verus! {

/// Scale a base intensity by a global multiplier, both given as percentages.
///
/// The two percentages multiply: 50% of 80 is 40, not 30.
pub fn scale_intensity(global: u8, per_event: u8) -> (r: u8)
    requires
        global <= 100,
        per_event <= 100,
    ensures
        r == (global * per_event) / 100,
        r <= 100,
{
    proof {
        assert(global * per_event <= 100 * 100) by (nonlinear_arith)
            requires
                global <= 100,
                per_event <= 100,
        ;
    }
    (((global as u32) * (per_event as u32)) / 100) as u8
}

} // verus!
