//! The wall clock, behind a trusted boundary.
//!
//! Every scheduling decision in this crate is a verified function of an
//! explicit timestamp argument; this module only supplies that timestamp.

use vstd::prelude::*;

verus! {

/// Relies on std::time::SystemTime::now and Duration::as_millis: the current
/// time as milliseconds since the Unix epoch, or 0 if the system clock is
/// set before the epoch. No contract can pin the clock's value; callers
/// state what holds of every reading.
#[verifier::external_body]
pub fn now_millis() -> u64 {
    match std::time::SystemTime::now().duration_since(std::time::UNIX_EPOCH) {
        Ok(d) => d.as_millis() as u64,
        Err(_) => 0,
    }
}

} // verus!
