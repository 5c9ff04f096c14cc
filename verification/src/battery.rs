//! The battery-telemetry probe.
//!
//! Queries one of two battery feature variants through the shared
//! transaction channel: the newer unified battery feature is preferred, the
//! legacy status feature is the fallback, and whichever resolves first is
//! cached. The two variants differ both in where the charging-status byte
//! sits and in how its value collapses to a charging flag. The probe's
//! transport-facing decisions live here as verified functions of plain
//! values; the raw reads and writes stay outside.

use vstd::prelude::*;
use vstd::string::StringExecFns;
use crate::features;

verus! {

/// Battery state shared with external telemetry, read-only for consumers.
#[derive(Debug, Clone)]
pub struct BatteryState {
    /// Battery percentage (0-100)
    pub percentage: u8,
    /// Whether the device is charging
    pub charging: bool,
    /// Whether battery info is available
    pub available: bool,
    /// Last error message if any
    pub error: Option<String>,
    /// Whether a conflicting HID++ owner process makes queries unreliable
    pub logid_active: bool,
}

impl Default for BatteryState {
    fn default() -> (r: Self)
        ensures
            r.percentage == 0,
            !r.charging,
            !r.available,
            r.error is None,
            !r.logid_active,
    {
        BatteryState {
            percentage: 0,
            charging: false,
            available: false,
            error: None,
            logid_active: false,
        }
    }
}

/// Battery error type
#[derive(Debug, Clone)]
pub enum BatteryError {
    /// No hidraw candidate validated
    DeviceNotFound,
    /// Opening the device node was refused
    PermissionDenied,
    /// I/O error during communication, with the transport's own message
    IoError(String),
    /// The device answered outside the protocol
    ProtocolError(String),
    /// Neither battery feature resolved to an index
    FeatureNotSupported,
    /// The retry budget ran out without a matching response
    Timeout,
}

impl BatteryError {
    /// A human-readable description of the error.
    pub fn message(&self) -> (r: String)
        ensures
            *self is DeviceNotFound ==> r@ == "Device not found"@,
            *self is PermissionDenied ==> r@ == "Permission denied"@,
            *self is FeatureNotSupported ==> r@ == "Battery feature not supported"@,
            *self is Timeout ==> r@ == "Request timeout"@,
            *self matches BatteryError::IoError(m) ==> r@ == "I/O error: "@ + m@,
            *self matches BatteryError::ProtocolError(m) ==> r@ == "Protocol error: "@ + m@,
    {
        match self {
            BatteryError::DeviceNotFound => String::from_str("Device not found"),
            BatteryError::PermissionDenied => String::from_str("Permission denied"),
            BatteryError::IoError(e) => String::from_str("I/O error: ").concat(e.as_str()),
            BatteryError::ProtocolError(m) => String::from_str("Protocol error: ").concat(
                m.as_str(),
            ),
            BatteryError::FeatureNotSupported => String::from_str(
                "Battery feature not supported",
            ),
            BatteryError::Timeout => String::from_str("Request timeout"),
        }
    }
}

// ============================================================================
// Charging-status decoding
// ============================================================================

/// Unified-battery charging status collapses to "charging" exactly on
/// values 1 (charging), 2 (charging slow), and 3 (charging complete);
/// 0 is discharging and anything else, such as 5 (invalid), is not charging.
pub fn charging_from_unified(charging_status: u8) -> (r: bool)
    ensures
        r == (1 <= charging_status <= 3),
{
    charging_status >= 1 && charging_status <= 3
}

/// Legacy battery-status charging status collapses to "charging" exactly on
/// values 1 through 4 (its charging states); 0 is discharging and higher
/// values are not charging.
pub fn charging_from_legacy(charging_status: u8) -> (r: bool)
    ensures
        r == (1 <= charging_status <= 4),
{
    charging_status >= 1 && charging_status <= 4
}

/// What a well-formed battery response of the given variant decodes to:
/// the percentage at byte 4 and the charging flag from the variant's own
/// status byte (byte 7 for unified, byte 6 for legacy).
pub open spec fn spec_battery_reading(resp: Seq<u8>, is_unified: bool) -> (u8, bool) {
    if is_unified {
        (resp[4], 1 <= resp[7] <= 3)
    } else {
        (resp[4], 1 <= resp[6] <= 4)
    }
}

/// Whether a response is long enough for its variant: the unified format
/// needs the charging-status byte at offset 7, the legacy one at offset 6.
pub open spec fn spec_battery_response_ok(resp: Seq<u8>, is_unified: bool) -> bool {
    if is_unified {
        resp.len() >= 8
    } else {
        resp.len() >= 7
    }
}

/// Decode a battery status response of the given variant. A response too
/// short for its variant is a protocol error.
pub fn parse_battery_response(resp: &Vec<u8>, is_unified: bool) -> (r: Result<
    (u8, bool),
    BatteryError,
>)
    ensures
        r is Ok <==> spec_battery_response_ok(resp@, is_unified),
        r matches Ok(reading) ==> reading == spec_battery_reading(resp@, is_unified),
        r is Err ==> (r matches Err(BatteryError::ProtocolError(m)) && m@
            == "Invalid battery response"@),
{
    if is_unified {
        if resp.len() >= 8 {
            let percentage = resp[4];
            let charging = charging_from_unified(resp[7]);
            Ok((percentage, charging))
        } else {
            Err(BatteryError::ProtocolError(String::from_str("Invalid battery response")))
        }
    } else {
        if resp.len() >= 7 {
            let percentage = resp[4];
            let charging = charging_from_legacy(resp[6]);
            Ok((percentage, charging))
        } else {
            Err(BatteryError::ProtocolError(String::from_str("Invalid battery response")))
        }
    }
}

// ============================================================================
// Feature resolution
// ============================================================================

/// Decode the response to an IRoot getFeature query: byte 4 carries the
/// feature index, 0 meaning "not supported". A response shorter than 5
/// bytes is a protocol error.
pub fn parse_feature_index_response(resp: &Vec<u8>) -> (r: Result<u8, BatteryError>)
    ensures
        resp@.len() >= 5 && resp@[4] != 0 ==> r == Result::<u8, BatteryError>::Ok(resp@[4]),
        resp@.len() >= 5 && resp@[4] == 0 ==> (r matches Err(e) && e is FeatureNotSupported),
        resp@.len() < 5 ==> (r matches Err(BatteryError::ProtocolError(m)) && m@
            == "Invalid response"@),
{
    if resp.len() >= 5 {
        let index = resp[4];
        if index == 0 {
            Err(BatteryError::FeatureNotSupported)
        } else {
            Ok(index)
        }
    } else {
        Err(BatteryError::ProtocolError(String::from_str("Invalid response")))
    }
}

/// The cached choice of battery feature: which variant answered and at
/// which device-local index it sits.
#[derive(Debug, Clone, Copy)]
pub struct BatteryFeature {
    /// The resolved feature index
    pub feature_index: u8,
    /// True for the unified battery feature, false for the legacy one
    pub is_unified: bool,
}

/// Pick the battery feature from the two probe results, unified first:
/// whichever resolved first in priority order is cached; only when both
/// failed does the probe report the legacy error.
pub fn select_battery_feature(
    unified_index: Option<u8>,
    legacy_index: Option<u8>,
) -> (r: Result<BatteryFeature, BatteryError>)
    ensures
        unified_index matches Some(idx) ==> (r matches Ok(f) && f.feature_index == idx
            && f.is_unified),
        unified_index is None ==> (legacy_index matches Some(idx) ==> (r matches Ok(f)
            && f.feature_index == idx && !f.is_unified)),
        unified_index is None && legacy_index is None ==> (r matches Err(e)
            && e is FeatureNotSupported),
{
    match unified_index {
        Some(idx) => Ok(BatteryFeature { feature_index: idx, is_unified: true }),
        None => match legacy_index {
            Some(idx) => Ok(BatteryFeature { feature_index: idx, is_unified: false }),
            None => Err(BatteryError::FeatureNotSupported),
        },
    }
}

/// The protocol function id that queries battery status for a variant:
/// get_status (1) on the unified feature, GetBatteryLevelStatus (0) on the
/// legacy one.
pub fn battery_query_function(is_unified: bool) -> (r: u8)
    ensures
        r == (if is_unified { 1u8 } else { 0u8 }),
{
    if is_unified {
        0x01
    } else {
        0x00
    }
}

/// The identifier of the battery feature a variant resolves through.
pub fn battery_feature_id(is_unified: bool) -> (r: u16)
    ensures
        r == (if is_unified { features::UNIFIED_BATTERY } else { features::BATTERY_STATUS }),
{
    if is_unified {
        features::UNIFIED_BATTERY
    } else {
        features::BATTERY_STATUS
    }
}

// ============================================================================
// Poll-cycle bookkeeping
// ============================================================================

/// How many consecutive failures still deserve a logged warning before the
/// log goes quiet to avoid flooding; the degraded state itself is still
/// reported every poll cycle.
pub const ERROR_LOG_LIMIT: u32 = 3;

/// How many consecutive failures pass between re-checks for a conflicting
/// HID++ owner process.
pub const CONFLICT_RECHECK_INTERVAL: u32 = 15;

/// Bookkeeping for the periodic battery poll: counts consecutive failures
/// and decides when to log and when to re-check for a conflicting process.
#[derive(Debug, Clone, Copy)]
pub struct PollThrottle {
    /// Consecutive failed polls so far
    pub consecutive_errors: u32,
}

impl PollThrottle {
    /// Start with no failures seen.
    pub fn new() -> (r: Self)
        ensures
            r.consecutive_errors == 0,
    {
        PollThrottle { consecutive_errors: 0 }
    }

    /// A poll succeeded: the failure streak resets.
    pub fn record_success(&mut self)
        ensures
            final(self).consecutive_errors == 0,
    {
        self.consecutive_errors = 0;
    }

    /// A poll failed: the streak grows (saturating) and the result says
    /// whether this failure should still be logged loudly - only the first
    /// few are, then the log goes quiet.
    pub fn record_failure(&mut self) -> (log_warning: bool)
        ensures
            final(self).consecutive_errors == (if old(self).consecutive_errors == u32::MAX {
                u32::MAX
            } else {
                (old(self).consecutive_errors + 1) as u32
            }),
            log_warning == (final(self).consecutive_errors <= ERROR_LOG_LIMIT),
    {
        if self.consecutive_errors < u32::MAX {
            self.consecutive_errors = self.consecutive_errors + 1;
        }
        self.consecutive_errors <= ERROR_LOG_LIMIT
    }

    /// Whether this cycle should re-check for a conflicting HID++ owner:
    /// only while failing, every fifteenth consecutive failure.
    pub fn should_recheck_conflict(&self) -> (r: bool)
        ensures
            r == (self.consecutive_errors > 0 && self.consecutive_errors
                % CONFLICT_RECHECK_INTERVAL == 0),
    {
        self.consecutive_errors > 0 && self.consecutive_errors % CONFLICT_RECHECK_INTERVAL == 0
    }
}

/// Apply a successful battery reading to the shared state: the reading is
/// published, availability returns, and any stale error or conflict flag
/// clears.
pub fn record_battery_success(state: &mut BatteryState, percentage: u8, charging: bool)
    ensures
        *final(state) == (BatteryState {
            percentage,
            charging,
            available: true,
            error: None,
            logid_active: false,
        }),
{
    state.percentage = percentage;
    state.charging = charging;
    state.available = true;
    state.error = None;
    state.logid_active = false;
}

/// Apply a failed battery poll to the shared state: availability drops and
/// the diagnostic text is published, while the last known percentage and
/// charging flag stay readable.
pub fn record_battery_failure(state: &mut BatteryState, error: &BatteryError)
    ensures
        final(state).available == false,
        final(state).error is Some,
        final(state).percentage == old(state).percentage,
        final(state).charging == old(state).charging,
        final(state).logid_active == old(state).logid_active,
{
    state.available = false;
    state.error = Some(error.message());
}

/// Mark the shared state unavailable because a conflicting process owns the
/// HID++ channel, with a descriptive reason instead of endless retries.
pub fn record_conflicting_process(state: &mut BatteryState)
    ensures
        final(state).available == false,
        final(state).logid_active == true,
        final(state).error matches Some(m) && m@ == "LogiOps controls HID++"@,
        final(state).percentage == old(state).percentage,
        final(state).charging == old(state).charging,
{
    state.available = false;
    state.logid_active = true;
    state.error = Some(String::from_str("LogiOps controls HID++"));
}

} // verus!
