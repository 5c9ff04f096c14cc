//! HID++ 2.0 protocol frames and the runtime safety gate.
//!
//! The bridge sends runtime-only haptic commands to the mouse without ever
//! writing to onboard memory, so the device stays fully compatible with
//! other host operating systems. The safety gate here is the runtime veto
//! that upholds that rule: no code path may issue a transaction against a
//! blocklisted feature.

use vstd::prelude::*;
use crate::blocklisted_features::{spec_is_blocklisted, is_blocklisted, blocklist_reason};
use crate::blocklisted_features::spec_blocklist_reason;
use crate::report_type;
use vstd::string::StringExecFns;

verus! {

/// Logitech vendor ID
pub const LOGITECH_VENDOR_ID: u16 = 0x046D;

// ============================================================================
// Error type
// ============================================================================

/// Haptic error type
#[derive(Debug, Clone)]
pub enum HapticError {
    /// No compatible device found
    DeviceNotFound,
    /// Permission denied accessing device
    PermissionDenied,
    /// Device does not support haptics
    UnsupportedDevice,
    /// I/O error during communication, with the transport's own message
    IoError(String),
    /// HID++ protocol error
    ProtocolError(String),
    /// An attempt to use a blocklisted feature that writes to onboard
    /// memory was stopped. This indicates a programming bug: the bridge
    /// must never reach for a persistent feature.
    SafetyViolation { feature_id: u16, reason: &'static str },
}

/// One hexadecimal digit, upper case, as a one-character string.
pub open spec fn spec_hex_digit(v: u16) -> Seq<char> {
    if v == 0 {
        "0"@
    } else if v == 1 {
        "1"@
    } else if v == 2 {
        "2"@
    } else if v == 3 {
        "3"@
    } else if v == 4 {
        "4"@
    } else if v == 5 {
        "5"@
    } else if v == 6 {
        "6"@
    } else if v == 7 {
        "7"@
    } else if v == 8 {
        "8"@
    } else if v == 9 {
        "9"@
    } else if v == 10 {
        "A"@
    } else if v == 11 {
        "B"@
    } else if v == 12 {
        "C"@
    } else if v == 13 {
        "D"@
    } else if v == 14 {
        "E"@
    } else {
        "F"@
    }
}

fn hex_digit(v: u16) -> (r: &'static str)
    requires
        v < 16,
    ensures
        r@ == spec_hex_digit(v),
{
    if v == 0 {
        "0"
    } else if v == 1 {
        "1"
    } else if v == 2 {
        "2"
    } else if v == 3 {
        "3"
    } else if v == 4 {
        "4"
    } else if v == 5 {
        "5"
    } else if v == 6 {
        "6"
    } else if v == 7 {
        "7"
    } else if v == 8 {
        "8"
    } else if v == 9 {
        "9"
    } else if v == 10 {
        "A"
    } else if v == 11 {
        "B"
    } else if v == 12 {
        "C"
    } else if v == 13 {
        "D"
    } else if v == 14 {
        "E"
    } else {
        "F"
    }
}

/// A 16-bit value as four upper-case hexadecimal digits.
pub open spec fn spec_hex_u16(v: u16) -> Seq<char> {
    spec_hex_digit((v >> 12) & 0xF) + spec_hex_digit((v >> 8) & 0xF) + spec_hex_digit(
        (v >> 4) & 0xF,
    ) + spec_hex_digit(v & 0xF)
}

/// Render a 16-bit value as four upper-case hexadecimal digits.
pub fn hex_u16(v: u16) -> (r: String)
    ensures
        r@ == spec_hex_u16(v),
{
    assert((v >> 12) & 0xF < 16 && (v >> 8) & 0xF < 16 && (v >> 4) & 0xF < 16 && v & 0xF < 16)
        by (bit_vector);
    let mut s = String::from_str(hex_digit((v >> 12) & 0xF));
    s.append(hex_digit((v >> 8) & 0xF));
    s.append(hex_digit((v >> 4) & 0xF));
    s.append(hex_digit(v & 0xF));
    s
}

impl HapticError {
    /// A human-readable description of the error.
    pub fn message(&self) -> (r: String)
        ensures
            *self is DeviceNotFound ==> r@ == "MX Master 4 device not found"@,
            *self is PermissionDenied ==> r@ == "Permission denied accessing HID device"@,
            *self is UnsupportedDevice ==> r@ == "Device does not support haptic feedback"@,
            *self matches HapticError::IoError(m) ==> r@ == "I/O error: "@ + m@,
            *self matches HapticError::ProtocolError(m) ==> r@ == "HID++ protocol error: "@ + m@,
            *self matches HapticError::SafetyViolation { feature_id, reason } ==> r@
                == "SAFETY VIOLATION: Blocked feature 0x"@ + spec_hex_u16(feature_id) + " - "@
                + reason@,
    {
        match self {
            HapticError::DeviceNotFound => String::from_str("MX Master 4 device not found"),
            HapticError::PermissionDenied => String::from_str(
                "Permission denied accessing HID device",
            ),
            HapticError::UnsupportedDevice => String::from_str(
                "Device does not support haptic feedback",
            ),
            HapticError::IoError(e) => String::from_str("I/O error: ").concat(e.as_str()),
            HapticError::ProtocolError(msg) => String::from_str("HID++ protocol error: ").concat(
                msg.as_str(),
            ),
            HapticError::SafetyViolation { feature_id, reason } => {
                let mut s = String::from_str("SAFETY VIOLATION: Blocked feature 0x");
                s.append(hex_u16(*feature_id).as_str());
                s.append(" - ");
                s.append(reason);
                s
            },
        }
    }
}

// ============================================================================
// Safety verification
// ============================================================================

/// Verify that a feature identifier is safe to use.
///
/// This is the runtime veto called before any HID++ command that references
/// a feature identifier. A blocklisted identifier fails with a
/// `SafetyViolation` carrying the identifier and the reason; an allowed or
/// unknown identifier passes (an unknown one merely deserves caution, never
/// a failure).
pub fn verify_feature_safety(feature_id: u16) -> (r: Result<(), HapticError>)
    ensures
        spec_is_blocklisted(feature_id) ==> (r matches Err(HapticError::SafetyViolation {
            feature_id: fid,
            reason,
        }) && fid == feature_id && reason@ == spec_blocklist_reason(feature_id) && reason@.len()
            > 0),
        !spec_is_blocklisted(feature_id) ==> r is Ok,
{
    if is_blocklisted(feature_id) {
        let reason = match blocklist_reason(feature_id) {
            Some(reason) => reason,
            None => "Unknown persistent feature",
        };
        return Err(HapticError::SafetyViolation { feature_id, reason });
    }
    Ok(())
}

// ============================================================================
// Frame field packing
// ============================================================================

/// Pack a function id (high nibble) and a software id (low nibble) into
/// byte 3 of a HID++ frame.
pub fn pack_function_sw_id(function_id: u8, sw_id: u8) -> (r: u8)
    ensures
        r == (function_id << 4) | (sw_id & 0x0F),
        r >> 4 == function_id & 0x0F,
        r & 0x0F == sw_id & 0x0F,
{
    proof {
        let f = function_id;
        let s = sw_id;
        assert(((f << 4) | (s & 0x0F)) >> 4 == f & 0x0F && ((f << 4) | (s & 0x0F)) & 0x0F == s
            & 0x0F) by (bit_vector);
    }
    (function_id << 4) | (sw_id & 0x0F)
}

/// Packing then unpacking the two nibbles of byte 3 returns the original
/// values whenever they fit in four bits.
pub proof fn lemma_function_sw_id_roundtrip(function_id: u8, sw_id: u8)
    requires
        function_id < 16,
        sw_id < 16,
    ensures
        ((function_id << 4) | (sw_id & 0x0F)) >> 4 == function_id,
        ((function_id << 4) | (sw_id & 0x0F)) & 0x0F == sw_id,
{
    let f = function_id;
    let s = sw_id;
    assert(f < 16 && s < 16 ==> ((f << 4) | (s & 0x0F)) >> 4 == f && ((f << 4) | (s & 0x0F)) & 0x0F
        == s) by (bit_vector);
}

// ============================================================================
// Short message (7 bytes)
// ============================================================================

/// HID++ 2.0 short message (7 bytes)
#[derive(Debug, Clone, Copy)]
pub struct HidppShortMessage {
    /// Report type (0x10 for short)
    pub report_type: u8,
    /// Device index (0xFF for direct connections, 0x01-0x06 for paired devices)
    pub device_index: u8,
    /// Feature index in the device's feature table
    pub feature_index: u8,
    /// Function ID (upper nibble) | Software ID (lower nibble)
    pub function_sw_id: u8,
    /// Parameters (3 bytes)
    pub params: [u8; 3],
}

/// The wire encoding of a short message.
pub open spec fn spec_short_bytes(m: HidppShortMessage) -> Seq<u8> {
    seq![
        m.report_type,
        m.device_index,
        m.feature_index,
        m.function_sw_id,
        m.params@[0],
        m.params@[1],
        m.params@[2],
    ]
}

/// Whether a byte sequence decodes as a short message, and to which one:
/// it must hold at least 7 bytes, carry the short report-type tag, and its
/// first 7 bytes must be the encoding of `m`.
pub open spec fn spec_short_parses_to(s: Seq<u8>, m: HidppShortMessage) -> bool {
    &&& s.len() >= 7
    &&& s[0] == report_type::SHORT
    &&& spec_short_bytes(m) == s.take(7)
}

impl HidppShortMessage {
    /// Create a new short message with empty parameters.
    pub fn new(device_index: u8, feature_index: u8, function_id: u8, sw_id: u8) -> (r: Self)
        ensures
            r.report_type == report_type::SHORT,
            r.device_index == device_index,
            r.feature_index == feature_index,
            r.function_sw_id == (function_id << 4) | (sw_id & 0x0F),
            r.params@ =~= seq![0u8, 0u8, 0u8],
    {
        Self {
            report_type: report_type::SHORT,
            device_index,
            feature_index,
            function_sw_id: pack_function_sw_id(function_id, sw_id),
            params: [0; 3],
        }
    }

    /// Set the parameter block.
    pub fn with_params(self, params: [u8; 3]) -> (r: Self)
        ensures
            r == (Self { params, ..self }),
    {
        Self { params, ..self }
    }

    /// Encode for sending.
    pub fn to_bytes(&self) -> (r: [u8; 7])
        ensures
            r@ == spec_short_bytes(*self),
    {
        let r = [
            self.report_type,
            self.device_index,
            self.feature_index,
            self.function_sw_id,
            self.params[0],
            self.params[1],
            self.params[2],
        ];
        proof {
            assert(r@ =~= spec_short_bytes(*self));
        }
        r
    }

    /// Decode from received bytes. Fails exactly when fewer than 7 bytes
    /// arrived or the report-type tag is not the short one.
    pub fn from_bytes(bytes: &[u8]) -> (r: Option<Self>)
        ensures
            r matches Some(m) ==> spec_short_parses_to(bytes@, m),
            r is None <==> !(bytes@.len() >= 7 && bytes@[0] == report_type::SHORT),
    {
        if bytes.len() < 7 || bytes[0] != report_type::SHORT {
            return None;
        }
        let m = Self {
            report_type: bytes[0],
            device_index: bytes[1],
            feature_index: bytes[2],
            function_sw_id: bytes[3],
            params: [bytes[4], bytes[5], bytes[6]],
        };
        proof {
            assert(spec_short_bytes(m) =~= bytes@.take(7));
        }
        Some(m)
    }

    /// Extract the function id (upper nibble of byte 3).
    pub fn function_id(&self) -> (r: u8)
        ensures
            r == self.function_sw_id >> 4,
            r < 16,
    {
        proof {
            let b = self.function_sw_id;
            assert(b >> 4 < 16) by (bit_vector);
        }
        self.function_sw_id >> 4
    }

    /// Extract the software id (lower nibble of byte 3).
    pub fn sw_id(&self) -> (r: u8)
        ensures
            r == self.function_sw_id & 0x0F,
            r < 16,
    {
        proof {
            let b = self.function_sw_id;
            assert(b & 0x0F < 16) by (bit_vector);
        }
        self.function_sw_id & 0x0F
    }
}

/// Round trip for short reports: a decoded frame that came from encoding a
/// message carries the same device index, feature index, packed function
/// and software ids, and parameters.
pub proof fn lemma_short_report_roundtrip(m: HidppShortMessage, m2: HidppShortMessage)
    requires
        m.report_type == report_type::SHORT,
        spec_short_parses_to(spec_short_bytes(m), m2),
    ensures
        m2 == m,
{
    let s = spec_short_bytes(m);
    assert(s.take(7) =~= s);
    assert(spec_short_bytes(m2) == s);
    assert(m2.params@ =~= m.params@);
    assert(m2.params == m.params);
    assert(m2 == m);
}

// ============================================================================
// Long message (20 bytes)
// ============================================================================

/// HID++ 2.0 long message (20 bytes)
#[derive(Debug, Clone)]
pub struct HidppLongMessage {
    /// Report type (0x11 for long)
    pub report_type: u8,
    /// Device index
    pub device_index: u8,
    /// Feature index
    pub feature_index: u8,
    /// Function ID | Software ID
    pub function_sw_id: u8,
    /// Parameters (16 bytes)
    pub params: [u8; 16],
}

/// The wire encoding of a long message.
pub open spec fn spec_long_bytes(m: HidppLongMessage) -> Seq<u8> {
    seq![m.report_type, m.device_index, m.feature_index, m.function_sw_id] + m.params@
}

/// Whether a byte sequence decodes as a long message, and to which one.
pub open spec fn spec_long_parses_to(s: Seq<u8>, m: HidppLongMessage) -> bool {
    &&& s.len() >= 20
    &&& s[0] == report_type::LONG
    &&& spec_long_bytes(m) == s.take(20)
}

impl HidppLongMessage {
    /// Create a new long message with empty parameters.
    pub fn new(device_index: u8, feature_index: u8, function_id: u8, sw_id: u8) -> (r: Self)
        ensures
            r.report_type == report_type::LONG,
            r.device_index == device_index,
            r.feature_index == feature_index,
            r.function_sw_id == (function_id << 4) | (sw_id & 0x0F),
            r.params@ =~= Seq::new(16, |i: int| 0u8),
    {
        Self {
            report_type: report_type::LONG,
            device_index,
            feature_index,
            function_sw_id: pack_function_sw_id(function_id, sw_id),
            params: [0; 16],
        }
    }

    /// Set the parameter block from a slice, copying at most 16 bytes and
    /// leaving the rest zero.
    pub fn with_params(self, params: &[u8]) -> (r: Self)
        ensures
            r.report_type == self.report_type,
            r.device_index == self.device_index,
            r.feature_index == self.feature_index,
            r.function_sw_id == self.function_sw_id,
            r.params@ =~= Seq::new(
                16,
                |i: int| if i < params@.len() { params@[i] } else { self.params@[i] },
            ),
    {
        let mut out = self.params;
        let n = if params.len() < 16 {
            params.len()
        } else {
            16
        };
        let mut i: usize = 0;
        while i < n
            invariant
                n <= 16,
                n <= params@.len(),
                i <= n,
                params@.len() < 16 ==> n == params@.len(),
                params@.len() >= 16 ==> n == 16,
                out@.len() == 16,
                forall|j: int| 0 <= j < i ==> out@[j] == params@[j],
                forall|j: int| i <= j < 16 ==> out@[j] == self.params@[j],
            decreases n - i,
        {
            out[i] = params[i];
            i += 1;
        }
        Self { params: out, ..self }
    }

    /// Encode for sending.
    pub fn to_bytes(&self) -> (r: [u8; 20])
        ensures
            r@ == spec_long_bytes(*self),
    {
        let p = &self.params;
        let r = [
            self.report_type,
            self.device_index,
            self.feature_index,
            self.function_sw_id,
            p[0],
            p[1],
            p[2],
            p[3],
            p[4],
            p[5],
            p[6],
            p[7],
            p[8],
            p[9],
            p[10],
            p[11],
            p[12],
            p[13],
            p[14],
            p[15],
        ];
        proof {
            assert(r@ =~= spec_long_bytes(*self));
        }
        r
    }

    /// Decode from received bytes. Fails exactly when fewer than 20 bytes
    /// arrived or the report-type tag is not the long one.
    pub fn from_bytes(bytes: &[u8]) -> (r: Option<Self>)
        ensures
            r matches Some(m) ==> spec_long_parses_to(bytes@, m),
            r is None <==> !(bytes@.len() >= 20 && bytes@[0] == report_type::LONG),
    {
        if bytes.len() < 20 || bytes[0] != report_type::LONG {
            return None;
        }
        let params = [
            bytes[4],
            bytes[5],
            bytes[6],
            bytes[7],
            bytes[8],
            bytes[9],
            bytes[10],
            bytes[11],
            bytes[12],
            bytes[13],
            bytes[14],
            bytes[15],
            bytes[16],
            bytes[17],
            bytes[18],
            bytes[19],
        ];
        let m = Self {
            report_type: bytes[0],
            device_index: bytes[1],
            feature_index: bytes[2],
            function_sw_id: bytes[3],
            params,
        };
        proof {
            assert(spec_long_bytes(m) =~= bytes@.take(20));
        }
        Some(m)
    }
}

/// Round trip for long reports: decoding an encoded message yields a
/// message with identical fields.
pub proof fn lemma_long_report_roundtrip(m: HidppLongMessage, m2: HidppLongMessage)
    requires
        m.report_type == report_type::LONG,
        spec_long_parses_to(spec_long_bytes(m), m2),
    ensures
        m2.report_type == m.report_type,
        m2.device_index == m.device_index,
        m2.feature_index == m.feature_index,
        m2.function_sw_id == m.function_sw_id,
        m2.params@ == m.params@,
{
    let s = spec_long_bytes(m);
    assert(s.take(20) =~= s);
    assert(spec_long_bytes(m2) == s);
    let s2 = spec_long_bytes(m2);
    assert(s2[0] == m2.report_type && s2[1] == m2.device_index && s2[2] == m2.feature_index && s2[3]
        == m2.function_sw_id);
    assert(s[0] == m.report_type && s[1] == m.device_index && s[2] == m.feature_index && s[3]
        == m.function_sw_id);
    assert forall|i: int| 0 <= i < 16 implies m2.params@[i] == m.params@[i] by {
        assert(spec_long_bytes(m2)[4 + i] == m2.params@[i]);
        assert(spec_long_bytes(m)[4 + i] == m.params@[i]);
    }
    assert(m2.params@ =~= m.params@);
}

// ============================================================================
// Connection type
// ============================================================================

/// Type of connection to the MX Master 4
#[derive(Debug, Clone, Copy, PartialEq, Eq, Structural)]
pub enum ConnectionType {
    /// Direct USB connection
    Usb,
    /// Via Logitech Bolt receiver (wireless)
    Bolt,
    /// Direct Bluetooth connection
    Bluetooth,
    /// Via Unifying receiver
    Unifying,
}

impl ConnectionType {
    /// The connection type's display name.
    pub fn name(&self) -> (r: &'static str)
        ensures
            *self == ConnectionType::Usb ==> r@ == "USB"@,
            *self == ConnectionType::Bolt ==> r@ == "Bolt"@,
            *self == ConnectionType::Bluetooth ==> r@ == "Bluetooth"@,
            *self == ConnectionType::Unifying ==> r@ == "Unifying"@,
    {
        match self {
            ConnectionType::Usb => "USB",
            ConnectionType::Bolt => "Bolt",
            ConnectionType::Bluetooth => "Bluetooth",
            ConnectionType::Unifying => "Unifying",
        }
    }
}

} // verus!
