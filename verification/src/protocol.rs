//! The request/response transaction protocol.
//!
//! One transaction sends a short request frame, then polls reads under a
//! bounded retry budget. Only a frame whose device index, feature index,
//! function id, and software id all match the request is its response;
//! a frame flagged as a protocol error report surfaces as an error; any
//! other frame is an unrelated device notification and is discarded. The
//! transport performs the raw writes, reads, and sleeps; every acceptance
//! decision is made here.

use vstd::prelude::*;
use crate::hidpp::HidppShortMessage;
use crate::report_type;

verus! {

/// How many read attempts a transaction makes before timing out.
pub const MAX_POLL_ATTEMPTS: u32 = 100;

/// The sleep between read attempts, in milliseconds.
pub const POLL_INTERVAL_MS: u64 = 10;

/// The feature index of the error report frame.
pub const ERROR_REPORT_FEATURE: u8 = 0x8F;

/// The in-frame error marker at byte 4 of an error response.
pub const ERROR_MARKER: u8 = 0x05;

/// The sentinel byte a ping asks the device to echo.
pub const PING_DATA: u8 = 0xAA;

/// What one received frame means to a pending transaction.
#[derive(Debug, Clone, Copy, PartialEq, Eq, Structural)]
pub enum ResponseKind {
    /// The frame answers the pending request
    Matched,
    /// The frame is a protocol error report for the pending request
    ErrorReport,
    /// The frame is an unrelated notification and is discarded
    Unrelated,
}

/// How a frame is classified against a pending request: a frame shorter
/// than 7 bytes or without a short or long report tag is unrelated; one
/// matching device index, feature index, function id, and software id is
/// the response; one carrying the error-report feature index, or the
/// request's feature index with the error marker at byte 4, reports a
/// protocol error; anything else is unrelated.
pub open spec fn spec_classify(
    device_index: u8,
    feature_index: u8,
    function: u8,
    sw_id: u8,
    s: Seq<u8>,
) -> ResponseKind {
    if s.len() < 7 {
        ResponseKind::Unrelated
    } else if s[0] != report_type::SHORT && s[0] != report_type::LONG {
        ResponseKind::Unrelated
    } else if s[1] == device_index && s[2] == feature_index && ((s[3] >> 4) & 0x0F) == function
        && (s[3] & 0x0F) == sw_id {
        ResponseKind::Matched
    } else if s[2] == ERROR_REPORT_FEATURE || (s[2] == feature_index && s[4] == ERROR_MARKER) {
        ResponseKind::ErrorReport
    } else {
        ResponseKind::Unrelated
    }
}

/// One pending request/response exchange: the request's correlation fields
/// and the read attempts spent so far.
#[derive(Debug, Clone, Copy)]
pub struct Transaction {
    /// Device index the request addressed
    pub device_index: u8,
    /// Feature index the request addressed
    pub feature_index: u8,
    /// Function id of the request (low nibble)
    pub function: u8,
    /// Software id the response must echo (low nibble)
    pub sw_id: u8,
    /// Read attempts made so far
    pub attempts: u32,
}

impl Transaction {
    /// Open a transaction. Function and software ids are nibbles; high bits
    /// are masked off as the frame cannot carry them.
    pub fn new(device_index: u8, feature_index: u8, function: u8, sw_id: u8) -> (r: Self)
        ensures
            r.device_index == device_index,
            r.feature_index == feature_index,
            r.function == function & 0x0F,
            r.sw_id == sw_id & 0x0F,
            r.attempts == 0,
    {
        Transaction {
            device_index,
            feature_index,
            function: function & 0x0F,
            sw_id: sw_id & 0x0F,
            attempts: 0,
        }
    }

    /// The request frame this transaction sends, with the given parameters.
    pub fn request_frame(&self, params: [u8; 3]) -> (r: HidppShortMessage)
        ensures
            r.report_type == report_type::SHORT,
            r.device_index == self.device_index,
            r.feature_index == self.feature_index,
            r.function_sw_id == (self.function << 4) | (self.sw_id & 0x0F),
            r.params == params,
    {
        HidppShortMessage::new(self.device_index, self.feature_index, self.function, self.sw_id)
            .with_params(params)
    }

    /// Classify one received frame against this pending request.
    pub fn offer(&self, resp: &[u8]) -> (r: ResponseKind)
        ensures
            r == spec_classify(self.device_index, self.feature_index, self.function, self.sw_id, resp@),
    {
        if resp.len() < 7 {
            return ResponseKind::Unrelated;
        }
        if resp[0] != report_type::SHORT && resp[0] != report_type::LONG {
            return ResponseKind::Unrelated;
        }
        let resp_function = (resp[3] >> 4) & 0x0F;
        let resp_sw_id = resp[3] & 0x0F;
        if resp[1] == self.device_index && resp[2] == self.feature_index && resp_function
            == self.function && resp_sw_id == self.sw_id {
            ResponseKind::Matched
        } else if resp[2] == ERROR_REPORT_FEATURE || (resp[2] == self.feature_index && resp[4]
            == ERROR_MARKER) {
            ResponseKind::ErrorReport
        } else {
            ResponseKind::Unrelated
        }
    }

    /// Spend one read attempt; returns whether budget remains. After
    /// `MAX_POLL_ATTEMPTS` failed attempts the transaction times out.
    pub fn note_attempt(&mut self) -> (budget_left: bool)
        requires
            old(self).attempts <= MAX_POLL_ATTEMPTS,
        ensures
            final(self).attempts == old(self).attempts + 1,
            *final(self) == (Transaction { attempts: final(self).attempts, ..*old(self) }),
            budget_left == (final(self).attempts <= MAX_POLL_ATTEMPTS),
    {
        self.attempts = self.attempts + 1;
        self.attempts <= MAX_POLL_ATTEMPTS
    }
}

/// A response that echoes the request's software id can never be confused
/// with one of a concurrent transaction that used a different software id:
/// the same frame cannot match both.
pub proof fn lemma_sw_id_disambiguates(
    device_index: u8,
    feature_index: u8,
    function: u8,
    sw_a: u8,
    sw_b: u8,
    s: Seq<u8>,
)
    requires
        sw_a & 0x0F != sw_b & 0x0F,
    ensures
        !(spec_classify(device_index, feature_index, function, sw_a & 0x0F, s)
            == ResponseKind::Matched && spec_classify(
            device_index,
            feature_index,
            function,
            sw_b & 0x0F,
            s,
        ) == ResponseKind::Matched),
{
}

// ============================================================================
// Ping validation
// ============================================================================

/// The IRoot ping request: feature index 0, function 1, echoing the
/// sentinel byte. A live, protocol-speaking device echoes the sentinel
/// back; this is how a receiver with no paired mouse is rejected even
/// though its node opens.
pub fn ping_request(device_index: u8, sw_id: u8) -> (r: HidppShortMessage)
    ensures
        r.report_type == report_type::SHORT,
        r.device_index == device_index,
        r.feature_index == 0,
        r.function_sw_id >> 4 == 1,
        r.function_sw_id & 0x0F == sw_id & 0x0F,
        r.params@ == seq![0u8, 0u8, PING_DATA],
    {
        proof {
            let x = sw_id;
            assert(((1u8 << 4) | (x & 0x0F)) >> 4 == 1 && ((1u8 << 4) | (x & 0x0F)) & 0x0F == x
                & 0x0F) by (bit_vector);
        }
        let r = HidppShortMessage::new(device_index, 0x00, 0x01, sw_id).with_params(
            [0x00, 0x00, PING_DATA],
        );
        proof {
            assert(r.params@ =~= seq![0u8, 0u8, PING_DATA]);
        }
        r
    }

/// Whether a response frame echoes the ping sentinel at byte 6.
pub fn ping_echoed(resp: &[u8]) -> (r: bool)
    ensures
        r == (resp@.len() >= 7 && resp@[6] == PING_DATA),
{
    resp.len() >= 7 && resp[6] == PING_DATA
}

// ============================================================================
// Feature resolution frames
// ============================================================================

/// The parameter block of an IRoot getFeature query: the feature identifier
/// split big-endian into the first two parameter bytes.
pub fn feature_index_request_params(feature_id: u16) -> (r: [u8; 3])
    ensures
        r@ == seq![(feature_id >> 8) as u8, (feature_id & 0xFF) as u8, 0u8],
{
    let r = [(feature_id >> 8) as u8, (feature_id & 0xFF) as u8, 0u8];
    proof {
        assert(r@ =~= seq![(feature_id >> 8) as u8, (feature_id & 0xFF) as u8, 0u8]);
    }
    r
}

/// Decode the feature identifier from an IFeatureSet enumeration response:
/// big-endian in bytes 4 and 5.
pub fn feature_id_from_response(resp: &Vec<u8>) -> (r: Option<u16>)
    ensures
        resp@.len() >= 6 ==> r == Some((((resp@[4] as u16) << 8) | (resp@[5] as u16)) as u16),
        resp@.len() < 6 ==> r is None,
{
    if resp.len() >= 6 {
        Some(((resp[4] as u16) << 8) | (resp[5] as u16))
    } else {
        None
    }
}

/// Splitting a feature identifier into the two big-endian parameter bytes
/// and reading it back yields the identifier: the getFeature query asks
/// about exactly the feature the caller named.
pub proof fn lemma_feature_id_split_join(feature_id: u16)
    ensures
        ((((feature_id >> 8) as u8) as u16) << 8) | (((feature_id & 0xFF) as u8) as u16)
            == feature_id,
{
    let id = feature_id;
    assert(((((id >> 8) as u8) as u16) << 8) | (((id & 0xFF) as u8) as u16) == id)
        by (bit_vector);
}

} // verus!
