//! The haptic pulse scheduler.
//!
//! Turns abstract UX events into pulse frames, applies intensity scaling and
//! the debounce layers, and tracks connection state with cooldown-governed
//! reconnection. The scheduler never performs I/O itself: frames to send are
//! queued in an outbox that the transport layer drains, and every
//! time-dependent decision is a verified function of an explicit timestamp.
//! Haptic failures are absorbed: `pulse` and `emit` always succeed, and an
//! I/O failure reported by the transport only downgrades the connection
//! state.

use vstd::prelude::*;
use crate::clock;
use crate::config::HapticConfig;
use crate::feature_table::FeatureTable;
use crate::features;
use crate::hidpp::{ConnectionType, HapticError, HidppShortMessage};
use crate::report_type;

verus! {

/// Reconnection cooldown in milliseconds (5 seconds)
pub const RECONNECT_COOLDOWN_MS: u64 = 5000;

/// Default slice debounce time (milliseconds)
pub const DEFAULT_SLICE_DEBOUNCE_MS: u64 = 20;

/// Default re-entry debounce time (milliseconds)
pub const DEFAULT_REENTRY_DEBOUNCE_MS: u64 = 50;

/// Default minimum time between pulses (milliseconds)
pub const DEFAULT_DEBOUNCE_MS: u64 = 20;

// ============================================================================
// Pulses, patterns, events
// ============================================================================

/// One haptic pulse: intensity (0-100) and duration in milliseconds.
#[derive(Debug, Clone, Copy)]
pub struct HapticPulse {
    /// Intensity (0-100)
    pub intensity: u8,
    /// Duration in milliseconds
    pub duration_ms: u16,
}

/// Haptic pulse pattern type
#[derive(Debug, Clone, Copy, PartialEq, Eq, Structural)]
pub enum HapticPattern {
    /// Single pulse
    Single,
    /// Double pulse with 30ms gap
    Double,
    /// Triple short pulse with 20ms gaps
    Triple,
}

/// The number of pulses in a pattern.
pub open spec fn spec_pulse_count(pattern: HapticPattern) -> u8 {
    match pattern {
        HapticPattern::Single => 1,
        HapticPattern::Double => 2,
        HapticPattern::Triple => 3,
    }
}

/// The gap between a pattern's pulses, in milliseconds.
pub open spec fn spec_gap_ms(pattern: HapticPattern) -> u64 {
    match pattern {
        HapticPattern::Single => 0,
        HapticPattern::Double => 30,
        HapticPattern::Triple => 20,
    }
}

impl HapticPattern {
    /// Get the number of pulses for this pattern.
    pub fn pulse_count(&self) -> (r: u8)
        ensures
            r == spec_pulse_count(*self),
    {
        match self {
            HapticPattern::Single => 1,
            HapticPattern::Double => 2,
            HapticPattern::Triple => 3,
        }
    }

    /// Get the gap between pulses in milliseconds.
    pub fn gap_ms(&self) -> (r: u64)
        ensures
            r == spec_gap_ms(*self),
    {
        match self {
            HapticPattern::Single => 0,
            HapticPattern::Double => 30,
            HapticPattern::Triple => 20,
        }
    }
}

/// UX haptic events triggered during menu interaction
#[derive(Debug, Clone, Copy, PartialEq, Eq, Structural)]
pub enum HapticEvent {
    /// Radial menu appears on screen
    MenuAppear,
    /// Cursor moves to highlight a different slice
    SliceChange,
    /// User confirms selection (gesture button released on valid slice)
    SelectionConfirm,
    /// User selects an empty or invalid slice
    InvalidAction,
}

/// The base intensity of an event's pulse profile.
pub open spec fn spec_event_intensity(event: HapticEvent) -> u8 {
    match event {
        HapticEvent::MenuAppear => 20,
        HapticEvent::SliceChange => 40,
        HapticEvent::SelectionConfirm => 80,
        HapticEvent::InvalidAction => 30,
    }
}

/// The duration of an event's pulse profile, in milliseconds.
pub open spec fn spec_event_duration(event: HapticEvent) -> u16 {
    match event {
        HapticEvent::MenuAppear => 10,
        HapticEvent::SliceChange => 15,
        HapticEvent::SelectionConfirm => 25,
        HapticEvent::InvalidAction => 50,
    }
}

/// The pulse pattern bound to an event.
pub open spec fn spec_event_pattern(event: HapticEvent) -> HapticPattern {
    match event {
        HapticEvent::MenuAppear => HapticPattern::Single,
        HapticEvent::SliceChange => HapticPattern::Single,
        HapticEvent::SelectionConfirm => HapticPattern::Double,
        HapticEvent::InvalidAction => HapticPattern::Triple,
    }
}

impl HapticEvent {
    /// Get the base UX profile for this event.
    pub fn base_profile(&self) -> (r: HapticPulse)
        ensures
            r.intensity == spec_event_intensity(*self),
            r.duration_ms == spec_event_duration(*self),
    {
        match self {
            HapticEvent::MenuAppear => crate::haptic_profiles::menu_appear(),
            HapticEvent::SliceChange => crate::haptic_profiles::slice_change(),
            HapticEvent::SelectionConfirm => crate::haptic_profiles::confirm(),
            HapticEvent::InvalidAction => crate::haptic_profiles::invalid(),
        }
    }

    /// Get the pulse pattern for this event.
    pub fn pattern(&self) -> (r: HapticPattern)
        ensures
            r == spec_event_pattern(*self),
    {
        match self {
            HapticEvent::MenuAppear => HapticPattern::Single,
            HapticEvent::SliceChange => HapticPattern::Single,
            HapticEvent::SelectionConfirm => HapticPattern::Double,
            HapticEvent::InvalidAction => HapticPattern::Triple,
        }
    }

    /// Get the default intensity for this event (0-100).
    pub fn default_intensity(&self) -> (r: u8)
        ensures
            r == spec_event_intensity(*self),
    {
        self.base_profile().intensity
    }

    /// Get the duration for this event in milliseconds.
    pub fn duration_ms(&self) -> (r: u16)
        ensures
            r == spec_event_duration(*self),
    {
        self.base_profile().duration_ms
    }

    /// The event's display name.
    pub fn name(&self) -> (r: &'static str)
        ensures
            *self == HapticEvent::MenuAppear ==> r@ == "menu_appear"@,
            *self == HapticEvent::SliceChange ==> r@ == "slice_change"@,
            *self == HapticEvent::SelectionConfirm ==> r@ == "selection_confirm"@,
            *self == HapticEvent::InvalidAction ==> r@ == "invalid_action"@,
    {
        match self {
            HapticEvent::MenuAppear => "menu_appear",
            HapticEvent::SliceChange => "slice_change",
            HapticEvent::SelectionConfirm => "selection_confirm",
            HapticEvent::InvalidAction => "invalid_action",
        }
    }
}

// ============================================================================
// Per-event intensity overrides
// ============================================================================

/// Per-event intensity overrides
#[derive(Debug, Clone, Copy)]
pub struct PerEventIntensity {
    /// Menu appearance intensity (default 20)
    pub menu_appear: u8,
    /// Slice change intensity (default 40)
    pub slice_change: u8,
    /// Selection confirm intensity (default 80)
    pub confirm: u8,
    /// Invalid action intensity (default 30)
    pub invalid: u8,
}

/// The configured intensity override for an event.
pub open spec fn spec_per_event(p: PerEventIntensity, event: HapticEvent) -> u8 {
    match event {
        HapticEvent::MenuAppear => p.menu_appear,
        HapticEvent::SliceChange => p.slice_change,
        HapticEvent::SelectionConfirm => p.confirm,
        HapticEvent::InvalidAction => p.invalid,
    }
}

impl Default for PerEventIntensity {
    fn default() -> (r: Self)
        ensures
            r.menu_appear == 20,
            r.slice_change == 40,
            r.confirm == 80,
            r.invalid == 30,
    {
        PerEventIntensity { menu_appear: 20, slice_change: 40, confirm: 80, invalid: 30 }
    }
}

impl PerEventIntensity {
    /// Get the intensity for a specific event.
    pub fn get(&self, event: &HapticEvent) -> (r: u8)
        ensures
            r == spec_per_event(*self, *event),
    {
        match event {
            HapticEvent::MenuAppear => self.menu_appear,
            HapticEvent::SliceChange => self.slice_change,
            HapticEvent::SelectionConfirm => self.confirm,
            HapticEvent::InvalidAction => self.invalid,
        }
    }
}

// ============================================================================
// Connection state
// ============================================================================

/// Connection state for graceful fallback handling
#[derive(Debug, Clone, Copy, PartialEq, Eq, Structural)]
pub enum ConnectionState {
    /// No connection attempted yet
    NotConnected,
    /// Successfully connected to device
    Connected,
    /// Device was connected but is now disconnected (I/O error, sleep, unplug)
    Disconnected,
    /// Waiting for cooldown before attempting reconnection
    Cooldown,
}

impl Default for ConnectionState {
    fn default() -> (r: Self)
        ensures
            r == ConnectionState::NotConnected,
    {
        ConnectionState::NotConnected
    }
}

// ============================================================================
// Device profile
// ============================================================================

/// What the bridge knows about one opened, validated device: its protocol
/// addressing, its gated feature table, and where its haptic feature sits.
/// The raw transport handle itself lives outside the library.
#[derive(Debug, Clone)]
pub struct DeviceProfile {
    /// Device index for HID++ frames (0xFF for direct, 0x01-0x06 via receiver)
    pub device_index: u8,
    /// Connection type
    pub connection_type: ConnectionType,
    /// Next software id for request correlation (rotates 1-15)
    pub sw_id: u8,
    /// The gated feature table built at connection time
    pub features: FeatureTable,
    /// Haptic feature index, if the device supports haptics
    pub haptic_feature_index: Option<u8>,
}

/// The software id that follows `sw_id` in the 1-15 rotation.
pub open spec fn spec_next_sw(sw_id: u8) -> u8 {
    if sw_id >= 15 {
        1u8
    } else {
        (sw_id + 1) as u8
    }
}

impl DeviceProfile {
    /// Well-formedness: the rotating software id stays in 1-15, the feature
    /// table is well formed, and a cached haptic index is exactly the
    /// gated table's resolution of the force-feedback feature - never an
    /// ungated index.
    pub open spec fn wf(self) -> bool {
        &&& 1 <= self.sw_id <= 15
        &&& self.features.wf()
        &&& (self.haptic_feature_index matches Some(idx) ==> self.features.maps_to(
            features::FORCE_FEEDBACK,
            idx,
        ))
    }

    /// Build a profile from the feature list a device reported during
    /// enumeration. Blocklisted features are excluded by the table; the
    /// haptic feature index is cached when the force-feedback feature was
    /// reported and stored.
    pub fn from_enumeration(
        device_index: u8,
        connection_type: ConnectionType,
        reports: &Vec<(u16, u8)>,
    ) -> (r: Self)
        ensures
            r.wf(),
            r.device_index == device_index,
            r.connection_type == connection_type,
            r.sw_id == 1,
            r.haptic_feature_index is Some <==> r.features.contains_id(features::FORCE_FEEDBACK),
            forall|id: u16|
                #[trigger] r.features.contains_id(id) <==> (
                !crate::blocklisted_features::spec_is_blocklisted(id) && exists|j: int|
                    0 <= j < reports@.len() && (#[trigger] reports@[j]).0 == id && reports@[j].1
                        != 0),
    {
        let table = FeatureTable::build_from_reports(reports);
        let haptic_feature_index = table.index_of(features::FORCE_FEEDBACK);
        DeviceProfile {
            device_index,
            connection_type,
            sw_id: 1,
            features: table,
            haptic_feature_index,
        }
    }

    /// Whether the device exposes the haptic feature.
    pub fn haptic_supported(&self) -> (r: bool)
        ensures
            r == (self.haptic_feature_index is Some),
    {
        self.haptic_feature_index.is_some()
    }

    /// Take the next software id, rotating through 1-15.
    pub fn next_sw_id(&mut self) -> (r: u8)
        requires
            old(self).wf(),
        ensures
            final(self).wf(),
            r == old(self).sw_id,
            *final(self) == (DeviceProfile { sw_id: spec_next_sw(old(self).sw_id), ..*old(self) }),
    {
        let id = self.sw_id;
        self.sw_id = if self.sw_id >= 15 {
            1
        } else {
            self.sw_id + 1
        };
        id
    }
}

// ============================================================================
// Time arithmetic
// ============================================================================

/// Milliseconds elapsed from `then` to `now`, saturating at 0 when the
/// clock moved backwards.
pub open spec fn spec_elapsed(now: u64, then: u64) -> u64 {
    if now >= then {
        (now - then) as u64
    } else {
        0u64
    }
}

/// Compute elapsed milliseconds, saturating at 0.
pub fn elapsed_ms(now: u64, then: u64) -> (r: u64)
    ensures
        r == spec_elapsed(now, then),
{
    if now >= then {
        now - then
    } else {
        0
    }
}

// ============================================================================
// Haptic manager
// ============================================================================

/// HID++ haptic manager: scheduling state plus the outbox of frames for the
/// transport layer to send.
#[derive(Debug)]
pub struct HapticManager {
    /// Profile of the connected device, if any
    pub device: Option<DeviceProfile>,
    /// User-configured global intensity multiplier (0-100)
    pub intensity_multiplier: u8,
    /// Per-event intensity overrides
    pub per_event: PerEventIntensity,
    /// Whether haptics are enabled
    pub enabled: bool,
    /// Last pulse timestamp for debouncing (milliseconds)
    pub last_pulse_ms: u64,
    /// Connection state for reconnection logic
    pub connection_state: ConnectionState,
    /// Timestamp of last disconnect/failure for cooldown
    pub last_disconnect_ms: u64,
    /// Minimum time between pulses (milliseconds)
    pub debounce_ms: u64,
    /// Slice-specific debounce time (milliseconds)
    pub slice_debounce_ms: u64,
    /// Re-entry detection debounce time (milliseconds)
    pub reentry_debounce_ms: u64,
    /// Last slice change timestamp (milliseconds)
    pub last_slice_change_ms: u64,
    /// Last slice index for re-entry detection (None = no previous slice)
    pub last_slice_index: Option<u8>,
    /// Frames queued for the transport layer to send, oldest first
    pub outbox: Vec<HidppShortMessage>,
}

/// A frame in the outbox is a haptic pulse command: a short report against
/// the given haptic feature index, function 0, carrying the intensity and
/// the big-endian duration.
pub open spec fn spec_pulse_frame(
    msg: HidppShortMessage,
    device_index: u8,
    feature_index: u8,
    intensity: u8,
    duration_ms: u16,
) -> bool {
    &&& msg.report_type == report_type::SHORT
    &&& msg.device_index == device_index
    &&& msg.feature_index == feature_index
    &&& msg.function_sw_id >> 4 == 0
    &&& msg.params@ == seq![intensity, (duration_ms >> 8) as u8, (duration_ms & 0xFF) as u8]
}

impl HapticManager {
    /// Haptics act only when enabled with a non-zero global intensity.
    pub open spec fn active(self) -> bool {
        self.enabled && self.intensity_multiplier != 0
    }

    /// A device is connected and exposes the haptic feature.
    pub open spec fn device_ready(self) -> bool {
        self.device matches Some(d) && d.haptic_feature_index is Some
    }

    /// Well-formedness: the multiplier and the per-event overrides are
    /// percentages, and any connected device profile is well formed.
    pub open spec fn wf(self) -> bool {
        &&& self.intensity_multiplier <= 100
        &&& self.per_event.menu_appear <= 100
        &&& self.per_event.slice_change <= 100
        &&& self.per_event.confirm <= 100
        &&& self.per_event.invalid <= 100
        &&& (self.device matches Some(d) ==> d.wf())
    }
}

/// The exact effect of one `pulse` call at time `now`: either nothing
/// changes (haptics inactive, no haptic-capable device, or within the
/// debounce window) or exactly one pulse frame is queued, the debounce
/// timestamp moves to `now`, and the device's software id rotates.
pub open spec fn pulse_effect(
    s: HapticManager,
    t: HapticManager,
    intensity: u8,
    duration_ms: u16,
    now: u64,
) -> bool {
    if !(s.active() && s.device_ready()) {
        t == s
    } else if spec_elapsed(now, s.last_pulse_ms) < s.debounce_ms {
        t == s
    } else {
        &&& s.device matches Some(d)
        &&& d.haptic_feature_index matches Some(idx)
        &&& t.outbox@.len() == s.outbox@.len() + 1
        &&& t.outbox@ == s.outbox@.push(t.outbox@.last())
        &&& spec_pulse_frame(t.outbox@.last(), d.device_index, idx, intensity, duration_ms)
        &&& t.outbox@.last().function_sw_id == d.sw_id & 0x0F
        &&& t == (HapticManager {
            last_pulse_ms: now,
            device: Some(DeviceProfile { sw_id: spec_next_sw(d.sw_id), ..d }),
            outbox: t.outbox,
            ..s
        })
    }
}

/// The exact effect of one reconnection step at time `now`. Unless the
/// state is Disconnected or Cooldown it only reports whether the connection
/// is usable and makes no attempt. Before the cooldown interval has elapsed
/// since the last disconnect it returns false, makes no attempt, and leaves
/// the device untouched. Once the cooldown has elapsed it makes exactly one
/// attempt: a discovered device connects; none found re-arms the cooldown.
pub open spec fn reconnect_effect(
    s: HapticManager,
    t: HapticManager,
    discovered: Option<DeviceProfile>,
    attempted_ok: bool,
    now: u64,
) -> bool {
    if s.connection_state != ConnectionState::Disconnected && s.connection_state
        != ConnectionState::Cooldown {
        &&& attempted_ok == (s.connection_state == ConnectionState::Connected)
        &&& t == s
    } else if spec_elapsed(now, s.last_disconnect_ms) < RECONNECT_COOLDOWN_MS {
        &&& !attempted_ok
        &&& t == (HapticManager { connection_state: ConnectionState::Cooldown, ..s })
    } else if discovered is Some {
        &&& attempted_ok
        &&& t == (HapticManager {
            device: Some(discovered->0),
            connection_state: ConnectionState::Connected,
            ..s
        })
    } else {
        &&& !attempted_ok
        &&& t == (HapticManager {
            connection_state: ConnectionState::Cooldown,
            last_disconnect_ms: now,
            ..s
        })
    }
}

/// The system's core safety contract, at the point where frames are made:
/// whenever the scheduler queues a pulse frame, that frame addresses the
/// feature index the gated table resolved for the force-feedback feature -
/// an identifier the safety gate allows - so no queued transaction can ever
/// address a blocklisted feature.
pub proof fn lemma_queued_frames_respect_safety_gate(
    s: HapticManager,
    t: HapticManager,
    intensity: u8,
    duration_ms: u16,
    now: u64,
)
    requires
        s.wf(),
        pulse_effect(s, t, intensity, duration_ms, now),
        t.outbox@.len() > s.outbox@.len(),
    ensures
        ({
            let d = s.device->0;
            let idx = d.haptic_feature_index->0;
            &&& d.features.contains_id(features::FORCE_FEEDBACK)
            &&& !crate::blocklisted_features::spec_is_blocklisted(features::FORCE_FEEDBACK)
            &&& t.outbox@.last().feature_index == idx
            &&& idx != 0
        }),
{
    let d = s.device->0;
    d.features.lemma_maps_to_properties(features::FORCE_FEEDBACK, d.haptic_feature_index->0);
}

/// The manager state with the pulse debounce timer reset, as done between
/// the pulses of a multi-pulse pattern.
pub open spec fn spec_zeroed_debounce(s: HapticManager) -> HapticManager {
    HapticManager { last_pulse_ms: 0, ..s }
}

/// The exact effect of emitting an `n`-pulse pattern at time `now`: the
/// pulses fire in order, with the debounce timer reset before each pulse
/// after the first (the pattern's gap is explicit, not governed by the
/// debounce window).
pub open spec fn emit_pattern_effect(
    s: HapticManager,
    t: HapticManager,
    n: int,
    intensity: u8,
    duration_ms: u16,
    now: u64,
) -> bool
    decreases n,
{
    if n <= 1 {
        pulse_effect(s, t, intensity, duration_ms, now)
    } else {
        exists|mid: HapticManager|
            #[trigger] pulse_effect(s, mid, intensity, duration_ms, now) && emit_pattern_effect(
                spec_zeroed_debounce(mid),
                t,
                n - 1,
                intensity,
                duration_ms,
                now,
            )
    }
}

/// The global and per-event percentages multiplied: the final intensity of
/// an emitted event.
pub open spec fn spec_emit_scaled(s: HapticManager, event: HapticEvent) -> u8 {
    (((s.intensity_multiplier as int) * (spec_per_event(s.per_event, event) as int)) / 100) as u8
}

/// The exact effect of one `emit` call at time `now`: a no-op when haptics
/// are inactive or the scaled intensity is zero, else the event's pattern
/// of pulses at the scaled intensity and the event's base duration.
pub open spec fn emit_effect(s: HapticManager, t: HapticManager, event: HapticEvent, now: u64) -> bool {
    if !s.active() {
        t == s
    } else if spec_emit_scaled(s, event) == 0 {
        t == s
    } else {
        emit_pattern_effect(
            s,
            t,
            spec_pulse_count(spec_event_pattern(event)) as int,
            spec_emit_scaled(s, event),
            spec_event_duration(event),
            now,
        )
    }
}

/// What a pattern of pulses leaves in the outbox when nothing suppresses
/// it: with haptics active, a haptic-capable device connected, and the
/// debounce window already clear (of `now` both since the last pulse and in
/// absolute terms, as the timer is reset between pattern pulses), an
/// `n`-pulse pattern queues exactly `n` new frames, every one a pulse frame
/// against the device's haptic feature with the given intensity and
/// duration, leaves the frames already queued untouched, and moves the
/// debounce timestamp to `now`.
pub proof fn lemma_pattern_queues_frames(
    s: HapticManager,
    t: HapticManager,
    n: int,
    intensity: u8,
    duration_ms: u16,
    now: u64,
)
    requires
        s.wf(),
        s.active(),
        s.device_ready(),
        spec_elapsed(now, s.last_pulse_ms) >= s.debounce_ms,
        now >= s.debounce_ms,
        1 <= n,
        emit_pattern_effect(s, t, n, intensity, duration_ms, now),
    ensures
        t.outbox@.len() == s.outbox@.len() + n,
        t.outbox@.take(s.outbox@.len() as int) == s.outbox@,
        forall|i: int|
            s.outbox@.len() <= i < t.outbox@.len() ==> spec_pulse_frame(
                #[trigger] t.outbox@[i],
                (s.device->0).device_index,
                (s.device->0).haptic_feature_index->0,
                intensity,
                duration_ms,
            ),
        t.last_pulse_ms == now,
    decreases n,
{
    let d = s.device->0;
    if n <= 1 {
        assert(t.outbox@.take(s.outbox@.len() as int) =~= s.outbox@);
    } else {
        let mid = choose|mid: HapticManager|
            #[trigger] pulse_effect(s, mid, intensity, duration_ms, now) && emit_pattern_effect(
                spec_zeroed_debounce(mid),
                t,
                n - 1,
                intensity,
                duration_ms,
            now,
            );
        let z = spec_zeroed_debounce(mid);
        assert(mid.outbox@ == s.outbox@.push(mid.outbox@.last()));
        assert(z.wf() && z.active() && z.device_ready()) by {
            assert(mid.device == Some(DeviceProfile { sw_id: spec_next_sw(d.sw_id), ..d }));
        }
        assert(spec_elapsed(now, z.last_pulse_ms) >= z.debounce_ms);
        lemma_pattern_queues_frames(z, t, n - 1, intensity, duration_ms, now);
        assert(z.device->0 == (DeviceProfile { sw_id: spec_next_sw(d.sw_id), ..d }));
        assert(t.outbox@.take(s.outbox@.len() as int) =~= s.outbox@) by {
            assert(t.outbox@.take(z.outbox@.len() as int) == z.outbox@);
            assert forall|i: int| 0 <= i < s.outbox@.len() implies t.outbox@[i]
                == s.outbox@[i] by {
                assert(t.outbox@.take(z.outbox@.len() as int)[i] == z.outbox@[i]);
            }
        }
        assert forall|i: int|
            s.outbox@.len() <= i < t.outbox@.len() implies spec_pulse_frame(
            #[trigger] t.outbox@[i],
            d.device_index,
            d.haptic_feature_index->0,
            intensity,
            duration_ms,
        ) by {
            if i < z.outbox@.len() {
                assert(t.outbox@.take(z.outbox@.len() as int)[i] == z.outbox@[i]);
                assert(t.outbox@[i] == mid.outbox@.last());
            }
        }
    }
}

/// An emitted event, under the same clean conditions, queues exactly its
/// pattern's pulse count of frames, each carrying the two multiplied
/// percentages as intensity and the event's base duration.
pub proof fn lemma_emit_queues_pattern(s: HapticManager, t: HapticManager, event: HapticEvent, now: u64)
    requires
        s.wf(),
        s.active(),
        s.device_ready(),
        spec_emit_scaled(s, event) != 0,
        spec_elapsed(now, s.last_pulse_ms) >= s.debounce_ms,
        now >= s.debounce_ms,
        emit_effect(s, t, event, now),
    ensures
        t.outbox@.len() == s.outbox@.len() + spec_pulse_count(spec_event_pattern(event)),
        forall|i: int|
            s.outbox@.len() <= i < t.outbox@.len() ==> spec_pulse_frame(
                #[trigger] t.outbox@[i],
                (s.device->0).device_index,
                (s.device->0).haptic_feature_index->0,
                spec_emit_scaled(s, event),
                spec_event_duration(event),
            ),
{
    lemma_pattern_queues_frames(
        s,
        t,
        spec_pulse_count(spec_event_pattern(event)) as int,
        spec_emit_scaled(s, event),
        spec_event_duration(event),
        now,
    );
}

/// The exact effect of one `emit_slice_change` call at time `now`, with the
/// two debounce layers: re-entering the same slice within the re-entry
/// window emits nothing and changes nothing; a different slice within the
/// slice-debounce window updates the tracked slice but emits nothing; past
/// both windows the tracked slice and timestamp update and the slice-change
/// event is emitted.
pub open spec fn slice_change_effect(
    s: HapticManager,
    t: HapticManager,
    slice_index: u8,
    emitted: bool,
    now: u64,
) -> bool {
    if !s.active() {
        &&& !emitted
        &&& t == s
    } else {
        let elapsed = spec_elapsed(now, s.last_slice_change_ms);
        let reentry = s.last_slice_index matches Some(last) && last == slice_index && elapsed
            < s.reentry_debounce_ms;
        if reentry {
            &&& !emitted
            &&& t == s
        } else if elapsed < s.slice_debounce_ms {
            &&& !emitted
            &&& t == (HapticManager { last_slice_index: Some(slice_index), ..s })
        } else {
            &&& emitted
            &&& emit_effect(
                HapticManager {
                    last_slice_change_ms: now,
                    last_slice_index: Some(slice_index),
                    ..s
                },
                t,
                HapticEvent::SliceChange,
                now,
            )
        }
    }
}

/// Sending pulses touches only the outbox, the pulse-debounce timestamp,
/// and the device's rotating software id: the configuration, the connection
/// bookkeeping, and the slice tracking all survive a pattern.
pub proof fn lemma_pattern_preserves_settings(
    s: HapticManager,
    t: HapticManager,
    n: int,
    intensity: u8,
    duration_ms: u16,
    now: u64,
)
    requires
        emit_pattern_effect(s, t, n, intensity, duration_ms, now),
    ensures
        t.enabled == s.enabled,
        t.intensity_multiplier == s.intensity_multiplier,
        t.per_event == s.per_event,
        t.connection_state == s.connection_state,
        t.last_disconnect_ms == s.last_disconnect_ms,
        t.debounce_ms == s.debounce_ms,
        t.slice_debounce_ms == s.slice_debounce_ms,
        t.reentry_debounce_ms == s.reentry_debounce_ms,
        t.last_slice_change_ms == s.last_slice_change_ms,
        t.last_slice_index == s.last_slice_index,
        t.device is Some <==> s.device is Some,
    decreases n,
{
    if n <= 1 {
    } else {
        let mid = choose|mid: HapticManager|
            #[trigger] pulse_effect(s, mid, intensity, duration_ms, now) && emit_pattern_effect(
                spec_zeroed_debounce(mid),
                t,
                n - 1,
                intensity,
                duration_ms,
                now,
            );
        lemma_pattern_preserves_settings(
            spec_zeroed_debounce(mid),
            t,
            n - 1,
            intensity,
            duration_ms,
            now,
        );
    }
}

/// The same, through one `emit` of an event.
pub proof fn lemma_emit_preserves_settings(
    s: HapticManager,
    t: HapticManager,
    event: HapticEvent,
    now: u64,
)
    requires
        emit_effect(s, t, event, now),
    ensures
        t.enabled == s.enabled,
        t.intensity_multiplier == s.intensity_multiplier,
        t.per_event == s.per_event,
        t.connection_state == s.connection_state,
        t.last_disconnect_ms == s.last_disconnect_ms,
        t.debounce_ms == s.debounce_ms,
        t.slice_debounce_ms == s.slice_debounce_ms,
        t.reentry_debounce_ms == s.reentry_debounce_ms,
        t.last_slice_change_ms == s.last_slice_change_ms,
        t.last_slice_index == s.last_slice_index,
{
    if s.active() && spec_emit_scaled(s, event) != 0 {
        lemma_pattern_preserves_settings(
            s,
            t,
            spec_pulse_count(spec_event_pattern(event)) as int,
            spec_emit_scaled(s, event),
            spec_event_duration(event),
            now,
        );
    }
}

/// Re-entry suppression: when a slice change emitted at `t1`, re-entering
/// the same slice within the re-entry window emits nothing and changes
/// nothing.
pub proof fn lemma_slice_reentry_suppressed(
    s0: HapticManager,
    s1: HapticManager,
    s2: HapticManager,
    slice_index: u8,
    t1: u64,
    t2: u64,
    emitted_again: bool,
)
    requires
        s0.active(),
        slice_change_effect(s0, s1, slice_index, true, t1),
        slice_change_effect(s1, s2, slice_index, emitted_again, t2),
        spec_elapsed(t2, t1) < s0.reentry_debounce_ms,
    ensures
        !emitted_again,
        s2 == s1,
{
    let mid = HapticManager {
        last_slice_change_ms: t1,
        last_slice_index: Some(slice_index),
        ..s0
    };
    lemma_emit_preserves_settings(mid, s1, HapticEvent::SliceChange, t1);
}

/// Rapid-movement suppression: when a slice change emitted at `t1`, a
/// different slice entered before the slice-debounce window has elapsed
/// updates the tracked slice but emits nothing, so only the final slice in
/// a fast sweep gets a pulse.
pub proof fn lemma_slice_rapid_movement_suppressed(
    s0: HapticManager,
    s1: HapticManager,
    s2: HapticManager,
    first_slice: u8,
    second_slice: u8,
    t1: u64,
    t2: u64,
    emitted_again: bool,
)
    requires
        s0.active(),
        slice_change_effect(s0, s1, first_slice, true, t1),
        slice_change_effect(s1, s2, second_slice, emitted_again, t2),
        second_slice != first_slice,
        spec_elapsed(t2, t1) < s0.slice_debounce_ms,
    ensures
        !emitted_again,
        s2 == (HapticManager { last_slice_index: Some(second_slice), ..s1 }),
{
    let mid = HapticManager {
        last_slice_change_ms: t1,
        last_slice_index: Some(first_slice),
        ..s0
    };
    lemma_emit_preserves_settings(mid, s1, HapticEvent::SliceChange, t1);
}

/// After both windows have elapsed since an emitted slice change, the next
/// slice change emits again.
pub proof fn lemma_slice_emits_after_windows(
    s0: HapticManager,
    s1: HapticManager,
    s2: HapticManager,
    first_slice: u8,
    second_slice: u8,
    t1: u64,
    t2: u64,
    emitted_again: bool,
)
    requires
        s0.active(),
        slice_change_effect(s0, s1, first_slice, true, t1),
        slice_change_effect(s1, s2, second_slice, emitted_again, t2),
        spec_elapsed(t2, t1) >= s0.slice_debounce_ms,
        spec_elapsed(t2, t1) >= s0.reentry_debounce_ms,
    ensures
        emitted_again,
{
    let mid = HapticManager {
        last_slice_change_ms: t1,
        last_slice_index: Some(first_slice),
        ..s0
    };
    lemma_emit_preserves_settings(mid, s1, HapticEvent::SliceChange, t1);
}

impl HapticManager {
    /// Create a new haptic manager without a device connection. An
    /// intensity above 100 is clamped to 100.
    pub fn new(intensity: u8, enabled: bool) -> (r: Self)
        ensures
            r.wf(),
            r.device is None,
            r.intensity_multiplier == (if intensity <= 100 { intensity } else { 100u8 }),
            r.per_event.menu_appear == 20,
            r.per_event.slice_change == 40,
            r.per_event.confirm == 80,
            r.per_event.invalid == 30,
            r.enabled == enabled,
            r.last_pulse_ms == 0,
            r.connection_state == ConnectionState::NotConnected,
            r.last_disconnect_ms == 0,
            r.debounce_ms == DEFAULT_DEBOUNCE_MS,
            r.slice_debounce_ms == DEFAULT_SLICE_DEBOUNCE_MS,
            r.reentry_debounce_ms == DEFAULT_REENTRY_DEBOUNCE_MS,
            r.last_slice_change_ms == 0,
            r.last_slice_index is None,
            r.outbox@ =~= Seq::<HidppShortMessage>::empty(),
    {
        HapticManager {
            device: None,
            intensity_multiplier: if intensity <= 100 {
                intensity
            } else {
                100
            },
            per_event: PerEventIntensity::default(),
            enabled,
            last_pulse_ms: 0,
            connection_state: ConnectionState::NotConnected,
            last_disconnect_ms: 0,
            debounce_ms: DEFAULT_DEBOUNCE_MS,
            slice_debounce_ms: DEFAULT_SLICE_DEBOUNCE_MS,
            reentry_debounce_ms: DEFAULT_REENTRY_DEBOUNCE_MS,
            last_slice_change_ms: 0,
            last_slice_index: None,
            outbox: Vec::new(),
        }
    }

    /// Create a haptic manager from configuration. Every percentage is
    /// clamped to 100.
    pub fn from_config(config: &HapticConfig) -> (r: Self)
        ensures
            r.wf(),
            r.device is None,
            r.intensity_multiplier == (if config.intensity <= 100 { config.intensity } else { 100u8 }),
            r.per_event.menu_appear == (if config.per_event.menu_appear <= 100 { config.per_event.menu_appear } else { 100u8 }),
            r.per_event.slice_change == (if config.per_event.slice_change <= 100 { config.per_event.slice_change } else { 100u8 }),
            r.per_event.confirm == (if config.per_event.confirm <= 100 { config.per_event.confirm } else { 100u8 }),
            r.per_event.invalid == (if config.per_event.invalid <= 100 { config.per_event.invalid } else { 100u8 }),
            r.enabled == config.enabled,
            r.last_pulse_ms == 0,
            r.connection_state == ConnectionState::NotConnected,
            r.last_disconnect_ms == 0,
            r.debounce_ms == config.debounce_ms,
            r.slice_debounce_ms == config.slice_debounce_ms,
            r.reentry_debounce_ms == config.reentry_debounce_ms,
            r.last_slice_change_ms == 0,
            r.last_slice_index is None,
            r.outbox@ =~= Seq::<HidppShortMessage>::empty(),
    {
        let mut m = HapticManager::new(config.intensity, config.enabled);
        m.per_event = PerEventIntensity {
            menu_appear: clamp_percent(config.per_event.menu_appear),
            slice_change: clamp_percent(config.per_event.slice_change),
            confirm: clamp_percent(config.per_event.confirm),
            invalid: clamp_percent(config.per_event.invalid),
        };
        m.debounce_ms = config.debounce_ms;
        m.slice_debounce_ms = config.slice_debounce_ms;
        m.reentry_debounce_ms = config.reentry_debounce_ms;
        m
    }

    /// Update settings from configuration (hot-reload): the connection,
    /// outbox, and debounce timestamps are untouched.
    pub fn update_from_config(&mut self, config: &HapticConfig)
        requires
            old(self).wf(),
        ensures
            final(self).wf(),
            final(self).intensity_multiplier == (if config.intensity <= 100 { config.intensity } else { 100u8 }),
            final(self).per_event.menu_appear == (if config.per_event.menu_appear <= 100 { config.per_event.menu_appear } else { 100u8 }),
            final(self).per_event.slice_change == (if config.per_event.slice_change <= 100 { config.per_event.slice_change } else { 100u8 }),
            final(self).per_event.confirm == (if config.per_event.confirm <= 100 { config.per_event.confirm } else { 100u8 }),
            final(self).per_event.invalid == (if config.per_event.invalid <= 100 { config.per_event.invalid } else { 100u8 }),
            final(self).enabled == config.enabled,
            final(self).debounce_ms == config.debounce_ms,
            final(self).slice_debounce_ms == config.slice_debounce_ms,
            final(self).reentry_debounce_ms == config.reentry_debounce_ms,
            *final(self) == (HapticManager {
                intensity_multiplier: final(self).intensity_multiplier,
                per_event: final(self).per_event,
                enabled: config.enabled,
                debounce_ms: config.debounce_ms,
                slice_debounce_ms: config.slice_debounce_ms,
                reentry_debounce_ms: config.reentry_debounce_ms,
                ..*old(self)
            }),
    {
        self.intensity_multiplier = clamp_percent(config.intensity);
        self.per_event = PerEventIntensity {
            menu_appear: clamp_percent(config.per_event.menu_appear),
            slice_change: clamp_percent(config.per_event.slice_change),
            confirm: clamp_percent(config.per_event.confirm),
            invalid: clamp_percent(config.per_event.invalid),
        };
        self.enabled = config.enabled;
        self.debounce_ms = config.debounce_ms;
        self.slice_debounce_ms = config.slice_debounce_ms;
        self.reentry_debounce_ms = config.reentry_debounce_ms;
    }

    /// Install the outcome of a connection attempt. A discovered, validated
    /// device moves the state to Connected; finding none is not an error -
    /// haptics are optional - and leaves the state NotConnected.
    pub fn connect(&mut self, discovered: Option<DeviceProfile>) -> (r: Result<bool, HapticError>)
        requires
            old(self).wf(),
            discovered matches Some(d) ==> d.wf(),
        ensures
            final(self).wf(),
            discovered matches Some(d) ==> (r == Result::<bool, HapticError>::Ok(true)
                && *final(self) == (HapticManager {
                device: Some(d),
                connection_state: ConnectionState::Connected,
                ..*old(self)
            })),
            discovered is None ==> (r == Result::<bool, HapticError>::Ok(false) && *final(self)
                == (HapticManager {
                connection_state: ConnectionState::NotConnected,
                ..*old(self)
            })),
    {
        match discovered {
            Some(device) => {
                self.device = Some(device);
                self.connection_state = ConnectionState::Connected;
                Ok(true)
            },
            None => {
                self.connection_state = ConnectionState::NotConnected;
                Ok(false)
            },
        }
    }

    /// Record a device loss at time `now_ms`, as reported by the transport
    /// after an I/O failure: the handle and the state fall together, and the
    /// cooldown timer is armed.
    pub fn handle_disconnect_at(&mut self, now_ms: u64)
        requires
            old(self).wf(),
        ensures
            final(self).wf(),
            *final(self) == (HapticManager {
                device: None,
                connection_state: ConnectionState::Disconnected,
                last_disconnect_ms: now_ms,
                ..*old(self)
            }),
    {
        self.device = None;
        self.connection_state = ConnectionState::Disconnected;
        self.last_disconnect_ms = now_ms;
    }

    /// Record a device loss, stamped with the current time.
    pub fn handle_disconnect(&mut self)
        requires
            old(self).wf(),
        ensures
            final(self).wf(),
            final(self).device is None,
            final(self).connection_state == ConnectionState::Disconnected,
            *final(self) == (HapticManager {
                device: None,
                connection_state: ConnectionState::Disconnected,
                last_disconnect_ms: final(self).last_disconnect_ms,
                ..*old(self)
            }),
    {
        let now = clock::now_millis();
        self.handle_disconnect_at(now);
    }

    /// One opportunistic reconnection step at time `now_ms`, given what a
    /// discovery pass found (`None` when discovery was not run or found no
    /// device). The exact behavior is `reconnect_effect`.
    ///
    /// Unless the state is Disconnected or Cooldown, this only reports
    /// whether the connection is usable and makes no attempt. Before the
    /// cooldown interval has elapsed since the last disconnect it returns
    /// false, makes no attempt, and leaves the device untouched. Once the
    /// cooldown has elapsed it makes exactly one attempt: a discovered
    /// device connects; none found re-arms the cooldown.
    pub fn reconnect_if_needed_at(
        &mut self,
        now_ms: u64,
        discovered: Option<DeviceProfile>,
    ) -> (r: bool)
        requires
            old(self).wf(),
            discovered matches Some(d) ==> d.wf(),
        ensures
            final(self).wf(),
            reconnect_effect(*old(self), *final(self), discovered, r, now_ms),
    {
        if self.connection_state != ConnectionState::Disconnected && self.connection_state
            != ConnectionState::Cooldown {
            return self.connection_state == ConnectionState::Connected;
        }
        if elapsed_ms(now_ms, self.last_disconnect_ms) < RECONNECT_COOLDOWN_MS {
            self.connection_state = ConnectionState::Cooldown;
            return false;
        }
        match self.connect(discovered) {
            Ok(true) => true,
            _ => {
                self.connection_state = ConnectionState::Cooldown;
                self.last_disconnect_ms = now_ms;
                false
            },
        }
    }

    /// One opportunistic reconnection step, stamped with the current time.
    pub fn reconnect_if_needed(&mut self, discovered: Option<DeviceProfile>) -> (r: bool)
        requires
            old(self).wf(),
            discovered matches Some(d) ==> d.wf(),
        ensures
            final(self).wf(),
            exists|now: u64| reconnect_effect(*old(self), *final(self), discovered, r, now),
    {
        let now = clock::now_millis();
        self.reconnect_if_needed_at(now, discovered)
    }

    /// Get current connection state.
    pub fn connection_state(&self) -> (r: ConnectionState)
        ensures
            r == self.connection_state,
    {
        self.connection_state
    }

    /// Check if haptic feedback is available: a device is connected and
    /// supports haptics.
    pub fn is_available(&self) -> (r: bool)
        ensures
            r == self.device_ready(),
    {
        match &self.device {
            Some(d) => d.haptic_supported(),
            None => false,
        }
    }

    /// Queue a haptic pulse at time `now_ms` (runtime only, no memory
    /// writes). Succeeds silently when haptics are disabled, no
    /// haptic-capable device is connected, or the pulse falls inside the
    /// debounce window: haptics never fail their caller.
    pub fn pulse_at(&mut self, haptic: HapticPulse, now_ms: u64) -> (r: Result<(), HapticError>)
        requires
            old(self).wf(),
        ensures
            final(self).wf(),
            r is Ok,
            pulse_effect(*old(self), *final(self), haptic.intensity, haptic.duration_ms, now_ms),
    {
        if !self.enabled || self.intensity_multiplier == 0 {
            return Ok(());
        }
        let ready = match &self.device {
            Some(d) => d.haptic_feature_index.is_some(),
            None => false,
        };
        if !ready {
            return Ok(());
        }
        if elapsed_ms(now_ms, self.last_pulse_ms) < self.debounce_ms {
            return Ok(());
        }
        let msg = match &mut self.device {
            Some(d) => {
                let idx = match d.haptic_feature_index {
                    Some(i) => i,
                    None => 0,
                };
                let sw = d.next_sw_id();
                HidppShortMessage::new(d.device_index, idx, 0x00, sw).with_params(
                    [haptic.intensity, (haptic.duration_ms >> 8) as u8, (haptic.duration_ms
                        & 0xFF) as u8],
                )
            },
            None => {
                return Ok(());
            },
        };
        self.outbox.push(msg);
        self.last_pulse_ms = now_ms;
        proof {
            let s = *old(self);
            let t = *self;
            let d = s.device->0;
            let m = t.outbox@.last();
            assert(t.outbox@ == s.outbox@.push(m));
            assert(m.params@ =~= seq![
                haptic.intensity,
                (haptic.duration_ms >> 8) as u8,
                (haptic.duration_ms & 0xFF) as u8,
            ]);
            let x = d.sw_id;
            assert((0u8 << 4) | (x & 0x0F) == x & 0x0F && ((0u8 << 4) | (x & 0x0F)) >> 4 == 0)
                by (bit_vector);
            assert(spec_pulse_frame(
                m,
                d.device_index,
                d.haptic_feature_index->0,
                haptic.intensity,
                haptic.duration_ms,
            ));
            assert(t == (HapticManager {
                last_pulse_ms: now_ms,
                device: Some(DeviceProfile { sw_id: spec_next_sw(d.sw_id), ..d }),
                outbox: t.outbox,
                ..s
            }));
        }
        Ok(())
    }

    /// Queue a haptic pulse, stamped with the current time.
    pub fn pulse(&mut self, haptic: HapticPulse) -> (r: Result<(), HapticError>)
        requires
            old(self).wf(),
        ensures
            final(self).wf(),
            r is Ok,
            exists|now: u64|
                pulse_effect(*old(self), *final(self), haptic.intensity, haptic.duration_ms, now),
    {
        let now = clock::now_millis();
        self.pulse_at(haptic, now)
    }

    /// Emit a haptic event at time `now_ms` using the UX-defined profiles:
    /// the global multiplier and the per-event override multiply into the
    /// final intensity, and the event's pattern queues one, two, or three
    /// pulse frames (the transport spaces them by the pattern's gap).
    /// Succeeds silently whenever nothing is to be sent.
    pub fn emit_at(&mut self, event: HapticEvent, now_ms: u64) -> (r: Result<(), HapticError>)
        requires
            old(self).wf(),
        ensures
            final(self).wf(),
            r is Ok,
            emit_effect(*old(self), *final(self), event, now_ms),
    {
        if !self.enabled || self.intensity_multiplier == 0 {
            return Ok(());
        }
        let per_event_intensity = self.per_event.get(&event);
        let base_profile = event.base_profile();
        let pattern = event.pattern();
        let scaled_intensity = crate::scale_intensity(
            self.intensity_multiplier,
            per_event_intensity,
        );
        proof {
            assert(scaled_intensity == spec_emit_scaled(*old(self), event));
        }
        if scaled_intensity == 0 {
            return Ok(());
        }
        let pulse = HapticPulse {
            intensity: scaled_intensity,
            duration_ms: base_profile.duration_ms,
        };
        let ghost s0 = *old(self);
        let ghost dur = spec_event_duration(event);
        match pattern {
            HapticPattern::Single => {
                let _ = self.pulse_at(pulse, now_ms);
            },
            HapticPattern::Double => {
                let _ = self.pulse_at(pulse, now_ms);
                let ghost mid1 = *self;
                self.last_pulse_ms = 0;
                proof {
                    assert(*self == spec_zeroed_debounce(mid1));
                }
                let _ = self.pulse_at(pulse, now_ms);
                proof {
                    assert(pulse_effect(s0, mid1, scaled_intensity, dur, now_ms));
                    assert(emit_pattern_effect(
                        spec_zeroed_debounce(mid1),
                        *self,
                        1,
                        scaled_intensity,
                        dur,
                        now_ms,
                    ));
                    assert(emit_pattern_effect(s0, *self, 2, scaled_intensity, dur, now_ms));
                }
            },
            HapticPattern::Triple => {
                let _ = self.pulse_at(pulse, now_ms);
                let ghost mid1 = *self;
                self.last_pulse_ms = 0;
                proof {
                    assert(*self == spec_zeroed_debounce(mid1));
                }
                let _ = self.pulse_at(pulse, now_ms);
                let ghost mid2 = *self;
                self.last_pulse_ms = 0;
                proof {
                    assert(*self == spec_zeroed_debounce(mid2));
                }
                let _ = self.pulse_at(pulse, now_ms);
                proof {
                    assert(pulse_effect(s0, mid1, scaled_intensity, dur, now_ms));
                    assert(pulse_effect(spec_zeroed_debounce(mid1), mid2, scaled_intensity, dur, now_ms));
                    assert(emit_pattern_effect(
                        spec_zeroed_debounce(mid2),
                        *self,
                        1,
                        scaled_intensity,
                        dur,
                        now_ms,
                    ));
                    assert(emit_pattern_effect(
                        spec_zeroed_debounce(mid1),
                        *self,
                        2,
                        scaled_intensity,
                        dur,
                        now_ms,
                    ));
                    assert(emit_pattern_effect(s0, *self, 3, scaled_intensity, dur, now_ms));
                }
            },
        }
        Ok(())
    }

    /// Emit a haptic event, stamped with the current time.
    pub fn emit(&mut self, event: HapticEvent) -> (r: Result<(), HapticError>)
        requires
            old(self).wf(),
        ensures
            final(self).wf(),
            r is Ok,
            exists|now: u64| emit_effect(*old(self), *final(self), event, now),
    {
        let now = clock::now_millis();
        self.emit_at(event, now)
    }

    /// Emit a haptic event without blocking the caller on multi-pulse
    /// patterns: the pattern's frames are queued at once and the transport
    /// spaces them out, so no branch here ever sleeps.
    pub fn emit_async(&mut self, event: HapticEvent)
        requires
            old(self).wf(),
        ensures
            final(self).wf(),
            exists|now: u64| emit_effect(*old(self), *final(self), event, now),
    {
        if !self.enabled || self.intensity_multiplier == 0 {
            proof {
                assert(emit_effect(*old(self), *self, event, 0u64));
            }
            return ;
        }
        let _ = self.emit(event);
    }

    /// Emit a slice-change haptic at time `now_ms` with the two-layer
    /// debounce; returns whether a pulse was actually emitted (rather than
    /// suppressed).
    pub fn emit_slice_change_at(&mut self, slice_index: u8, now_ms: u64) -> (r: bool)
        requires
            old(self).wf(),
        ensures
            final(self).wf(),
            slice_change_effect(*old(self), *final(self), slice_index, r, now_ms),
    {
        if !self.enabled || self.intensity_multiplier == 0 {
            return false;
        }
        let elapsed_since_last_slice = elapsed_ms(now_ms, self.last_slice_change_ms);
        match self.last_slice_index {
            Some(last_slice) => {
                if last_slice == slice_index && elapsed_since_last_slice
                    < self.reentry_debounce_ms {
                    return false;
                }
            },
            None => {},
        }
        if elapsed_since_last_slice < self.slice_debounce_ms {
            self.last_slice_index = Some(slice_index);
            return false;
        }
        self.last_slice_change_ms = now_ms;
        self.last_slice_index = Some(slice_index);
        let _ = self.emit_at(HapticEvent::SliceChange, now_ms);
        true
    }

    /// Emit a slice-change haptic, stamped with the current time.
    pub fn emit_slice_change(&mut self, slice_index: u8) -> (r: bool)
        requires
            old(self).wf(),
        ensures
            final(self).wf(),
            exists|now: u64|
                slice_change_effect(*old(self), *final(self), slice_index, r, now),
    {
        let now = clock::now_millis();
        self.emit_slice_change_at(slice_index, now)
    }

    /// Reset slice tracking state, for when the menu is dismissed or a new
    /// menu appears.
    pub fn reset_slice_tracking(&mut self)
        requires
            old(self).wf(),
        ensures
            final(self).wf(),
            *final(self) == (HapticManager {
                last_slice_index: None,
                last_slice_change_ms: 0,
                ..*old(self)
            }),
    {
        self.last_slice_index = None;
        self.last_slice_change_ms = 0;
    }

    /// Hand the queued frames to the transport layer, oldest first,
    /// leaving the outbox empty.
    pub fn take_outbox(&mut self) -> (r: Vec<HidppShortMessage>)
        requires
            old(self).wf(),
        ensures
            final(self).wf(),
            r@ == old(self).outbox@,
            *final(self) == (HapticManager { outbox: final(self).outbox, ..*old(self) }),
            final(self).outbox@ =~= Seq::<HidppShortMessage>::empty(),
    {
        let mut out: Vec<HidppShortMessage> = Vec::new();
        core::mem::swap(&mut out, &mut self.outbox);
        out
    }

    /// Get the current slice debounce time in milliseconds.
    pub fn slice_debounce_ms(&self) -> (r: u64)
        ensures
            r == self.slice_debounce_ms,
    {
        self.slice_debounce_ms
    }

    /// Get the current re-entry debounce time in milliseconds.
    pub fn reentry_debounce_ms(&self) -> (r: u64)
        ensures
            r == self.reentry_debounce_ms,
    {
        self.reentry_debounce_ms
    }

    /// Set slice debounce time in milliseconds.
    pub fn set_slice_debounce_ms(&mut self, ms: u64)
        requires
            old(self).wf(),
        ensures
            final(self).wf(),
            *final(self) == (HapticManager { slice_debounce_ms: ms, ..*old(self) }),
    {
        self.slice_debounce_ms = ms;
    }

    /// Set re-entry debounce time in milliseconds.
    pub fn set_reentry_debounce_ms(&mut self, ms: u64)
        requires
            old(self).wf(),
        ensures
            final(self).wf(),
            *final(self) == (HapticManager { reentry_debounce_ms: ms, ..*old(self) }),
    {
        self.reentry_debounce_ms = ms;
    }

    /// Set haptics enabled/disabled.
    pub fn set_enabled(&mut self, enabled: bool)
        requires
            old(self).wf(),
        ensures
            final(self).wf(),
            *final(self) == (HapticManager { enabled, ..*old(self) }),
    {
        self.enabled = enabled;
    }

    /// Set the global intensity multiplier (0-100; clamped).
    pub fn set_intensity(&mut self, intensity: u8)
        requires
            old(self).wf(),
        ensures
            final(self).wf(),
            *final(self) == (HapticManager {
                intensity_multiplier: (if intensity <= 100 { intensity } else { 100u8 }),
                ..*old(self)
            }),
    {
        self.intensity_multiplier = clamp_percent(intensity);
    }

    /// Set the minimum time between pulses in milliseconds.
    pub fn set_debounce_ms(&mut self, ms: u64)
        requires
            old(self).wf(),
        ensures
            final(self).wf(),
            *final(self) == (HapticManager { debounce_ms: ms, ..*old(self) }),
    {
        self.debounce_ms = ms;
    }

    /// Get the current intensity multiplier.
    pub fn intensity(&self) -> (r: u8)
        ensures
            r == self.intensity_multiplier,
    {
        self.intensity_multiplier
    }

    /// Check if haptics are enabled.
    pub fn is_enabled(&self) -> (r: bool)
        ensures
            r == self.enabled,
    {
        self.enabled
    }
}

impl Default for HapticManager {
    fn default() -> (r: Self)
        ensures
            r.wf(),
            r.device is None,
            r.intensity_multiplier == 50,
            r.enabled,
            r.connection_state == ConnectionState::NotConnected,
    {
        HapticManager::new(50, true)
    }
}

/// Clamp a percentage to 100.
pub fn clamp_percent(v: u8) -> (r: u8)
    ensures
        r == (if v <= 100 { v } else { 100u8 }),
        r <= 100,
{
    if v <= 100 {
        v
    } else {
        100
    }
}

} // verus!
