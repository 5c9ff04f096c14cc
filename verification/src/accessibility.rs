//! Accessibility preferences: reduced motion and high contrast.
//!
//! A user override, when set, wins over the detected system preference;
//! with no override the system preference is followed. Detection itself
//! (environment, desktop services) happens outside the library and arrives
//! through the `set_system_*` setters.

use vstd::prelude::*;

verus! {

/// Accessibility settings for the application
#[derive(Debug, Clone)]
pub struct AccessibilitySettings {
    /// User override for reduced motion (None = follow system)
    pub reduced_motion_override: Option<bool>,
    /// Detected system preference for reduced motion
    pub system_prefers_reduced_motion: bool,
    /// User override for high contrast (None = follow system)
    pub high_contrast_override: Option<bool>,
    /// Detected system preference for high contrast
    pub system_prefers_high_contrast: bool,
}

/// The effective value of a preference: the override when set, else the
/// system preference.
pub open spec fn spec_effective(user_override: Option<bool>, system: bool) -> bool {
    match user_override {
        Some(v) => v,
        None => system,
    }
}

impl Default for AccessibilitySettings {
    fn default() -> (r: Self)
        ensures
            r.reduced_motion_override is None,
            !r.system_prefers_reduced_motion,
            r.high_contrast_override is None,
            !r.system_prefers_high_contrast,
    {
        AccessibilitySettings {
            reduced_motion_override: None,
            system_prefers_reduced_motion: false,
            high_contrast_override: None,
            system_prefers_high_contrast: false,
        }
    }
}

impl AccessibilitySettings {
    /// Create new accessibility settings with no overrides and no detected
    /// preferences; system detection reports in through the setters.
    pub fn new() -> (r: Self)
        ensures
            r.reduced_motion_override is None,
            !r.system_prefers_reduced_motion,
            r.high_contrast_override is None,
            !r.system_prefers_high_contrast,
    {
        AccessibilitySettings::default()
    }

    /// Check if reduced motion should be active: the user override wins;
    /// with none set, the system preference is followed.
    pub fn should_reduce_motion(&self) -> (r: bool)
        ensures
            r == spec_effective(
                self.reduced_motion_override,
                self.system_prefers_reduced_motion,
            ),
    {
        match self.reduced_motion_override {
            Some(v) => v,
            None => self.system_prefers_reduced_motion,
        }
    }

    /// Check if high contrast should be active, by the same rule.
    pub fn should_use_high_contrast(&self) -> (r: bool)
        ensures
            r == spec_effective(self.high_contrast_override, self.system_prefers_high_contrast),
    {
        match self.high_contrast_override {
            Some(v) => v,
            None => self.system_prefers_high_contrast,
        }
    }

    /// Set the user override for reduced motion.
    pub fn set_reduced_motion(&mut self, value: Option<bool>)
        ensures
            *final(self) == (AccessibilitySettings {
                reduced_motion_override: value,
                ..*old(self)
            }),
    {
        self.reduced_motion_override = value;
    }

    /// Set the user override for high contrast.
    pub fn set_high_contrast(&mut self, value: Option<bool>)
        ensures
            *final(self) == (AccessibilitySettings {
                high_contrast_override: value,
                ..*old(self)
            }),
    {
        self.high_contrast_override = value;
    }

    /// Get the system's detected reduced motion preference.
    pub fn system_prefers_reduced_motion(&self) -> (r: bool)
        ensures
            r == self.system_prefers_reduced_motion,
    {
        self.system_prefers_reduced_motion
    }

    /// Get the system's detected high contrast preference.
    pub fn system_prefers_high_contrast(&self) -> (r: bool)
        ensures
            r == self.system_prefers_high_contrast,
    {
        self.system_prefers_high_contrast
    }

    /// Record the detected system reduced-motion preference.
    pub fn set_system_reduced_motion(&mut self, value: bool)
        ensures
            *final(self) == (AccessibilitySettings {
                system_prefers_reduced_motion: value,
                ..*old(self)
            }),
    {
        self.system_prefers_reduced_motion = value;
    }

    /// Record the detected system high-contrast preference.
    pub fn set_system_high_contrast(&mut self, value: bool)
        ensures
            *final(self) == (AccessibilitySettings {
                system_prefers_high_contrast: value,
                ..*old(self)
            }),
    {
        self.system_prefers_high_contrast = value;
    }
}

/// Animation timings with reduced motion support
#[derive(Debug, Clone, Copy)]
pub struct EffectiveAnimationTimings {
    /// Menu appear duration (ms)
    pub appear_ms: u16,
    /// Menu dismiss duration (ms)
    pub dismiss_ms: u16,
    /// Slice highlight in duration (ms)
    pub highlight_in_ms: u16,
    /// Slice highlight out duration (ms)
    pub highlight_out_ms: u16,
    /// Icon scale animation enabled
    pub icon_scale_enabled: bool,
    /// Idle effects enabled
    pub idle_effects_enabled: bool,
}

impl EffectiveAnimationTimings {
    /// Timings for reduced motion mode: no animation time at all, every
    /// effect disabled.
    pub fn reduced_motion() -> (r: Self)
        ensures
            r.appear_ms == 0,
            r.dismiss_ms == 0,
            r.highlight_in_ms == 0,
            r.highlight_out_ms == 0,
            !r.icon_scale_enabled,
            !r.idle_effects_enabled,
    {
        EffectiveAnimationTimings {
            appear_ms: 0,
            dismiss_ms: 0,
            highlight_in_ms: 0,
            highlight_out_ms: 0,
            icon_scale_enabled: false,
            idle_effects_enabled: false,
        }
    }

    /// The default timings from the UX specification.
    pub fn default_timings() -> (r: Self)
        ensures
            r.appear_ms == 30,
            r.dismiss_ms == 50,
            r.highlight_in_ms == 80,
            r.highlight_out_ms == 60,
            r.icon_scale_enabled,
            r.idle_effects_enabled,
    {
        EffectiveAnimationTimings {
            appear_ms: 30,
            dismiss_ms: 50,
            highlight_in_ms: 80,
            highlight_out_ms: 60,
            icon_scale_enabled: true,
            idle_effects_enabled: true,
        }
    }
}

impl Default for EffectiveAnimationTimings {
    fn default() -> (r: Self)
        ensures
            r.appear_ms == 30,
            r.dismiss_ms == 50,
            r.highlight_in_ms == 80,
            r.highlight_out_ms == 60,
            r.icon_scale_enabled,
            r.idle_effects_enabled,
    {
        EffectiveAnimationTimings::default_timings()
    }
}

} // verus!
