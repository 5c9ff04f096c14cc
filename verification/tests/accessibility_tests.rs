use juhradial::accessibility::{AccessibilitySettings, EffectiveAnimationTimings};

// Animation timing override
#[test]
fn test_reduced_motion_timings() {
    let timings = EffectiveAnimationTimings::reduced_motion();

    assert_eq!(timings.appear_ms, 0);
    assert_eq!(timings.dismiss_ms, 0);
    assert_eq!(timings.highlight_in_ms, 0);
    assert_eq!(timings.highlight_out_ms, 0);
    assert!(!timings.icon_scale_enabled);
    assert!(!timings.idle_effects_enabled);
}

#[test]
fn test_default_timings() {
    let timings = EffectiveAnimationTimings::default_timings();

    assert_eq!(timings.appear_ms, 30);
    assert_eq!(timings.dismiss_ms, 50);
    assert_eq!(timings.highlight_in_ms, 80);
    assert_eq!(timings.highlight_out_ms, 60);
    assert!(timings.icon_scale_enabled);
    assert!(timings.idle_effects_enabled);
}

// User setting overrides system
#[test]
fn test_user_override_reduced_motion() {
    let mut settings = AccessibilitySettings::default();

    // System says no reduced motion
    settings.set_system_reduced_motion(false);
    assert!(!settings.should_reduce_motion());

    // User forces reduced motion ON
    settings.set_reduced_motion(Some(true));
    assert!(settings.should_reduce_motion());

    // User forces reduced motion OFF
    settings.set_reduced_motion(Some(false));
    assert!(!settings.should_reduce_motion());

    // System says reduced motion, but user forces OFF
    settings.set_system_reduced_motion(true);
    settings.set_reduced_motion(Some(false));
    assert!(!settings.should_reduce_motion());
}

// None follows the system default
#[test]
fn test_none_follows_system() {
    let mut settings = AccessibilitySettings::default();

    // No override, system false
    settings.set_reduced_motion(None);
    settings.set_system_reduced_motion(false);
    assert!(!settings.should_reduce_motion());

    // No override, system true
    settings.set_system_reduced_motion(true);
    assert!(settings.should_reduce_motion());
}

#[test]
fn test_high_contrast_override() {
    let mut settings = AccessibilitySettings::default();

    settings.set_system_high_contrast(false);
    assert!(!settings.should_use_high_contrast());

    settings.set_high_contrast(Some(true));
    assert!(settings.should_use_high_contrast());

    settings.set_high_contrast(None);
    settings.set_system_high_contrast(true);
    assert!(settings.should_use_high_contrast());
}

#[test]
fn test_default_settings() {
    let settings = AccessibilitySettings::default();

    assert!(settings.reduced_motion_override.is_none());
    assert!(settings.high_contrast_override.is_none());
    assert!(!settings.system_prefers_reduced_motion);
    assert!(!settings.system_prefers_high_contrast);
}
