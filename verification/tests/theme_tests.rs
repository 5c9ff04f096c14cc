use juhradial::theme::{
    effective_colors, get_effective_animation_timings, get_system_themes_dir,
    idle_effects_enabled, is_valid_hex_color, ThemeColors, ValidationResult,
};

fn catppuccin_colors() -> ThemeColors {
    ThemeColors {
        base: "#1e1e2e".to_string(),
        surface: "#313244".to_string(),
        text: "#cdd6f4".to_string(),
        text_secondary: "#bac2de".to_string(),
        accent: "#b4befe".to_string(),
        accent_secondary: "#89b4fa".to_string(),
        border: "#585b70".to_string(),
        shadow: "#11111b".to_string(),
        success: "#a6e3a1".to_string(),
        warning: "#fab387".to_string(),
        error: "#f38ba8".to_string(),
    }
}

#[test]
fn test_effective_timings_with_reduced_motion() {
    // With reduced motion ON
    let timings = get_effective_animation_timings(true, false);
    assert_eq!(timings.appear_ms, 0);
    assert_eq!(timings.dismiss_ms, 0);
    assert_eq!(timings.highlight_in_ms, 0);
    assert_eq!(timings.highlight_out_ms, 0);
    assert!(!timings.icon_scale_enabled);
    assert!(!timings.idle_effects_enabled);
}

#[test]
fn test_effective_timings_without_reduced_motion() {
    // With reduced motion OFF
    let timings = get_effective_animation_timings(false, false);
    assert_eq!(timings.appear_ms, 30);
    assert_eq!(timings.dismiss_ms, 50);
    assert_eq!(timings.highlight_in_ms, 80);
    assert_eq!(timings.highlight_out_ms, 60);
    assert!(timings.icon_scale_enabled);
}

#[test]
fn test_idle_effects_from_theme() {
    // The default theme has no idle effects
    assert!(!idle_effects_enabled("none", false));

    // Enable particles
    assert!(idle_effects_enabled("none", true));

    // Name an idle effect
    assert!(idle_effects_enabled("matrix-rain", false));
}

#[test]
fn test_high_contrast_colors() {
    let theme_colors = catppuccin_colors();

    // Without high contrast
    let colors = effective_colors(&theme_colors, false);
    assert_eq!(colors.text, "#cdd6f4"); // The theme's original color

    // With high contrast
    let hc_colors = effective_colors(&theme_colors, true);
    assert_eq!(hc_colors.text, "#ffffff"); // Overridden to white
    assert_eq!(hc_colors.text_secondary, "#ffffff"); // Also white
    assert_eq!(hc_colors.base, "#1e1e2e"); // The palette itself is kept
    assert_eq!(hc_colors.accent, "#b4befe");
}

#[test]
fn test_hex_color_validation() {
    // Valid colors
    assert!(is_valid_hex_color("#1e1e2e"));
    assert!(is_valid_hex_color("#FFF"));
    assert!(is_valid_hex_color("#abc123"));

    // Invalid colors
    assert!(!is_valid_hex_color("1e1e2e")); // No #
    assert!(!is_valid_hex_color("#1e1e2")); // Wrong length
    assert!(!is_valid_hex_color("#GGGGGG")); // Invalid chars
    assert!(!is_valid_hex_color("")); // Empty
}

#[test]
fn test_validation_result_tracks_errors() {
    let mut result = ValidationResult::new();
    assert!(result.is_valid());
    assert!(!result.has_errors());

    result.add_warning("background opacity clamped".to_string());
    assert!(result.is_valid());
    assert!(!result.has_errors());

    result.add_error("invalid hex color".to_string());
    assert!(result.has_errors());
    assert!(!result.is_valid());
    assert_eq!(result.warnings.len(), 1);
    assert_eq!(result.errors.len(), 1);
}

#[test]
fn test_system_themes_dir() {
    let dir = get_system_themes_dir();
    assert!(dir.contains("juhradial"));
    assert_eq!(dir, "/usr/share/juhradial/themes");
}
