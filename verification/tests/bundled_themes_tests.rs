use juhradial::bundled_themes::{
    get_bundled_theme_info, is_bundled_theme, list_bundled_themes, DEFAULT_THEME_NAME,
};

#[test]
fn test_list_bundled_themes() {
    let themes = list_bundled_themes();
    assert_eq!(themes.len(), 3);
    assert!(themes.iter().any(|t| t == "catppuccin-mocha"));
    assert!(themes.iter().any(|t| t == "vaporwave"));
    assert!(themes.iter().any(|t| t == "matrix-rain"));
}

#[test]
fn test_is_bundled_theme() {
    assert!(is_bundled_theme("catppuccin-mocha"));
    assert!(is_bundled_theme("vaporwave"));
    assert!(is_bundled_theme("matrix-rain"));
    assert!(is_bundled_theme("catppuccin mocha")); // alias
    assert!(!is_bundled_theme("nonexistent"));
}

#[test]
fn test_bundled_theme_info() {
    let info = get_bundled_theme_info("catppuccin-mocha");
    assert!(info.is_some());
    let info = info.unwrap();
    assert!(info.is_default);
    assert!(info.description.contains("pastel"));
    assert_eq!(info.display_name, "Catppuccin Mocha");

    let vaporwave_info = get_bundled_theme_info("vaporwave").unwrap();
    assert!(!vaporwave_info.is_default);
    assert!(vaporwave_info.description.contains("80s"));
}

#[test]
fn test_case_insensitive_lookup() {
    // Dashed names
    assert!(is_bundled_theme("catppuccin-mocha"));
    assert!(is_bundled_theme("CATPPUCCIN-MOCHA"));
    assert!(is_bundled_theme("Catppuccin-Mocha"));

    // Space names (aliases)
    assert!(is_bundled_theme("catppuccin mocha"));
    assert!(is_bundled_theme("matrix rain"));

    // Underscore names (aliases)
    assert!(is_bundled_theme("catppuccin_mocha"));
    assert!(is_bundled_theme("matrix_rain"));

    assert!(is_bundled_theme("VAPORWAVE"));

    assert!(get_bundled_theme_info("MATRIX-RAIN").is_some());
    assert!(get_bundled_theme_info("nonexistent").is_none());
}

#[test]
fn test_default_theme_name() {
    assert_eq!(DEFAULT_THEME_NAME, "catppuccin-mocha");
    assert!(is_bundled_theme(DEFAULT_THEME_NAME));
    assert!(get_bundled_theme_info(DEFAULT_THEME_NAME).unwrap().is_default);
}

#[test]
fn test_invalid_theme_names() {
    assert!(!is_bundled_theme("nonexistent"));
    assert!(!is_bundled_theme(""));
    assert!(!is_bundled_theme("catppuccin latte"));
}
