//! Bundled themes: the built-in palettes that are always available,
//! regardless of filesystem state.
//!
//! The theme JSON itself is parsed outside the library; the name lookup
//! rules (case-insensitive, with spaces and underscores treated as dashes)
//! and the bundled metadata live here.

use vstd::prelude::*;
use crate::text::{matches_lower, matches_normalized, spec_lower_str, spec_normalized};
use vstd::string::StringExecFns;

verus! {

/// Name of the default bundled theme
pub const DEFAULT_THEME_NAME: &'static str = "catppuccin-mocha";

/// Information about a bundled theme
#[derive(Debug, Clone)]
pub struct BundledThemeInfo {
    /// Theme name (matches the theme's own "name" field)
    pub name: String,
    /// Display name (human readable)
    pub display_name: String,
    /// Short description
    pub description: String,
    /// Whether this is the default theme
    pub is_default: bool,
}

/// Whether a name, normalized (lowercased, separators unified to dashes),
/// names a bundled theme.
pub open spec fn spec_is_bundled(name: Seq<char>) -> bool {
    ||| spec_normalized(name) == "catppuccin-mocha"@
    ||| spec_normalized(name) == "vaporwave"@
    ||| spec_normalized(name) == "matrix-rain"@
}

/// List all bundled theme names.
pub fn list_bundled_themes() -> (r: Vec<String>)
    ensures
        r@.len() == 3,
        r@[0]@ == "catppuccin-mocha"@,
        r@[1]@ == "vaporwave"@,
        r@[2]@ == "matrix-rain"@,
{
    let mut v: Vec<String> = Vec::new();
    v.push(String::from_str("catppuccin-mocha"));
    v.push(String::from_str("vaporwave"));
    v.push(String::from_str("matrix-rain"));
    v
}

/// Check if a theme name matches a bundled theme. The match is
/// case-insensitive and accepts spaces or underscores for the dashes.
pub fn is_bundled_theme(name: &str) -> (r: bool)
    ensures
        r == spec_is_bundled(name@),
{
    matches_normalized(name, "catppuccin-mocha") || matches_normalized(name, "vaporwave")
        || matches_normalized(name, "matrix-rain")
}

/// Get bundled theme info by name; the lookup is case-insensitive.
pub fn get_bundled_theme_info(name: &str) -> (r: Option<BundledThemeInfo>)
    ensures
        spec_lower_str(name@) == "catppuccin-mocha"@ ==> (r matches Some(i) && i.name@
            == "catppuccin-mocha"@ && i.display_name@ == "Catppuccin Mocha"@ && i.description@
            == "Warm pastel dark theme with lavender accent"@ && i.is_default),
        spec_lower_str(name@) == "vaporwave"@ ==> (r matches Some(i) && i.name@ == "vaporwave"@
            && i.display_name@ == "Vaporwave"@ && i.description@
            == "80s neon aesthetic with magenta and cyan"@ && !i.is_default),
        spec_lower_str(name@) == "matrix-rain"@ ==> (r matches Some(i) && i.name@
            == "matrix-rain"@ && i.display_name@ == "Matrix Rain"@ && i.description@
            == "Monochrome green hacker aesthetic"@ && !i.is_default),
        spec_lower_str(name@) != "catppuccin-mocha"@ && spec_lower_str(name@) != "vaporwave"@
            && spec_lower_str(name@) != "matrix-rain"@ ==> r is None,
{
    proof {
        reveal_strlit("catppuccin-mocha");
        reveal_strlit("vaporwave");
        reveal_strlit("matrix-rain");
    }
    if matches_lower(name, "catppuccin-mocha") {
        Some(
            BundledThemeInfo {
                name: String::from_str("catppuccin-mocha"),
                display_name: String::from_str("Catppuccin Mocha"),
                description: String::from_str("Warm pastel dark theme with lavender accent"),
                is_default: true,
            },
        )
    } else if matches_lower(name, "vaporwave") {
        Some(
            BundledThemeInfo {
                name: String::from_str("vaporwave"),
                display_name: String::from_str("Vaporwave"),
                description: String::from_str("80s neon aesthetic with magenta and cyan"),
                is_default: false,
            },
        )
    } else if matches_lower(name, "matrix-rain") {
        Some(
            BundledThemeInfo {
                name: String::from_str("matrix-rain"),
                display_name: String::from_str("Matrix Rain"),
                description: String::from_str("Monochrome green hacker aesthetic"),
                is_default: false,
            },
        )
    } else {
        None
    }
}

} // verus!
