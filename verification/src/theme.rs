//! Theme data carried through the core: color palettes as hex strings,
//! override hooks, and validation bookkeeping.
//!
//! Theme files themselves are parsed and loaded outside the library; the
//! checks that decide whether a value is acceptable live here.

use vstd::prelude::*;
use crate::text::{is_hex_digit, spec_is_hex_digit};
use vstd::string::StrSliceExecFns;
use vstd::string::StringExecFns;

verus! {

/// Theme color palette, each color a `#RRGGBB` hex string.
#[derive(Debug, Clone)]
pub struct ThemeColors {
    /// Background color
    pub base: String,
    /// Surface color for slices
    pub surface: String,
    /// Primary text color
    pub text: String,
    /// Secondary text color
    pub text_secondary: String,
    /// Primary accent color
    pub accent: String,
    /// Secondary accent color
    pub accent_secondary: String,
    /// Border color
    pub border: String,
    /// Shadow color
    pub shadow: String,
    /// Success state color
    pub success: String,
    /// Warning state color
    pub warning: String,
    /// Error state color
    pub error: String,
}

/// Theme overrides for custom configurations
#[derive(Debug, Clone)]
pub struct ThemeOverrides {
    /// Custom per-slice colors (optional)
    pub slice_colors: Option<Vec<String>>,
    /// Custom font family (optional)
    pub custom_font: Option<String>,
}

impl Default for ThemeOverrides {
    fn default() -> (r: Self)
        ensures
            r.slice_colors is None,
            r.custom_font is None,
    {
        ThemeOverrides { slice_colors: None, custom_font: None }
    }
}

/// Effective colors after applying accessibility adjustments
#[derive(Debug, Clone)]
pub struct EffectiveColors {
    pub base: String,
    pub surface: String,
    pub text: String,
    pub text_secondary: String,
    pub accent: String,
    pub accent_secondary: String,
    pub border: String,
    pub shadow: String,
    pub success: String,
    pub warning: String,
    pub error: String,
}

/// A valid hex color: a leading `#`, then exactly 3 or 6 hexadecimal
/// digits.
pub open spec fn spec_is_valid_hex_color(s: Seq<char>) -> bool {
    &&& s.len() == 4 || s.len() == 7
    &&& s[0] == '#'
    &&& forall|i: int| 1 <= i < s.len() ==> spec_is_hex_digit(#[trigger] s[i])
}

/// Check if a string is a valid hex color (`#RGB` or `#RRGGBB`).
pub fn is_valid_hex_color(color: &str) -> (r: bool)
    ensures
        r == spec_is_valid_hex_color(color@),
{
    let n = color.unicode_len();
    if n != 4 && n != 7 {
        return false;
    }
    if color.get_char(0) != '#' {
        return false;
    }
    let mut i: usize = 1;
    while i < n
        invariant
            n == color@.len(),
            1 <= i <= n,
            forall|j: int| 1 <= j < i ==> spec_is_hex_digit(#[trigger] color@[j]),
        decreases n - i,
    {
        if !is_hex_digit(color.get_char(i)) {
            return false;
        }
        i += 1;
    }
    true
}

/// Validation result with warnings and errors
#[derive(Debug, Clone)]
pub struct ValidationResult {
    /// Non-fatal warnings (values were clamped)
    pub warnings: Vec<String>,
    /// Fatal errors (theme cannot be used)
    pub errors: Vec<String>,
}

impl Default for ValidationResult {
    fn default() -> (r: Self)
        ensures
            r.warnings@ =~= Seq::<String>::empty(),
            r.errors@ =~= Seq::<String>::empty(),
    {
        ValidationResult { warnings: Vec::new(), errors: Vec::new() }
    }
}

impl ValidationResult {
    /// A fresh result with nothing recorded.
    pub fn new() -> (r: Self)
        ensures
            r.warnings@ =~= Seq::<String>::empty(),
            r.errors@ =~= Seq::<String>::empty(),
    {
        ValidationResult::default()
    }

    /// Record a non-fatal warning.
    pub fn add_warning(&mut self, msg: String)
        ensures
            final(self).warnings@ == old(self).warnings@.push(msg),
            final(self).errors@ == old(self).errors@,
    {
        self.warnings.push(msg);
    }

    /// Record a fatal error.
    pub fn add_error(&mut self, msg: String)
        ensures
            final(self).errors@ == old(self).errors@.push(msg),
            final(self).warnings@ == old(self).warnings@,
    {
        self.errors.push(msg);
    }

    /// Whether any fatal error was recorded.
    pub fn has_errors(&self) -> (r: bool)
        ensures
            r == (self.errors@.len() > 0),
    {
        self.errors.len() > 0
    }

    /// Whether the theme is usable: no fatal error was recorded.
    pub fn is_valid(&self) -> (r: bool)
        ensures
            r == (self.errors@.len() == 0),
    {
        self.errors.len() == 0
    }
}

/// Get the system themes directory path.
pub fn get_system_themes_dir() -> (r: String)
    ensures
        r@ == "/usr/share/juhradial/themes"@,
{
    String::from_str("/usr/share/juhradial/themes")
}

/// The effective colors under the accessibility setting: with high contrast
/// active, both text colors are overridden to pure white for maximum
/// visibility; everything else is the theme's own palette.
pub fn effective_colors(colors: &ThemeColors, high_contrast: bool) -> (r: EffectiveColors)
    ensures
        r.base@ == colors.base@,
        r.surface@ == colors.surface@,
        high_contrast ==> r.text@ == "#ffffff"@ && r.text_secondary@ == "#ffffff"@,
        !high_contrast ==> r.text@ == colors.text@ && r.text_secondary@
            == colors.text_secondary@,
        r.accent@ == colors.accent@,
        r.accent_secondary@ == colors.accent_secondary@,
        r.border@ == colors.border@,
        r.shadow@ == colors.shadow@,
        r.success@ == colors.success@,
        r.warning@ == colors.warning@,
        r.error@ == colors.error@,
{
    let (text, text_secondary) = if high_contrast {
        (String::from_str("#ffffff"), String::from_str("#ffffff"))
    } else {
        (colors.text.clone(), colors.text_secondary.clone())
    };
    EffectiveColors {
        base: colors.base.clone(),
        surface: colors.surface.clone(),
        text,
        text_secondary,
        accent: colors.accent.clone(),
        accent_secondary: colors.accent_secondary.clone(),
        border: colors.border.clone(),
        shadow: colors.shadow.clone(),
        success: colors.success.clone(),
        warning: colors.warning.clone(),
        error: colors.error.clone(),
    }
}

/// Whether a theme's idle effects are on: it names an idle effect other
/// than "none", or enables particles.
pub fn idle_effects_enabled(idle_effect: &str, enable_particles: bool) -> (r: bool)
    ensures
        r == (idle_effect@ != "none"@ || enable_particles),
{
    !crate::text::eq_str(idle_effect, "none") || enable_particles
}

/// The effective animation timings under the accessibility setting: reduced
/// motion zeroes every duration and disables every effect, otherwise the
/// UX-specification timings apply, with idle effects as the theme asks.
pub fn get_effective_animation_timings(reduce_motion: bool, idle_effects: bool) -> (r:
    crate::accessibility::EffectiveAnimationTimings)
    ensures
        reduce_motion ==> {
            &&& r.appear_ms == 0
            &&& r.dismiss_ms == 0
            &&& r.highlight_in_ms == 0
            &&& r.highlight_out_ms == 0
            &&& !r.icon_scale_enabled
            &&& !r.idle_effects_enabled
        },
        !reduce_motion ==> {
            &&& r.appear_ms == 30
            &&& r.dismiss_ms == 50
            &&& r.highlight_in_ms == 80
            &&& r.highlight_out_ms == 60
            &&& r.icon_scale_enabled
            &&& r.idle_effects_enabled == idle_effects
        },
{
    if reduce_motion {
        crate::accessibility::EffectiveAnimationTimings::reduced_motion()
    } else {
        crate::accessibility::EffectiveAnimationTimings {
            appear_ms: 30,
            dismiss_ms: 50,
            highlight_in_ms: 80,
            highlight_out_ms: 60,
            icon_scale_enabled: true,
            idle_effects_enabled: idle_effects,
        }
    }
}

} // verus!
