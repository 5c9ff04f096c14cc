//! Profile configuration checks.
//!
//! Loading and storing profile files is external I/O; the validation rules
//! for what a profile may reference live here.

use vstd::prelude::*;
use crate::text::{
    ends_with_lower,
    is_ascii_word_char,
    spec_ends_with_lower,
    spec_is_ascii_word_char,
};

verus! {

/// Current schema version for the profiles file
pub const SCHEMA_VERSION: u32 = 1;

/// The Unicode codepoint threshold above which an icon reference is taken
/// for an emoji.
pub const EMOJI_THRESHOLD: u32 = 0x1F300;

/// Relies on char::is_alphanumeric: whether a character is alphabetic or
/// numeric under Unicode's classification. Pinned exactly on ASCII; named
/// beyond it.
pub uninterp spec fn spec_is_alphanumeric(c: char) -> bool;

pub assume_specification[ char::is_alphanumeric ](c: char) -> (r: bool)
    ensures
        r == spec_is_alphanumeric(c),
        ('0' <= c <= '9' || 'a' <= c <= 'z' || 'A' <= c <= 'Z') ==> r,
        (c as u32) < 128 && !('0' <= c <= '9' || 'a' <= c <= 'z' || 'A' <= c <= 'Z') ==> !r,
;

/// What counts as a valid icon reference: a non-empty string that is an
/// emoji (first character above the emoji threshold), a file path ending in
/// `.png`, `.svg`, or `.ico` in any case, or a system icon name made of
/// alphanumeric characters, dashes, and underscores.
pub open spec fn spec_valid_icon(s: Seq<char>) -> bool {
    &&& s.len() > 0
    &&& {
        ||| (s[0] as u32) > EMOJI_THRESHOLD
        ||| spec_ends_with_lower(s, ".png"@)
        ||| spec_ends_with_lower(s, ".svg"@)
        ||| spec_ends_with_lower(s, ".ico"@)
        ||| forall|i: int|
            0 <= i < s.len() ==> (spec_is_alphanumeric(#[trigger] s[i]) || s[i] == '-' || s[i]
                == '_')
    }
}

/// Validate an icon reference: an emoji, an icon file path, or a system
/// icon name. File paths are not checked for existence here; that happens
/// at render time.
pub fn validate_icon_reference(icon: &str) -> (r: bool)
    ensures
        r == spec_valid_icon(icon@),
{
    let n = icon.unicode_len();
    if n == 0 {
        return false;
    }
    let first = icon.get_char(0);
    if (first as u32) > EMOJI_THRESHOLD {
        return true;
    }
    if ends_with_lower(icon, ".png") || ends_with_lower(icon, ".svg") || ends_with_lower(
        icon,
        ".ico",
    ) {
        return true;
    }
    let mut i: usize = 0;
    while i < n
        invariant
            n == icon@.len(),
            0 < n,
            i <= n,
            !((icon@[0] as u32) > EMOJI_THRESHOLD),
            !spec_ends_with_lower(icon@, ".png"@),
            !spec_ends_with_lower(icon@, ".svg"@),
            !spec_ends_with_lower(icon@, ".ico"@),
            forall|j: int|
                0 <= j < i ==> (spec_is_alphanumeric(#[trigger] icon@[j]) || icon@[j] == '-'
                    || icon@[j] == '_'),
        decreases n - i,
    {
        let c = icon.get_char(i);
        if !(c.is_alphanumeric() || is_ascii_word_char(c)) {
            proof {
                let k = i as int;
                assert(!(spec_is_alphanumeric(icon@[k]) || icon@[k] == '-' || icon@[k] == '_'));
                assert(!spec_valid_icon(icon@)) by {
                    if spec_valid_icon(icon@) {
                        assert(spec_is_alphanumeric(icon@[k]) || icon@[k] == '-' || icon@[k]
                            == '_');
                    }
                }
            }
            return false;
        }
        i += 1;
    }
    true
}

} // verus!
