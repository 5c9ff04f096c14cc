//! Character and string helpers for the small amount of text matching the
//! library does: ASCII lowercasing, theme-name normalization, hex-digit
//! checks, and case-insensitive substring search over device descriptors.

use vstd::prelude::*;
use vstd::string::StrSliceExecFns;

verus! {

/// A character with an ASCII upper-case letter lowered; anything else is
/// unchanged.
pub open spec fn spec_lower_char(c: char) -> char {
    if 'A' <= c <= 'Z' {
        ((c as u32) + 32) as char
    } else {
        c
    }
}

/// A character sequence with its ASCII upper-case letters lowered.
pub open spec fn spec_lower_str(s: Seq<char>) -> Seq<char> {
    Seq::new(s.len(), |i: int| spec_lower_char(s[i]))
}

/// Theme-name normalization of one character: spaces and underscores become
/// dashes, ASCII upper-case letters lower.
pub open spec fn spec_normalize_char(c: char) -> char {
    if c == ' ' || c == '_' {
        '-'
    } else {
        spec_lower_char(c)
    }
}

/// Theme-name normalization of a character sequence.
pub open spec fn spec_normalized(s: Seq<char>) -> Seq<char> {
    Seq::new(s.len(), |i: int| spec_normalize_char(s[i]))
}

/// Whether one character lowers to the given (already lower-case) target.
fn lower_char_eq(c: char, t: char) -> (r: bool)
    ensures
        r == (spec_lower_char(c) == t),
{
    if c >= 'A' && c <= 'Z' {
        (t as u32) == (c as u32) + 32
    } else {
        t == c
    }
}

/// Whether one character normalizes to the given (already normalized)
/// target.
fn normalize_char_eq(c: char, t: char) -> (r: bool)
    ensures
        r == (spec_normalize_char(c) == t),
{
    if c == ' ' || c == '_' {
        t == '-'
    } else {
        lower_char_eq(c, t)
    }
}

/// Whether `s`, ASCII-lowercased, equals the target exactly. The target is
/// expected already lower-case.
pub fn matches_lower(s: &str, target: &str) -> (r: bool)
    ensures
        r == (spec_lower_str(s@) == target@),
{
    let n = s.unicode_len();
    if n != target.unicode_len() {
        proof {
            assert(spec_lower_str(s@).len() != target@.len());
        }
        return false;
    }
    let mut i: usize = 0;
    while i < n
        invariant
            n == s@.len(),
            n == target@.len(),
            i <= n,
            forall|j: int| 0 <= j < i ==> spec_lower_char(s@[j]) == target@[j],
        decreases n - i,
    {
        if !lower_char_eq(s.get_char(i), target.get_char(i)) {
            proof {
                assert(spec_lower_str(s@)[i as int] != target@[i as int]);
            }
            return false;
        }
        i += 1;
    }
    proof {
        assert(spec_lower_str(s@) =~= target@);
    }
    true
}

/// Whether `s`, theme-name normalized, equals the target exactly. The
/// target is expected already normalized.
pub fn matches_normalized(s: &str, target: &str) -> (r: bool)
    ensures
        r == (spec_normalized(s@) == target@),
{
    let n = s.unicode_len();
    if n != target.unicode_len() {
        proof {
            assert(spec_normalized(s@).len() != target@.len());
        }
        return false;
    }
    let mut i: usize = 0;
    while i < n
        invariant
            n == s@.len(),
            n == target@.len(),
            i <= n,
            forall|j: int| 0 <= j < i ==> spec_normalize_char(s@[j]) == target@[j],
        decreases n - i,
    {
        if !normalize_char_eq(s.get_char(i), target.get_char(i)) {
            proof {
                assert(spec_normalized(s@)[i as int] != target@[i as int]);
            }
            return false;
        }
        i += 1;
    }
    proof {
        assert(spec_normalized(s@) =~= target@);
    }
    true
}

/// Whether `s`, ASCII-lowercased, ends with the given suffix.
pub open spec fn spec_ends_with_lower(s: Seq<char>, suffix: Seq<char>) -> bool {
    &&& s.len() >= suffix.len()
    &&& spec_lower_str(s).subrange(s.len() - suffix.len(), s.len() as int) == suffix
}

/// Check whether `s`, ASCII-lowercased, ends with the target. The target is
/// expected already lower-case.
pub fn ends_with_lower(s: &str, suffix: &str) -> (r: bool)
    ensures
        r == spec_ends_with_lower(s@, suffix@),
{
    let n = s.unicode_len();
    let k = suffix.unicode_len();
    if n < k {
        return false;
    }
    let mut i: usize = 0;
    while i < k
        invariant
            n == s@.len(),
            k == suffix@.len(),
            k <= n,
            i <= k,
            forall|j: int| 0 <= j < i ==> spec_lower_char(s@[n - k + j]) == suffix@[j],
        decreases k - i,
    {
        if !lower_char_eq(s.get_char(n - k + i), suffix.get_char(i)) {
            proof {
                assert(spec_lower_str(s@)[s@.len() - suffix@.len() + i] != suffix@[i as int]);
                if spec_ends_with_lower(s@, suffix@) {
                    assert(spec_lower_str(s@).subrange(
                        s@.len() - suffix@.len(),
                        s@.len() as int,
                    )[i as int] == suffix@[i as int]);
                }
            }
            return false;
        }
        i += 1;
    }
    proof {
        assert(spec_lower_str(s@).subrange(s@.len() - suffix@.len(), s@.len() as int)
            =~= suffix@);
    }
    true
}

/// Check whether two strings hold the same characters.
pub fn eq_str(a: &str, b: &str) -> (r: bool)
    ensures
        r == (a@ == b@),
{
    let n = a.unicode_len();
    if n != b.unicode_len() {
        return false;
    }
    let mut i: usize = 0;
    while i < n
        invariant
            n == a@.len(),
            n == b@.len(),
            i <= n,
            forall|j: int| 0 <= j < i ==> a@[j] == b@[j],
        decreases n - i,
    {
        if a.get_char(i) != b.get_char(i) {
            return false;
        }
        i += 1;
    }
    proof {
        assert(a@ =~= b@);
    }
    true
}

/// Whether `s`, ASCII-lowercased, holds the target at position `i`.
pub open spec fn spec_match_lower_at(s: Seq<char>, needle: Seq<char>, i: int) -> bool {
    &&& 0 <= i
    &&& i + needle.len() <= s.len()
    &&& forall|j: int| 0 <= j < needle.len() ==> spec_lower_char(#[trigger] s[i + j]) == needle[j]
}

/// Whether `s`, ASCII-lowercased, holds the target anywhere.
pub open spec fn spec_contains_lower(s: Seq<char>, needle: Seq<char>) -> bool {
    exists|i: int| spec_match_lower_at(s, needle, i)
}

/// Check whether `s`, ASCII-lowercased, holds the target anywhere. The
/// target is expected already lower-case.
pub fn contains_lower(s: &str, needle: &str) -> (r: bool)
    ensures
        r == spec_contains_lower(s@, needle@),
{
    let n = s.unicode_len();
    let k = needle.unicode_len();
    if k > n {
        return false;
    }
    let mut i: usize = 0;
    while i <= n - k
        invariant
            n == s@.len(),
            k == needle@.len(),
            k <= n,
            i <= n - k + 1,
            forall|p: int| 0 <= p < i ==> !spec_match_lower_at(s@, needle@, p),
        decreases n + 1 - i,
    {
        let mut j: usize = 0;
        let mut hit = true;
        while j < k && hit
            invariant
                n == s@.len(),
                k == needle@.len(),
                i + k <= n,
                j <= k,
                hit ==> forall|q: int|
                    0 <= q < j ==> spec_lower_char(#[trigger] s@[i + q]) == needle@[q],
                !hit ==> !spec_match_lower_at(s@, needle@, i as int),
            decreases k - j + (if hit { 1int } else { 0int }),
        {
            if !lower_char_eq(s.get_char(i + j), needle.get_char(j)) {
                proof {
                    assert(spec_lower_char(s@[i + j]) != needle@[j as int]);
                }
                hit = false;
            } else {
                j += 1;
            }
        }
        if hit {
            proof {
                assert(spec_match_lower_at(s@, needle@, i as int));
            }
            return true;
        }
        i += 1;
    }
    proof {
        assert forall|p: int| #[trigger]
            spec_match_lower_at(s@, needle@, p) implies false by {
            assert(0 <= p < i);
        }
    }
    false
}

/// Whether a character is a hexadecimal digit, either case.
pub open spec fn spec_is_hex_digit(c: char) -> bool {
    ||| '0' <= c <= '9'
    ||| 'a' <= c <= 'f'
    ||| 'A' <= c <= 'F'
}

/// Check whether a character is a hexadecimal digit.
pub fn is_hex_digit(c: char) -> (r: bool)
    ensures
        r == spec_is_hex_digit(c),
{
    (c >= '0' && c <= '9') || (c >= 'a' && c <= 'f') || (c >= 'A' && c <= 'F')
}

/// Whether a character is an ASCII letter, an ASCII digit, a dash, or an
/// underscore.
pub open spec fn spec_is_ascii_word_char(c: char) -> bool {
    ||| '0' <= c <= '9'
    ||| 'a' <= c <= 'z'
    ||| 'A' <= c <= 'Z'
    ||| c == '-'
    ||| c == '_'
}

/// Check whether a character is an ASCII letter, digit, dash, or
/// underscore.
pub fn is_ascii_word_char(c: char) -> (r: bool)
    ensures
        r == spec_is_ascii_word_char(c),
{
    (c >= '0' && c <= '9') || (c >= 'a' && c <= 'z') || (c >= 'A' && c <= 'Z') || c == '-' || c
        == '_'
}

} // verus!
