//! The Brahmic range scan: the leaf-level test that decides whether a text
//! sample is written in one of the nine Brahmic scripts.
//!
//! Unicode allocates the Brahmic scripts in disjoint contiguous blocks, so a
//! single code point in the combined range `[0x0900, 0x0D7F]` suffices to
//! classify the whole sample.  The scan returns the first such code point in
//! text order; its 128-code-point sub-block names the script.

use crate::scheme::Scheme;
use vstd::prelude::*;

verus! {

/// The character lies in the combined Brahmic Unicode range.
pub open spec fn is_brahmic_char(c: char) -> bool {
    '\u{0900}' <= c && c <= '\u{0D7F}'
}

/// The code point of the first Brahmic character of `s` at or after
/// position `i`, or 0 when there is none.
pub open spec fn first_brahmic_from(s: Seq<char>, i: int) -> int
    decreases s.len() - i,
{
    if i < 0 || i >= s.len() {
        0
    } else if is_brahmic_char(s[i]) {
        s[i] as int
    } else {
        first_brahmic_from(s, i + 1)
    }
}

/// The code point of the first Brahmic character of `s`, or 0 when there is
/// none.
pub open spec fn spec_first_brahmic(s: Seq<char>) -> int {
    first_brahmic_from(s, 0)
}

/// The script whose 128-code-point sub-block contains the code point, with
/// the final Malayalam block extended to the upper bound of the combined
/// range.  Code points outside the combined range map to `Unknown`.
pub open spec fn brahmic_script_of(cp: int) -> Scheme {
    if cp < 0x0900 {
        Scheme::Unknown
    } else if cp <= 0x097F {
        Scheme::Devanagari
    } else if cp <= 0x09FF {
        Scheme::Bengali
    } else if cp <= 0x0A7F {
        Scheme::Gurmukhi
    } else if cp <= 0x0AFF {
        Scheme::Gujarati
    } else if cp <= 0x0B7F {
        Scheme::Oriya
    } else if cp <= 0x0BFF {
        Scheme::Tamil
    } else if cp <= 0x0C7F {
        Scheme::Telugu
    } else if cp <= 0x0CFF {
        Scheme::Kannada
    } else if cp <= 0x0D7F {
        Scheme::Malayalam
    } else {
        Scheme::Unknown
    }
}

/// The first Brahmic code point is 0 exactly when `s` has no Brahmic
/// character at or after `i`, and otherwise lies in the combined range.
pub proof fn lemma_first_brahmic_from_range(s: Seq<char>, i: int)
    requires
        0 <= i,
    ensures
        ({
            let cp = first_brahmic_from(s, i);
            if exists|k: int| i <= k < s.len() && is_brahmic_char(s[k]) {
                0x0900 <= cp <= 0x0D7F
            } else {
                cp == 0
            }
        }),
    decreases s.len() - i,
{
    if i >= s.len() {
    } else if is_brahmic_char(s[i]) {
        assert(i <= i < s.len() && is_brahmic_char(s[i]));
    } else {
        lemma_first_brahmic_from_range(s, i + 1);
        if exists|k: int| i <= k < s.len() && is_brahmic_char(s[k]) {
            let k = choose|k: int| i <= k < s.len() && is_brahmic_char(s[k]);
            assert(i + 1 <= k < s.len() && is_brahmic_char(s[k]));
        }
    }
}

/// A Brahmic code point's sub-block always names one of the nine scripts.
pub proof fn lemma_brahmic_script_in_range(cp: int)
    requires
        0x0900 <= cp <= 0x0D7F,
    ensures
        1 <= brahmic_script_of(cp).spec_id() <= 9,
{
}

/// Scans the text left to right for the first character in the combined
/// Brahmic range and returns its code point, or 0 when there is none.
pub fn scan_first_brahmic(s: &Vec<char>) -> (r: usize)
    ensures
        r == spec_first_brahmic(s@),
{
    let n = s.len();
    let mut i: usize = 0;
    while i < n
        invariant
            i <= n,
            n == s@.len(),
            spec_first_brahmic(s@) == first_brahmic_from(s@, i as int),
        decreases n - i,
    {
        let c = s[i];
        if '\u{0900}' <= c && c <= '\u{0D7F}' {
            return c as usize;
        }
        i = i + 1;
    }
    0
}

/// Names the script of a Brahmic code point found by the scan: each
/// 128-code-point sub-block of the combined range maps to one script.
pub fn brahmic_script(cp: usize) -> (r: Scheme)
    ensures
        r == brahmic_script_of(cp as int),
{
    if cp < 0x0900 {
        Scheme::Unknown
    } else if cp <= 0x097F {
        Scheme::Devanagari
    } else if cp <= 0x09FF {
        Scheme::Bengali
    } else if cp <= 0x0A7F {
        Scheme::Gurmukhi
    } else if cp <= 0x0AFF {
        Scheme::Gujarati
    } else if cp <= 0x0B7F {
        Scheme::Oriya
    } else if cp <= 0x0BFF {
        Scheme::Tamil
    } else if cp <= 0x0C7F {
        Scheme::Telugu
    } else if cp <= 0x0CFF {
        Scheme::Kannada
    } else if cp <= 0x0D7F {
        Scheme::Malayalam
    } else {
        Scheme::Unknown
    }
}

} // verus!
