//! The detection entry points: normalize, scan for Brahmic code points, and
//! fall back to the Romanization cascade.

use crate::brahmic;
use crate::normalize;
use crate::roman;
use crate::scheme::Scheme;
use vstd::prelude::*;
use vstd::string::StrSliceExecFns;

verus! {

/// The scheme assigned to text whose control syntax has already been
/// stripped: if the text holds a Brahmic code point, the first one names the
/// script; otherwise the Romanization cascade decides.
pub open spec fn classify_clean(t: Seq<char>) -> Scheme {
    if brahmic::spec_first_brahmic(t) != 0 {
        brahmic::brahmic_script_of(brahmic::spec_first_brahmic(t))
    } else {
        roman::roman_cascade(t)
    }
}

/// The scheme assigned to raw text: control syntax is stripped first, then
/// the cleaned text is classified.
pub open spec fn detect_spec(s: Seq<char>) -> Scheme {
    classify_clean(normalize::normalize_spec(s))
}

/// Collects the characters of a string slice into a vector.
fn chars_of(s: &str) -> (r: Vec<char>)
    ensures
        r@ == s@,
{
    let n = s.unicode_len();
    let mut r: Vec<char> = Vec::new();
    let mut i: usize = 0;
    while i < n
        invariant
            i <= n,
            n == s@.len(),
            r@ == s@.subrange(0, i as int),
        decreases n - i,
    {
        r.push(s.get_char(i));
        proof {
            assert(r@ =~= s@.subrange(0, i as int + 1));
        }
        i = i + 1;
    }
    proof {
        assert(r@ =~= s@);
    }
    r
}

/// The code point of the first character of the text that lies in the
/// combined Brahmic range, or 0 when there is none.
pub fn first_brahmic_char(s: &str) -> (r: usize)
    ensures
        r == brahmic::spec_first_brahmic(s@),
{
    let cs = chars_of(s);
    brahmic::scan_first_brahmic(&cs)
}

/// Detects the encoding scheme of the text: control syntax is stripped, the
/// cleaned text is scanned for a Brahmic code point, and only if none is
/// found is the Romanization cascade consulted.
pub fn detect(s: &str) -> (r: Scheme)
    ensures
        r == detect_spec(s@),
{
    let cs = chars_of(s);
    let cleaned = normalize::normalize(&cs);
    let cp = brahmic::scan_first_brahmic(&cleaned);
    if cp != 0 {
        brahmic::brahmic_script(cp)
    } else {
        roman::classify_roman(&cleaned)
    }
}

/// Detects the encoding scheme of the text and returns its fixed numeric
/// identity: 0 for `Unknown`, 1 through 9 for the Brahmic scripts in
/// canonical order, 10 through 15 for the Roman conventions.
pub fn detect_scheme(s: &str) -> (r: usize)
    ensures
        r == detect_spec(s@).spec_id(),
        r <= 15,
{
    detect(s).id()
}

/// Detection entry point for host string bindings: classifies the text and
/// returns the scheme's symbolic name from the fixed sixteen-entry table,
/// with `unknown` standing for the absent result.
pub fn rbstr_detect_scheme(s: &str) -> (r: &'static str)
    ensures
        r@ == detect_spec(s@).spec_name(),
{
    detect(s).name()
}

} // verus!
