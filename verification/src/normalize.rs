//! Stripping of control syntax from a text sample before classification.
//!
//! Two substitutions run in order.  First, escaped control markers — a
//! backslash immediately followed by `{#`, `##` or `#}` — are removed, so an
//! author's escaped marker can never act as a live delimiter.  Second,
//! complete control blocks — a span opened by `##` and closed by the next
//! `##`, or opened by `{#` and closed by the next `#}`, with no newline in
//! between — are removed, shortest span first, scanning left to right.
//! Unmatched delimiters are left in place as ordinary text.

use vstd::prelude::*;

verus! {

/// The two characters form one of the three control tokens `{#`, `##`, `#}`.
pub open spec fn is_control_token(a: char, b: char) -> bool {
    (a == '{' && b == '#') || (a == '#' && b == '#') || (a == '#' && b == '}')
}

/// An escaped control marker (backslash followed by a control token) starts
/// at position `i` of `s`.
pub open spec fn escape_at(s: Seq<char>, i: int) -> bool {
    &&& 0 <= i
    &&& i + 3 <= s.len()
    &&& s[i] == '\\'
    &&& is_control_token(s[i + 1], s[i + 2])
}

/// The text with every escaped control marker removed, scanning left to
/// right from position `i`: whenever a backslash followed by a control token
/// is found, all three characters are dropped and scanning resumes after
/// them.
pub open spec fn strip_escapes_from(s: Seq<char>, i: int) -> Seq<char>
    decreases s.len() - i,
{
    if i < 0 || i >= s.len() {
        Seq::empty()
    } else if escape_at(s, i) {
        strip_escapes_from(s, i + 3)
    } else {
        seq![s[i]] + strip_escapes_from(s, i + 1)
    }
}

/// The text with every escaped control marker removed.
pub open spec fn strip_escapes(s: Seq<char>) -> Seq<char> {
    strip_escapes_from(s, 0)
}

/// The position of the first closing pair `c1 c2` at or after `from`,
/// scanning left to right, or -1 if a newline or the end of the text is
/// reached first.  A block's content may not span a newline, so the scan
/// stops there.
pub open spec fn find_close(s: Seq<char>, from: int, c1: char, c2: char) -> int
    decreases s.len() - from,
{
    if from < 0 || from + 2 > s.len() {
        -1
    } else if s[from] == c1 && s[from + 1] == c2 {
        from
    } else if s[from] == '\n' {
        -1
    } else {
        find_close(s, from + 1, c1, c2)
    }
}

/// A complete `##...##` control block starts at position `i` of `s`.
pub open spec fn hh_block_at(s: Seq<char>, i: int) -> bool {
    &&& 0 <= i
    &&& i + 2 <= s.len()
    &&& s[i] == '#'
    &&& s[i + 1] == '#'
    &&& ({
        let j = find_close(s, i + 2, '#', '#');
        i + 2 <= j && j + 2 <= s.len()
    })
}

/// A complete `{#...#}` control block starts at position `i` of `s`.
pub open spec fn brace_block_at(s: Seq<char>, i: int) -> bool {
    &&& 0 <= i
    &&& i + 2 <= s.len()
    &&& s[i] == '{'
    &&& s[i + 1] == '#'
    &&& ({
        let j = find_close(s, i + 2, '#', '}');
        i + 2 <= j && j + 2 <= s.len()
    })
}

/// A complete control block of either kind starts at position `i` of `s`.
pub open spec fn block_at(s: Seq<char>, i: int) -> bool {
    hh_block_at(s, i) || brace_block_at(s, i)
}

/// Some complete control block occurs somewhere in `s`.
pub open spec fn has_live_block(s: Seq<char>) -> bool {
    exists|i: int| block_at(s, i)
}

/// The text with every complete control block removed, scanning left to
/// right from position `i`: whenever a complete block starts, the whole
/// span through its closing pair is dropped and scanning resumes after it.
pub open spec fn strip_blocks_from(s: Seq<char>, i: int) -> Seq<char>
    decreases s.len() - i,
{
    if i < 0 || i >= s.len() {
        Seq::empty()
    } else if hh_block_at(s, i) {
        strip_blocks_from(s, find_close(s, i + 2, '#', '#') + 2)
    } else if brace_block_at(s, i) {
        strip_blocks_from(s, find_close(s, i + 2, '#', '}') + 2)
    } else {
        seq![s[i]] + strip_blocks_from(s, i + 1)
    }
}

/// The text with every complete control block removed.
pub open spec fn strip_blocks(s: Seq<char>) -> Seq<char> {
    strip_blocks_from(s, 0)
}

/// The cleaned text: escaped control markers removed first, then complete
/// control blocks.
pub open spec fn normalize_spec(s: Seq<char>) -> Seq<char> {
    strip_blocks(strip_escapes(s))
}

/// Stripping escaped control markers from text that holds no backslash at or
/// after position `i` leaves the tail from `i` unchanged.
proof fn lemma_no_escape_strip_from(t: Seq<char>, i: int)
    requires
        0 <= i <= t.len(),
        forall|k: int| i <= k < t.len() ==> t[k] != '\\',
    ensures
        strip_escapes_from(t, i) == t.skip(i),
    decreases t.len() - i,
{
    if i >= t.len() {
        assert(strip_escapes_from(t, i) =~= t.skip(i));
    } else {
        assert(!escape_at(t, i));
        lemma_no_escape_strip_from(t, i + 1);
        assert(strip_escapes_from(t, i) =~= t.skip(i));
    }
}

/// Text without `#` or `{` holds no complete control block.
proof fn lemma_no_delims_block_free(t: Seq<char>)
    requires
        forall|k: int| 0 <= k < t.len() ==> t[k] != '#' && t[k] != '{',
    ensures
        !has_live_block(t),
{
    assert forall|i: int| !block_at(t, i) by {
        if hh_block_at(t, i) {
            assert(t[i] == '#');
        }
        if brace_block_at(t, i) {
            assert(t[i] == '{');
        }
    }
}

/// Stripping control blocks from the tail at `i` of text that holds no
/// complete control block leaves that tail unchanged.
proof fn lemma_block_free_strip_from(t: Seq<char>, i: int)
    requires
        !has_live_block(t),
        0 <= i <= t.len(),
    ensures
        strip_blocks_from(t, i) == t.skip(i),
    decreases t.len() - i,
{
    if i >= t.len() {
        assert(strip_blocks_from(t, i) =~= t.skip(i));
    } else {
        assert(!block_at(t, i));
        lemma_block_free_strip_from(t, i + 1);
        assert(strip_blocks_from(t, i) =~= t.skip(i));
    }
}

/// Stripping control blocks from text that holds no complete control block
/// leaves the text unchanged.
pub proof fn lemma_block_free_strip_identity(t: Seq<char>)
    requires
        !has_live_block(t),
    ensures
        strip_blocks(t) == t,
{
    lemma_block_free_strip_from(t, 0);
    assert(t.skip(0) =~= t);
}

/// Applying the control-block strip twice yields the same text as applying
/// it once, whenever the first pass leaves no complete block behind.  A pass
/// can leave one behind: removing a block can bring a stray opening
/// delimiter on its left together with a stray closing delimiter on its
/// right, and a second pass would then remove more.  The premise excludes
/// exactly those inputs.
pub proof fn lemma_strip_blocks_idempotent(s: Seq<char>)
    requires
        !has_live_block(strip_blocks(s)),
    ensures
        strip_blocks(strip_blocks(s)) == strip_blocks(s),
{
    lemma_block_free_strip_identity(strip_blocks(s));
}

/// An escaped control marker never acts as a live delimiter: a text that is
/// a backslash-escaped control token followed by plain content (content
/// free of backslashes, hashes and opening braces) normalizes to exactly
/// that content — the marker is deleted before block stripping runs, and
/// nothing is removed as a block.
pub proof fn lemma_escaped_marker_inert(a: char, b: char, rest: Seq<char>)
    requires
        is_control_token(a, b),
        forall|k: int| 0 <= k < rest.len() ==> rest[k] != '\\' && rest[k] != '#' && rest[k]
            != '{',
    ensures
        normalize_spec(seq!['\\', a, b] + rest) == rest,
{
    let s = seq!['\\', a, b] + rest;
    assert(escape_at(s, 0));
    assert(forall|k: int| 3 <= k < s.len() ==> s[k] == rest[k - 3] && s[k] != '\\');
    lemma_no_escape_strip_from(s, 3);
    assert(s.skip(3) =~= rest);
    assert(strip_escapes(s) == rest);
    lemma_no_delims_block_free(rest);
    lemma_block_free_strip_identity(rest);
}

/// The two characters form one of the three control tokens.
fn is_control_token_exec(a: char, b: char) -> (r: bool)
    ensures
        r == is_control_token(a, b),
{
    (a == '{' && b == '#') || (a == '#' && b == '#') || (a == '#' && b == '}')
}

/// Finds the first closing pair `c1 c2` at or after `from`, stopping at a
/// newline or the end of the text.
fn find_close_exec(s: &Vec<char>, from: usize, c1: char, c2: char) -> (r: Option<usize>)
    requires
        from <= s.len(),
    ensures
        match r {
            Some(j) => find_close(s@, from as int, c1, c2) == j && from <= j && j + 2 <= s.len(),
            None => find_close(s@, from as int, c1, c2) == -1,
        },
    decreases s.len() - from,
{
    if s.len() - from < 2 {
        None
    } else if s[from] == c1 && s[from + 1] == c2 {
        Some(from)
    } else if s[from] == '\n' {
        None
    } else {
        find_close_exec(s, from + 1, c1, c2)
    }
}

/// Removes every escaped control marker, scanning left to right.
fn strip_escaped_markers(s: &Vec<char>) -> (r: Vec<char>)
    ensures
        r@ == strip_escapes(s@),
{
    let n = s.len();
    let mut out: Vec<char> = Vec::new();
    let mut i: usize = 0;
    proof {
        assert(Seq::<char>::empty() + strip_escapes_from(s@, 0) =~= strip_escapes_from(s@, 0));
    }
    while i < n
        invariant
            i <= n,
            n == s@.len(),
            strip_escapes(s@) == out@ + strip_escapes_from(s@, i as int),
        decreases n - i,
    {
        if n - i >= 3 && s[i] == '\\' && is_control_token_exec(s[i + 1], s[i + 2]) {
            proof {
                assert(escape_at(s@, i as int));
            }
            i = i + 3;
        } else {
            let ghost pre = out@;
            proof {
                assert(!escape_at(s@, i as int));
                assert(strip_escapes_from(s@, i as int) == seq![s@[i as int]]
                    + strip_escapes_from(s@, i as int + 1));
            }
            out.push(s[i]);
            proof {
                assert(out@ + strip_escapes_from(s@, i as int + 1) =~= pre + strip_escapes_from(
                    s@,
                    i as int,
                ));
            }
            i = i + 1;
        }
    }
    proof {
        assert(out@ + strip_escapes_from(s@, n as int) =~= out@);
    }
    out
}

/// Removes every complete control block, scanning left to right and taking
/// the shortest closing pair for each opening delimiter.
fn strip_control_blocks(s: &Vec<char>) -> (r: Vec<char>)
    ensures
        r@ == strip_blocks(s@),
{
    let n = s.len();
    let mut out: Vec<char> = Vec::new();
    let mut i: usize = 0;
    proof {
        assert(Seq::<char>::empty() + strip_blocks_from(s@, 0) =~= strip_blocks_from(s@, 0));
    }
    while i < n
        invariant
            i <= n,
            n == s@.len(),
            strip_blocks(s@) == out@ + strip_blocks_from(s@, i as int),
        decreases n - i,
    {
        let mut next_i: usize = i + 1;
        let mut keep: bool = true;
        if n - i >= 2 && s[i] == '#' && s[i + 1] == '#' {
            if let Some(j) = find_close_exec(s, i + 2, '#', '#') {
                proof {
                    assert(hh_block_at(s@, i as int));
                    assert(strip_blocks_from(s@, i as int) == strip_blocks_from(
                        s@,
                        j as int + 2,
                    ));
                }
                next_i = j + 2;
                keep = false;
            } else {
                proof {
                    assert(!hh_block_at(s@, i as int));
                }
            }
        } else if n - i >= 2 && s[i] == '{' && s[i + 1] == '#' {
            if let Some(j) = find_close_exec(s, i + 2, '#', '}') {
                proof {
                    assert(brace_block_at(s@, i as int));
                    assert(strip_blocks_from(s@, i as int) == strip_blocks_from(
                        s@,
                        j as int + 2,
                    ));
                }
                next_i = j + 2;
                keep = false;
            } else {
                proof {
                    assert(!brace_block_at(s@, i as int));
                }
            }
        }
        if keep {
            let ghost pre = out@;
            proof {
                assert(!hh_block_at(s@, i as int));
                assert(!brace_block_at(s@, i as int));
                assert(strip_blocks_from(s@, i as int) == seq![s@[i as int]]
                    + strip_blocks_from(s@, i as int + 1));
            }
            out.push(s[i]);
            proof {
                assert(out@ + strip_blocks_from(s@, i as int + 1) =~= pre + strip_blocks_from(
                    s@,
                    i as int,
                ));
            }
        }
        i = next_i;
    }
    proof {
        assert(out@ + strip_blocks_from(s@, n as int) =~= out@);
    }
    out
}

/// Strips control syntax from the text: escaped control markers first, then
/// complete control blocks.
pub fn normalize(text: &Vec<char>) -> (r: Vec<char>)
    ensures
        r@ == normalize_spec(text@),
{
    let unescaped = strip_escaped_markers(text);
    strip_control_blocks(&unescaped)
}

} // verus!
