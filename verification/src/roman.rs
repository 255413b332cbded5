//! The Romanization cascade: an ordered list of pattern rules that decides
//! which Roman transliteration convention a text sample uses.
//!
//! Each rule looks for characters, character pairs or character triples that
//! are exclusive to one convention (or, late in the cascade, shared by two or
//! typical of one).  The rules are tried in a fixed order and the first match
//! wins; there is no scoring.  The cascade runs only on text in which the
//! Brahmic range scan found nothing.

use crate::scheme::Scheme;
use vstd::prelude::*;

verus! {

/// The character is a diacritic letter used only by IAST and its Kolkata
/// variant: macron vowels, vocalic r/l with marks, dotted or accented
/// consonants, in both cases.
pub open spec fn iast_solo(c: char) -> bool {
    c == '\u{0101}' || c == '\u{012B}' || c == '\u{016B}' || c == '\u{1E5B}'
        || c == '\u{1E5D}' || c == '\u{1E37}' || c == '\u{1E39}' || c == '\u{0113}'
        || c == '\u{014D}' || c == '\u{1E43}' || c == '\u{1E25}' || c == '\u{1E45}'
        || c == '\u{00F1}' || c == '\u{1E6D}' || c == '\u{1E0D}' || c == '\u{1E47}'
        || c == '\u{015B}' || c == '\u{1E63}' || c == '\u{1E3B}' || c == '\u{0100}'
        || c == '\u{012A}' || c == '\u{016A}' || c == '\u{1E5A}' || c == '\u{1E5C}'
        || c == '\u{1E36}' || c == '\u{1E38}' || c == '\u{0112}' || c == '\u{014C}'
        || c == '\u{1E42}' || c == '\u{1E24}' || c == '\u{1E44}' || c == '\u{00D1}'
        || c == '\u{1E6C}' || c == '\u{1E0C}' || c == '\u{1E46}' || c == '\u{015A}'
        || c == '\u{1E62}' || c == '\u{1E3A}'
}

/// The two characters are a base letter followed by a combining mark in one
/// of the decomposed forms of the IAST/Kolkata diacritic letters: a vowel
/// with a combining macron, or a consonant with a combining dot, tilde,
/// acute or macron-below mark.
pub open spec fn iast_pair(a: char, b: char) -> bool {
    ((a == 'a' || a == 'i' || a == 'u' || a == 'e' || a == 'o' || a == 'A' || a == 'I' || a == 'U'
        || a == 'E' || a == 'O') && b == '\u{0304}')
        || ((a == 'r' || a == 'l' || a == 'R' || a == 'L') && b == '\u{0323}')
        || ((a == 'm' || a == 'h' || a == 't' || a == 'd' || a == 'M' || a == 'H' || a == 'T'
            || a == 'D') && b == '\u{0323}')
        || ((a == 'n' || a == 'N') && (b == '\u{0307}' || b == '\u{0303}' || b == '\u{0323}'))
        || ((a == 's' || a == 'S') && (b == '\u{0301}' || b == '\u{0323}'))
        || ((a == 'l' || a == 'L') && b == '\u{0331}')
}

/// The character is a long e/o with macron, the mark specific to the Kolkata
/// variant of IAST.
pub open spec fn kolkata_solo(c: char) -> bool {
    c == '\u{0113}' || c == '\u{014D}' || c == '\u{0112}' || c == '\u{014C}'
}

/// The two characters are an e/o vowel followed by a combining macron, the
/// decomposed form of the Kolkata-specific marks.
pub open spec fn kolkata_pair(a: char, b: char) -> bool {
    (a == 'e' || a == 'o' || a == 'E' || a == 'O') && b == '\u{0304}'
}

/// The two characters form a digraph or marker exclusive to ITRANS.
pub open spec fn itrans_pair(a: char, b: char) -> bool {
    (a == 'e' && b == 'e') || (a == 'o' && b == 'o') || (a == '^' && b == 'i')
        || (a == '^' && b == 'I') || (a == 'L' && b == 'i') || (a == 'L' && b == 'I')
        || (a == '~' && b == 'N') || (a == 'N' && b == '^') || (a == 'C' && b == 'h')
        || (a == 'J' && b == 'N') || (a == 's' && b == 'h') || (a == 'S' && b == 'h')
        || (a == '.' && b == 'a')
}

/// The three characters form a trigraph exclusive to ITRANS.
pub open spec fn itrans_triple(a: char, b: char, c: char) -> bool {
    (a == 'R' && b == 'R' && (c == 'i' || c == 'I')) || (a == 'c' && b == 'h' && c == 'h')
}

/// The character is a Roman letter that only SLP1 assigns a phoneme to.
pub open spec fn slp1_solo(c: char) -> bool {
    c == 'f' || c == 'F' || c == 'x' || c == 'X'
        || c == 'E' || c == 'O' || c == 'C' || c == 'Y'
        || c == 'w' || c == 'W' || c == 'q' || c == 'Q'
        || c == 'P' || c == 'B'
}

/// The two characters form a bigram exclusive to SLP1.
pub open spec fn slp1_pair(a: char, b: char) -> bool {
    (a == 'k' && b == 'z') || (a == 'N' && (b == 'k' || b == 'g')) || (a == 't' && b == 'T')
        || (a == 'd' && b == 'D') || (a == 'S' && (b == 'c' || b == 'n'))
        || ((a == 'a' || a == 'A' || a == 'i' || a == 'I' || a == 'u' || a == 'U' || a == 'e'
            || a == 'o') && b == 'R')
        || (a == 'G' && (b == 'y' || b == 'r'))
}

/// The two characters form a dotted-letter sequence, the double-quote+n
/// digraph, or the tilde+s digraph exclusive to Velthuis.
pub open spec fn velthuis_pair(a: char, b: char) -> bool {
    (a == '.' && (b == 'm' || b == 'h' || b == 'n' || b == 'r' || b == 'l' || b == 't' || b == 'd'
        || b == 's')) || (a == '"' && b == 'n') || (a == '~' && b == 's')
}

/// The two characters form a sequence shared by ITRANS and Velthuis but used
/// by no other convention.
pub open spec fn shared_pair(a: char, b: char) -> bool {
    (a == 'a' && b == 'a') || (a == 'i' && b == 'i') || (a == 'u' && b == 'u')
        || (a == '~' && b == 'n')
}

/// The character belongs to the Harvard-Kyoto alphabet.
pub open spec fn hk_solo(c: char) -> bool {
    c == 'a' || c == 'A' || c == 'i' || c == 'I'
        || c == 'u' || c == 'U' || c == 'e' || c == 'o'
        || c == 'R' || c == 'M' || c == 'H' || c == 'k'
        || c == 'g' || c == 'G' || c == 'c' || c == 'j'
        || c == 'J' || c == 'T' || c == 'D' || c == 'N'
        || c == 't' || c == 'd' || c == 'n' || c == 'p'
        || c == 'b' || c == 'm' || c == 'y' || c == 'r'
        || c == 'l' || c == 'v' || c == 'z' || c == 'S'
        || c == 's' || c == 'h'
}

/// One pattern rule of the cascade, in its fixed order of precedence.
#[derive(Clone, Copy, Debug, PartialEq, Eq, Structural)]
pub enum Rule {
    IastOrKolkata,
    KolkataOnly,
    ItransOnly,
    Slp1Only,
    VelthuisOnly,
    ItransOrVelthuis,
    HarvardKyoto,
}

/// The rule matches the text at position `i`: the character there (for
/// rules with single-character tests), or the pair or triple beginning
/// there, is one the rule looks for.
pub open spec fn rule_at(r: Rule, s: Seq<char>, i: int) -> bool {
    &&& 0 <= i < s.len()
    &&& match r {
        Rule::IastOrKolkata => iast_solo(s[i]) || (i + 1 < s.len() && iast_pair(s[i], s[i + 1])),
        Rule::KolkataOnly => kolkata_solo(s[i]) || (i + 1 < s.len() && kolkata_pair(
            s[i],
            s[i + 1],
        )),
        Rule::ItransOnly => (i + 1 < s.len() && itrans_pair(s[i], s[i + 1])) || (i + 2 < s.len()
            && itrans_triple(s[i], s[i + 1], s[i + 2])),
        Rule::Slp1Only => slp1_solo(s[i]) || (i + 1 < s.len() && slp1_pair(s[i], s[i + 1])),
        Rule::VelthuisOnly => i + 1 < s.len() && velthuis_pair(s[i], s[i + 1]),
        Rule::ItransOrVelthuis => i + 1 < s.len() && shared_pair(s[i], s[i + 1]),
        Rule::HarvardKyoto => hk_solo(s[i]),
    }
}

/// The rule matches somewhere in the text.
pub open spec fn rule_matches(r: Rule, s: Seq<char>) -> bool {
    exists|i: int| rule_at(r, s, i)
}

/// The scheme the cascade assigns to Brahmic-free text: rules are tried in
/// their fixed order and the first match decides; text matched by no rule is
/// `Unknown`.  A match of the IAST/Kolkata rule is refined by the
/// Kolkata-only rule; a sequence shared by ITRANS and Velthuis falls to
/// ITRANS as the tie-break default.
pub open spec fn roman_cascade(s: Seq<char>) -> Scheme {
    if rule_matches(Rule::IastOrKolkata, s) {
        if rule_matches(Rule::KolkataOnly, s) {
            Scheme::Kolkata
        } else {
            Scheme::Iast
        }
    } else if rule_matches(Rule::ItransOnly, s) {
        Scheme::Itrans
    } else if rule_matches(Rule::Slp1Only, s) {
        Scheme::Slp1
    } else if rule_matches(Rule::VelthuisOnly, s) {
        Scheme::Velthuis
    } else if rule_matches(Rule::ItransOrVelthuis, s) {
        Scheme::Itrans
    } else if rule_matches(Rule::HarvardKyoto, s) {
        Scheme::HarvardKyoto
    } else {
        Scheme::Unknown
    }
}

fn is_iast_solo(c: char) -> (r: bool)
    ensures
        r == iast_solo(c),
{
    c == '\u{0101}' || c == '\u{012B}' || c == '\u{016B}' || c == '\u{1E5B}'
        || c == '\u{1E5D}' || c == '\u{1E37}' || c == '\u{1E39}' || c == '\u{0113}'
        || c == '\u{014D}' || c == '\u{1E43}' || c == '\u{1E25}' || c == '\u{1E45}'
        || c == '\u{00F1}' || c == '\u{1E6D}' || c == '\u{1E0D}' || c == '\u{1E47}'
        || c == '\u{015B}' || c == '\u{1E63}' || c == '\u{1E3B}' || c == '\u{0100}'
        || c == '\u{012A}' || c == '\u{016A}' || c == '\u{1E5A}' || c == '\u{1E5C}'
        || c == '\u{1E36}' || c == '\u{1E38}' || c == '\u{0112}' || c == '\u{014C}'
        || c == '\u{1E42}' || c == '\u{1E24}' || c == '\u{1E44}' || c == '\u{00D1}'
        || c == '\u{1E6C}' || c == '\u{1E0C}' || c == '\u{1E46}' || c == '\u{015A}'
        || c == '\u{1E62}' || c == '\u{1E3A}'
}

fn is_iast_pair(a: char, b: char) -> (r: bool)
    ensures
        r == iast_pair(a, b),
{
    ((a == 'a' || a == 'i' || a == 'u' || a == 'e' || a == 'o' || a == 'A' || a == 'I' || a == 'U'
        || a == 'E' || a == 'O') && b == '\u{0304}')
        || ((a == 'r' || a == 'l' || a == 'R' || a == 'L') && b == '\u{0323}')
        || ((a == 'm' || a == 'h' || a == 't' || a == 'd' || a == 'M' || a == 'H' || a == 'T'
            || a == 'D') && b == '\u{0323}')
        || ((a == 'n' || a == 'N') && (b == '\u{0307}' || b == '\u{0303}' || b == '\u{0323}'))
        || ((a == 's' || a == 'S') && (b == '\u{0301}' || b == '\u{0323}'))
        || ((a == 'l' || a == 'L') && b == '\u{0331}')
}

fn is_kolkata_solo(c: char) -> (r: bool)
    ensures
        r == kolkata_solo(c),
{
    c == '\u{0113}' || c == '\u{014D}' || c == '\u{0112}' || c == '\u{014C}'
}

fn is_kolkata_pair(a: char, b: char) -> (r: bool)
    ensures
        r == kolkata_pair(a, b),
{
    (a == 'e' || a == 'o' || a == 'E' || a == 'O') && b == '\u{0304}'
}

fn is_itrans_pair(a: char, b: char) -> (r: bool)
    ensures
        r == itrans_pair(a, b),
{
    (a == 'e' && b == 'e') || (a == 'o' && b == 'o') || (a == '^' && b == 'i')
        || (a == '^' && b == 'I') || (a == 'L' && b == 'i') || (a == 'L' && b == 'I')
        || (a == '~' && b == 'N') || (a == 'N' && b == '^') || (a == 'C' && b == 'h')
        || (a == 'J' && b == 'N') || (a == 's' && b == 'h') || (a == 'S' && b == 'h')
        || (a == '.' && b == 'a')
}

fn is_itrans_triple(a: char, b: char, c: char) -> (r: bool)
    ensures
        r == itrans_triple(a, b, c),
{
    (a == 'R' && b == 'R' && (c == 'i' || c == 'I')) || (a == 'c' && b == 'h' && c == 'h')
}

fn is_slp1_solo(c: char) -> (r: bool)
    ensures
        r == slp1_solo(c),
{
    c == 'f' || c == 'F' || c == 'x' || c == 'X'
        || c == 'E' || c == 'O' || c == 'C' || c == 'Y'
        || c == 'w' || c == 'W' || c == 'q' || c == 'Q'
        || c == 'P' || c == 'B'
}

fn is_slp1_pair(a: char, b: char) -> (r: bool)
    ensures
        r == slp1_pair(a, b),
{
    (a == 'k' && b == 'z') || (a == 'N' && (b == 'k' || b == 'g')) || (a == 't' && b == 'T')
        || (a == 'd' && b == 'D') || (a == 'S' && (b == 'c' || b == 'n'))
        || ((a == 'a' || a == 'A' || a == 'i' || a == 'I' || a == 'u' || a == 'U' || a == 'e'
            || a == 'o') && b == 'R')
        || (a == 'G' && (b == 'y' || b == 'r'))
}

fn is_velthuis_pair(a: char, b: char) -> (r: bool)
    ensures
        r == velthuis_pair(a, b),
{
    (a == '.' && (b == 'm' || b == 'h' || b == 'n' || b == 'r' || b == 'l' || b == 't' || b == 'd'
        || b == 's')) || (a == '"' && b == 'n') || (a == '~' && b == 's')
}

fn is_shared_pair(a: char, b: char) -> (r: bool)
    ensures
        r == shared_pair(a, b),
{
    (a == 'a' && b == 'a') || (a == 'i' && b == 'i') || (a == 'u' && b == 'u')
        || (a == '~' && b == 'n')
}

fn is_hk_solo(c: char) -> (r: bool)
    ensures
        r == hk_solo(c),
{
    c == 'a' || c == 'A' || c == 'i' || c == 'I'
        || c == 'u' || c == 'U' || c == 'e' || c == 'o'
        || c == 'R' || c == 'M' || c == 'H' || c == 'k'
        || c == 'g' || c == 'G' || c == 'c' || c == 'j'
        || c == 'J' || c == 'T' || c == 'D' || c == 'N'
        || c == 't' || c == 'd' || c == 'n' || c == 'p'
        || c == 'b' || c == 'm' || c == 'y' || c == 'r'
        || c == 'l' || c == 'v' || c == 'z' || c == 'S'
        || c == 's' || c == 'h'
}

/// Tests whether the rule matches the text at position `i`.
fn rule_hit(r: Rule, s: &Vec<char>, i: usize) -> (b: bool)
    requires
        i < s.len(),
    ensures
        b == rule_at(r, s@, i as int),
{
    let n = s.len();
    match r {
        Rule::IastOrKolkata => is_iast_solo(s[i]) || (i + 1 < n && is_iast_pair(s[i], s[i + 1])),
        Rule::KolkataOnly => is_kolkata_solo(s[i]) || (i + 1 < n && is_kolkata_pair(
            s[i],
            s[i + 1],
        )),
        Rule::ItransOnly => (i + 1 < n && is_itrans_pair(s[i], s[i + 1])) || (n - i > 2
            && is_itrans_triple(s[i], s[i + 1], s[i + 2])),
        Rule::Slp1Only => is_slp1_solo(s[i]) || (i + 1 < n && is_slp1_pair(s[i], s[i + 1])),
        Rule::VelthuisOnly => i + 1 < n && is_velthuis_pair(s[i], s[i + 1]),
        Rule::ItransOrVelthuis => i + 1 < n && is_shared_pair(s[i], s[i + 1]),
        Rule::HarvardKyoto => is_hk_solo(s[i]),
    }
}

/// Scans the text left to right for a position where the rule matches.
fn rule_match(r: Rule, s: &Vec<char>) -> (b: bool)
    ensures
        b == rule_matches(r, s@),
{
    let n = s.len();
    let mut i: usize = 0;
    while i < n
        invariant
            i <= n,
            n == s@.len(),
            forall|k: int| 0 <= k < i ==> !rule_at(r, s@, k),
        decreases n - i,
    {
        if rule_hit(r, s, i) {
            proof {
                assert(rule_at(r, s@, i as int));
            }
            return true;
        }
        i = i + 1;
    }
    false
}

/// Assigns a scheme to Brahmic-free text by trying the cascade's rules in
/// their fixed order and returning on the first match, `Unknown` when none
/// matches.
pub fn classify_roman(s: &Vec<char>) -> (r: Scheme)
    ensures
        r == roman_cascade(s@),
{
    if rule_match(Rule::IastOrKolkata, s) {
        if rule_match(Rule::KolkataOnly, s) {
            Scheme::Kolkata
        } else {
            Scheme::Iast
        }
    } else if rule_match(Rule::ItransOnly, s) {
        Scheme::Itrans
    } else if rule_match(Rule::Slp1Only, s) {
        Scheme::Slp1
    } else if rule_match(Rule::VelthuisOnly, s) {
        Scheme::Velthuis
    } else if rule_match(Rule::ItransOrVelthuis, s) {
        Scheme::Itrans
    } else if rule_match(Rule::HarvardKyoto, s) {
        Scheme::HarvardKyoto
    } else {
        Scheme::Unknown
    }
}

} // verus!
