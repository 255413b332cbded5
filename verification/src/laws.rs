//! Classification laws: what the two-stage classifier guarantees for whole
//! classes of inputs.

use crate::brahmic;
use crate::detect;
use crate::normalize;
use crate::roman;
use crate::scheme::Scheme;
use vstd::prelude::*;

verus! {

/// Cleaned text that carries any Brahmic code point always classifies as one
/// of the nine Brahmic scripts, never as a Roman convention, whatever
/// Roman-looking material stands beside the Brahmic character.
pub proof fn lemma_brahmic_always_wins(t: Seq<char>)
    requires
        exists|i: int| 0 <= i < t.len() && brahmic::is_brahmic_char(t[i]),
    ensures
        detect::classify_clean(t).is_brahmic_script(),
{
    brahmic::lemma_first_brahmic_from_range(t, 0);
    brahmic::lemma_brahmic_script_in_range(brahmic::spec_first_brahmic(t));
}

/// The same guarantee stated of raw text: when the text still carries a
/// Brahmic code point after its control syntax is stripped, detection names
/// one of the nine Brahmic scripts.
pub proof fn lemma_brahmic_always_wins_detect(s: Seq<char>)
    requires
        exists|i: int|
            0 <= i < normalize::normalize_spec(s).len() && brahmic::is_brahmic_char(
                normalize::normalize_spec(s)[i],
            ),
    ensures
        detect::detect_spec(s).is_brahmic_script(),
{
    lemma_brahmic_always_wins(normalize::normalize_spec(s));
}

/// Cleaned text with no Brahmic code point and no position matching any
/// rule of the Romanization cascade classifies as `Unknown`.
pub proof fn lemma_nothing_matches_unknown(t: Seq<char>)
    requires
        forall|i: int| 0 <= i < t.len() ==> !brahmic::is_brahmic_char(t[i]),
        forall|r: roman::Rule| !roman::rule_matches(r, t),
    ensures
        detect::classify_clean(t) == Scheme::Unknown,
{
    brahmic::lemma_first_brahmic_from_range(t, 0);
    assert(!roman::rule_matches(roman::Rule::IastOrKolkata, t));
    assert(!roman::rule_matches(roman::Rule::ItransOnly, t));
    assert(!roman::rule_matches(roman::Rule::Slp1Only, t));
    assert(!roman::rule_matches(roman::Rule::VelthuisOnly, t));
    assert(!roman::rule_matches(roman::Rule::ItransOrVelthuis, t));
    assert(!roman::rule_matches(roman::Rule::HarvardKyoto, t));
}

/// The same guarantee stated of raw text: when nothing in the cleaned text
/// is Brahmic and no cascade rule matches it, detection reports `Unknown`.
pub proof fn lemma_nothing_matches_unknown_detect(s: Seq<char>)
    requires
        forall|i: int|
            0 <= i < normalize::normalize_spec(s).len() ==> !brahmic::is_brahmic_char(
                normalize::normalize_spec(s)[i],
            ),
        forall|r: roman::Rule| !roman::rule_matches(r, normalize::normalize_spec(s)),
    ensures
        detect::detect_spec(s) == Scheme::Unknown,
{
    lemma_nothing_matches_unknown(normalize::normalize_spec(s));
}

/// Cascade precedence: Brahmic-free cleaned text that matches the
/// IAST/Kolkata diacritic rule classifies as IAST or Kolkata — even when it
/// also matches the ITRANS rule, since the diacritic rule is tried first.
pub proof fn lemma_iast_precedes_itrans(t: Seq<char>)
    requires
        forall|i: int| 0 <= i < t.len() ==> !brahmic::is_brahmic_char(t[i]),
        roman::rule_matches(roman::Rule::IastOrKolkata, t),
        roman::rule_matches(roman::Rule::ItransOnly, t),
    ensures
        detect::classify_clean(t) == Scheme::Iast || detect::classify_clean(t) == Scheme::Kolkata,
{
    brahmic::lemma_first_brahmic_from_range(t, 0);
}

/// The same precedence stated of raw text: when the cleaned text is
/// Brahmic-free and matches the IAST/Kolkata rule, detection never reports
/// ITRANS, whatever ITRANS material the text also carries.
pub proof fn lemma_iast_precedes_itrans_detect(s: Seq<char>)
    requires
        forall|i: int|
            0 <= i < normalize::normalize_spec(s).len() ==> !brahmic::is_brahmic_char(
                normalize::normalize_spec(s)[i],
            ),
        roman::rule_matches(roman::Rule::IastOrKolkata, normalize::normalize_spec(s)),
        roman::rule_matches(roman::Rule::ItransOnly, normalize::normalize_spec(s)),
    ensures
        detect::detect_spec(s) == Scheme::Iast || detect::detect_spec(s) == Scheme::Kolkata,
{
    lemma_iast_precedes_itrans(normalize::normalize_spec(s));
}

} // verus!
