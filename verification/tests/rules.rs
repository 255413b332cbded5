use sanscript::detect::detect_scheme;

#[test]
fn detect_bengali() {
    assert_eq!(detect_scheme("অ"), 2);
}

#[test]
fn detect_gurmukhi() {
    assert_eq!(detect_scheme("ਅ"), 3);
}

#[test]
fn detect_gujarati() {
    assert_eq!(detect_scheme("અ"), 4);
}

#[test]
fn detect_oriya() {
    assert_eq!(detect_scheme("ଅ"), 5);
}

#[test]
fn detect_tamil() {
    assert_eq!(detect_scheme("அ"), 6);
}

#[test]
fn detect_telugu() {
    assert_eq!(detect_scheme("అ"), 7);
}

#[test]
fn detect_kannada() {
    assert_eq!(detect_scheme("ಅ"), 8);
}

#[test]
fn first_brahmic_hit_decides_not_lowest() {
    // Kannada comes first in text order even though Devanagari has the
    // lower code point, so the sample is Kannada.
    assert_eq!(detect_scheme("ಅन"), 8);
}

#[test]
fn brahmic_beats_roman_rules() {
    // "sh" is an ITRANS-only digraph, but one Devanagari character settles it.
    assert_eq!(detect_scheme("sh न"), 1);
}

#[test]
fn detect_kolkata_precomposed() {
    // The long o with macron is Kolkata-specific; the other diacritics alone
    // would be IAST.
    assert_eq!(detect_scheme("gōpālaḥ"), 11);
}

#[test]
fn detect_kolkata_combining_macron() {
    assert_eq!(detect_scheme("o\u{0304}m"), 11);
}

#[test]
fn detect_iast_combining_macron() {
    assert_eq!(detect_scheme("a\u{0304}"), 10);
}

#[test]
fn iast_precedes_itrans() {
    // Matches both the IAST diacritic rule and the ITRANS trigraph rule;
    // the diacritic rule is tried first.
    assert_eq!(detect_scheme("āchh"), 10);
}

#[test]
fn detect_itrans_digraph() {
    assert_eq!(detect_scheme("shiva"), 12);
}

#[test]
fn detect_itrans_trigraph() {
    assert_eq!(detect_scheme("kRRiShNa"), 12);
}

#[test]
fn detect_itrans_chh() {
    assert_eq!(detect_scheme("gachhati"), 12);
}

#[test]
fn shared_sequences_default_to_itrans() {
    // "aa" belongs to both ITRANS and Velthuis; the tie breaks to ITRANS.
    assert_eq!(detect_scheme("raama"), 12);
}

#[test]
fn detect_slp1_bigram() {
    assert_eq!(detect_scheme("kzatriya"), 13);
}

#[test]
fn detect_slp1_letter() {
    assert_eq!(detect_scheme("Bagavat"), 13);
}

#[test]
fn detect_velthuis_dotted() {
    assert_eq!(detect_scheme(".rta"), 14);
}

#[test]
fn detect_velthuis_tilde_s() {
    assert_eq!(detect_scheme("~siva"), 14);
}

#[test]
fn detect_velthuis_quote_n() {
    assert_eq!(detect_scheme("\"nana"), 14);
}

#[test]
fn detect_hk_fallback() {
    assert_eq!(detect_scheme("namaH"), 15);
}

#[test]
fn empty_text_is_unknown() {
    assert_eq!(detect_scheme(""), 0);
}

#[test]
fn punctuation_and_digits_are_unknown() {
    assert_eq!(detect_scheme("?! 0123"), 0);
}

#[test]
fn control_block_hides_its_content() {
    assert_eq!(detect_scheme("##shiva##"), 0);
}

#[test]
fn text_outside_blocks_still_classified() {
    assert_eq!(detect_scheme("{#shiva#}ā"), 10);
}

#[test]
fn escaped_marker_removed_before_detection() {
    assert_eq!(detect_scheme("\\##shiva"), 12);
}

#[test]
fn stripping_runs_before_the_brahmic_scan() {
    // The only Brahmic character sits inside a control block, so the cleaned
    // text is classified by the Roman cascade instead.
    assert_eq!(detect_scheme("##न##raama"), 12);
}
