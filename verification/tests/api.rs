use sanscript::detect::{detect, first_brahmic_char, rbstr_detect_scheme};
use sanscript::scheme::Scheme;

#[test]
fn detect_returns_the_scheme_value() {
    assert_eq!(detect("ā"), Scheme::Iast);
    assert_eq!(detect("न"), Scheme::Devanagari);
    assert_eq!(detect(""), Scheme::Unknown);
}

#[test]
fn scheme_ids_follow_the_fixed_numbering() {
    assert_eq!(Scheme::Unknown.id(), 0);
    assert_eq!(Scheme::Devanagari.id(), 1);
    assert_eq!(Scheme::Malayalam.id(), 9);
    assert_eq!(Scheme::Iast.id(), 10);
    assert_eq!(Scheme::Kolkata.id(), 11);
    assert_eq!(Scheme::Itrans.id(), 12);
    assert_eq!(Scheme::Slp1.id(), 13);
    assert_eq!(Scheme::Velthuis.id(), 14);
    assert_eq!(Scheme::HarvardKyoto.id(), 15);
}

#[test]
fn scheme_names_follow_the_fixed_table() {
    assert_eq!(Scheme::Unknown.name(), "unknown");
    assert_eq!(Scheme::Devanagari.name(), "devanagari");
    assert_eq!(Scheme::Bengali.name(), "bengali");
    assert_eq!(Scheme::Gurmukhi.name(), "gurmukhi");
    assert_eq!(Scheme::Gujarati.name(), "gujarati");
    assert_eq!(Scheme::Oriya.name(), "oriya");
    assert_eq!(Scheme::Tamil.name(), "tamil");
    assert_eq!(Scheme::Telugu.name(), "telugu");
    assert_eq!(Scheme::Kannada.name(), "kannada");
    assert_eq!(Scheme::Malayalam.name(), "malayalam");
    assert_eq!(Scheme::Iast.name(), "iast");
    assert_eq!(Scheme::Kolkata.name(), "kolkata");
    assert_eq!(Scheme::Itrans.name(), "itrans");
    assert_eq!(Scheme::Slp1.name(), "slp1");
    assert_eq!(Scheme::Velthuis.name(), "velthuis");
    assert_eq!(Scheme::HarvardKyoto.name(), "hk");
}

#[test]
fn rbstr_detect_scheme_names_the_result() {
    assert_eq!(rbstr_detect_scheme("nānāśāstra"), "iast");
    assert_eq!(rbstr_detect_scheme("न"), "devanagari");
    assert_eq!(rbstr_detect_scheme(""), "unknown");
}

#[test]
fn first_brahmic_char_returns_the_code_point() {
    assert_eq!(first_brahmic_char("abc"), 0);
    assert_eq!(first_brahmic_char("abनcd"), 0x0928);
    assert_eq!(first_brahmic_char("ಅन"), 0x0C85);
}
