//! The closed set of recognizable encoding schemes and their fixed numbering.

use vstd::prelude::*;

verus! {

/// One of the sixteen possible detection results: `Unknown`, nine Brahmic
/// scripts, or six Roman transliteration conventions.
///
/// Each variant has a fixed numeric identity given by [`Scheme::id`]; that
/// numbering (0 for `Unknown`, 1–9 for the Brahmic scripts in canonical
/// order, 10–15 for the Roman schemes) is a stable contract that external
/// mapping tables rely on.
#[derive(Clone, Copy, Debug, PartialEq, Eq, Structural)]
pub enum Scheme {
    Unknown,
    Devanagari,
    Bengali,
    Gurmukhi,
    Gujarati,
    Oriya,
    Tamil,
    Telugu,
    Kannada,
    Malayalam,
    Iast,
    Kolkata,
    Itrans,
    Slp1,
    Velthuis,
    HarvardKyoto,
}

impl Scheme {
    /// The fixed numeric identity of each scheme.
    pub open spec fn spec_id(self) -> int {
        match self {
            Scheme::Unknown => 0,
            Scheme::Devanagari => 1,
            Scheme::Bengali => 2,
            Scheme::Gurmukhi => 3,
            Scheme::Gujarati => 4,
            Scheme::Oriya => 5,
            Scheme::Tamil => 6,
            Scheme::Telugu => 7,
            Scheme::Kannada => 8,
            Scheme::Malayalam => 9,
            Scheme::Iast => 10,
            Scheme::Kolkata => 11,
            Scheme::Itrans => 12,
            Scheme::Slp1 => 13,
            Scheme::Velthuis => 14,
            Scheme::HarvardKyoto => 15,
        }
    }

    /// True of the nine Brahmic script results.
    pub open spec fn is_brahmic_script(self) -> bool {
        1 <= self.spec_id() <= 9
    }

    /// The numeric identity of the scheme, per the fixed numbering.
    pub fn id(self) -> (r: usize)
        ensures
            r == self.spec_id(),
    {
        match self {
            Scheme::Unknown => 0,
            Scheme::Devanagari => 1,
            Scheme::Bengali => 2,
            Scheme::Gurmukhi => 3,
            Scheme::Gujarati => 4,
            Scheme::Oriya => 5,
            Scheme::Tamil => 6,
            Scheme::Telugu => 7,
            Scheme::Kannada => 8,
            Scheme::Malayalam => 9,
            Scheme::Iast => 10,
            Scheme::Kolkata => 11,
            Scheme::Itrans => 12,
            Scheme::Slp1 => 13,
            Scheme::Velthuis => 14,
            Scheme::HarvardKyoto => 15,
        }
    }

    /// The symbolic name of each scheme in the fixed sixteen-entry table that
    /// host bindings use.
    pub open spec fn spec_name(self) -> Seq<char> {
        match self {
            Scheme::Unknown => "unknown"@,
            Scheme::Devanagari => "devanagari"@,
            Scheme::Bengali => "bengali"@,
            Scheme::Gurmukhi => "gurmukhi"@,
            Scheme::Gujarati => "gujarati"@,
            Scheme::Oriya => "oriya"@,
            Scheme::Tamil => "tamil"@,
            Scheme::Telugu => "telugu"@,
            Scheme::Kannada => "kannada"@,
            Scheme::Malayalam => "malayalam"@,
            Scheme::Iast => "iast"@,
            Scheme::Kolkata => "kolkata"@,
            Scheme::Itrans => "itrans"@,
            Scheme::Slp1 => "slp1"@,
            Scheme::Velthuis => "velthuis"@,
            Scheme::HarvardKyoto => "hk"@,
        }
    }

    /// The symbolic name of the scheme, as host bindings expose it.
    pub fn name(self) -> (r: &'static str)
        ensures
            r@ == self.spec_name(),
    {
        match self {
            Scheme::Unknown => "unknown",
            Scheme::Devanagari => "devanagari",
            Scheme::Bengali => "bengali",
            Scheme::Gurmukhi => "gurmukhi",
            Scheme::Gujarati => "gujarati",
            Scheme::Oriya => "oriya",
            Scheme::Tamil => "tamil",
            Scheme::Telugu => "telugu",
            Scheme::Kannada => "kannada",
            Scheme::Malayalam => "malayalam",
            Scheme::Iast => "iast",
            Scheme::Kolkata => "kolkata",
            Scheme::Itrans => "itrans",
            Scheme::Slp1 => "slp1",
            Scheme::Velthuis => "velthuis",
            Scheme::HarvardKyoto => "hk",
        }
    }
}

} // verus!
