//! Detection of the encoding scheme of a Sanskrit text sample.
//!
//! Given a piece of text, the library decides which of nine Brahmic scripts
//! (Devanagari through Malayalam) or six Roman transliteration conventions
//! (IAST, Kolkata, ITRANS, SLP1, Velthuis, Harvard-Kyoto) it is written in,
//! or reports that no scheme could be recognized.  Detection runs in three
//! stages: control syntax is stripped from the text, the text is scanned for
//! a code point in the Brahmic Unicode range, and only if none is found is an
//! ordered cascade of Roman-scheme pattern rules consulted.

pub mod brahmic;
pub mod detect;
pub mod laws;
pub mod normalize;
pub mod roman;
pub mod scheme;
