//! Language selection (Turkish / English).
//!
//! The active language is passed explicitly as `en` (true = English); the
//! program keeps the flag and hands it to the library.
use vstd::prelude::*;

verus! {

/// One of two fixed texts, by language.
pub fn tr(en: bool, turkish: &'static str, english: &'static str) -> (r: &'static str)
    ensures
        r == (if en { english } else { turkish }),
{
    if en {
        english
    } else {
        turkish
    }
}

/// One of two computed texts, by language.
pub fn pick(en: bool, turkish: String, english: String) -> (r: String)
    ensures
        r == (if en { english } else { turkish }),
{
    if en {
        english
    } else {
        turkish
    }
}

/// The language setting the program keeps while it runs: English or
/// Turkish (the default).
pub struct LangFlag {
    en: bool,
}

impl LangFlag {
    /// Whether English is chosen.
    pub closed spec fn english(&self) -> bool {
        self.en
    }

    /// A setting with Turkish chosen.
    pub fn new() -> (f: LangFlag)
        ensures
            !f.english(),
    {
        LangFlag { en: false }
    }

    /// Whether English is chosen.
    pub fn is_en(&self) -> (r: bool)
        ensures
            r == self.english(),
    {
        self.en
    }

    /// Chooses English (`true`) or Turkish (`false`).
    pub fn set_en(&mut self, v: bool)
        ensures
            final(self).english() == v,
    {
        self.en = v;
    }
}

} // verus!
