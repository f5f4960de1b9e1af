use vstd::prelude::*;

verus! {

/// The interface languages the first-boot picker offers.
#[derive(Debug, Clone, Copy, PartialEq, Eq, Structural)]
pub enum Language {
    En,
    Fr,
    Ja,
}

/// The fixed interface strings for one language.
#[derive(Debug, Clone, Copy)]
pub struct Strings {
    pub app_name: &'static str,
}

/// The strings shown for a language; the application name is the same brand
/// name everywhere.
pub fn strings(language: Language) -> (r: Strings)
    ensures
        r.app_name@ == "AUGUSTINUS"@,
{
    match language {
        Language::En => Strings { app_name: "AUGUSTINUS" },
        Language::Fr => Strings { app_name: "AUGUSTINUS" },
        Language::Ja => Strings { app_name: "AUGUSTINUS" },
    }
}

/// The list position of a language in the first-boot picker.
pub fn language_to_index(language: Language) -> (r: usize)
    ensures
        language == Language::En ==> r == 0,
        language == Language::Fr ==> r == 1,
        language == Language::Ja ==> r == 2,
{
    match language {
        Language::En => 0,
        Language::Fr => 1,
        Language::Ja => 2,
    }
}

/// The language at a picker position; anything past the list is the last
/// entry.
pub fn index_to_language(index: usize) -> (r: Language)
    ensures
        index == 0 ==> r == Language::En,
        index == 1 ==> r == Language::Fr,
        index >= 2 ==> r == Language::Ja,
{
    if index == 0 {
        Language::En
    } else if index == 1 {
        Language::Fr
    } else {
        Language::Ja
    }
}

} // verus!
