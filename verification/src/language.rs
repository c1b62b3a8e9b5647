//! Supported document languages and the parser for language selectors.
use vstd::prelude::*;
use crate::textfmt::push_char;

verus! {

/// The languages a label dictionary exists for.
#[derive(Debug, Clone, Copy, PartialEq, Eq, Structural)]
pub enum Language {
    English,
    German,
    French,
    Spanish,
    Portuguese,
    Thai,
    Italian,
}

/// ASCII lowercase of one character; anything outside `A`..`Z` is kept.
pub open spec fn lower_char(c: char) -> char {
    if 65 <= c as u32 && c as u32 <= 90 {
        ((c as u32) + 32) as char
    } else {
        c
    }
}

/// ASCII lowercase of a character sequence.
pub open spec fn lower_seq(s: Seq<char>) -> Seq<char> {
    s.map_values(|c: char| lower_char(c))
}

/// The language a selector string names: the two-letter code or the full
/// English name, compared without regard to ASCII case.
pub open spec fn spec_language_from(s: Seq<char>) -> Option<Language> {
    let t = lower_seq(s);
    if t == "en"@ || t == "english"@ {
        Some(Language::English)
    } else if t == "de"@ || t == "german"@ {
        Some(Language::German)
    } else if t == "fr"@ || t == "french"@ {
        Some(Language::French)
    } else if t == "es"@ || t == "spanish"@ {
        Some(Language::Spanish)
    } else if t == "pt"@ || t == "portuguese"@ {
        Some(Language::Portuguese)
    } else if t == "th"@ || t == "thai"@ {
        Some(Language::Thai)
    } else if t == "it"@ || t == "italian"@ {
        Some(Language::Italian)
    } else {
        None
    }
}

fn lower_char_of(c: char) -> (r: char)
    ensures
        r == lower_char(c),
{
    let u = c as u32;
    if 65 <= u && u <= 90 {
        ((u + 32) as u8) as char
    } else {
        c
    }
}

fn ascii_lower(s: &str) -> (r: String)
    ensures
        r@ == lower_seq(s@),
{
    let n = s.unicode_len();
    let mut out = String::new();
    let mut i: usize = 0;
    while i < n
        invariant
            i <= n,
            n == s@.len(),
            out@ == lower_seq(s@).take(i as int),
        decreases n - i,
    {
        let c = s.get_char(i);
        let lc = lower_char_of(c);
        push_char(&mut out, lc);
        proof {
            assert(out@ =~= lower_seq(s@).take(i as int + 1));
        }
        i = i + 1;
    }
    proof {
        assert(out@ =~= lower_seq(s@));
    }
    out
}

fn str_eq_str(a: &str, b: &str) -> (r: bool)
    ensures
        r == (a@ == b@),
{
    let na = a.unicode_len();
    let nb = b.unicode_len();
    if na != nb {
        return false;
    }
    let mut i: usize = 0;
    while i < na
        invariant
            i <= na,
            na == a@.len(),
            na == b@.len(),
            forall|j: int| 0 <= j < i ==> a@[j] == b@[j],
        decreases na - i,
    {
        let ca = a.get_char(i);
        let cb = b.get_char(i);
        if ca != cb {
            return false;
        }
        i = i + 1;
    }
    proof {
        assert(a@ =~= b@);
    }
    true
}

impl Language {
    /// Parses a language selector: the two-letter code or the full English
    /// name, in any ASCII case.  Unsupported selectors give `None`.
    pub fn from_str(s: &str) -> (r: Option<Language>)
        ensures
            r == spec_language_from(s@),
    {
        let lower = ascii_lower(s);
        let t = lower.as_str();
        if str_eq_str(t, "en") || str_eq_str(t, "english") {
            Some(Language::English)
        } else if str_eq_str(t, "de") || str_eq_str(t, "german") {
            Some(Language::German)
        } else if str_eq_str(t, "fr") || str_eq_str(t, "french") {
            Some(Language::French)
        } else if str_eq_str(t, "es") || str_eq_str(t, "spanish") {
            Some(Language::Spanish)
        } else if str_eq_str(t, "pt") || str_eq_str(t, "portuguese") {
            Some(Language::Portuguese)
        } else if str_eq_str(t, "th") || str_eq_str(t, "thai") {
            Some(Language::Thai)
        } else if str_eq_str(t, "it") || str_eq_str(t, "italian") {
            Some(Language::Italian)
        } else {
            None
        }
    }

    /// The two-letter code of the language.
    pub fn code(&self) -> (r: &'static str)
        ensures
            r@ == match self {
                Language::English => "en"@,
                Language::German => "de"@,
                Language::French => "fr"@,
                Language::Spanish => "es"@,
                Language::Portuguese => "pt"@,
                Language::Thai => "th"@,
                Language::Italian => "it"@,
            },
    {
        match self {
            Language::English => "en",
            Language::German => "de",
            Language::French => "fr",
            Language::Spanish => "es",
            Language::Portuguese => "pt",
            Language::Thai => "th",
            Language::Italian => "it",
        }
    }

    /// The English name of the language.
    pub fn name(&self) -> (r: &'static str)
        ensures
            r@ == match self {
                Language::English => "English"@,
                Language::German => "German"@,
                Language::French => "French"@,
                Language::Spanish => "Spanish"@,
                Language::Portuguese => "Portuguese"@,
                Language::Thai => "Thai"@,
                Language::Italian => "Italian"@,
            },
    {
        match self {
            Language::English => "English",
            Language::German => "German",
            Language::French => "French",
            Language::Spanish => "Spanish",
            Language::Portuguese => "Portuguese",
            Language::Thai => "Thai",
            Language::Italian => "Italian",
        }
    }
}

impl Default for Language {
    /// The language used when none is selected.
    fn default() -> (r: Self)
        ensures
            r == Language::English,
    {
        Language::English
    }
}

} // verus!
