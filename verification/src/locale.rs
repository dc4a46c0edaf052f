//! The locales that posts are written in, their language names, and their
//! correspondence with the languages that the detector knows.

use vstd::prelude::*;

use crate::text::str_eq;

verus! {

/// A locale that the website serves.
#[derive(Clone, Copy, Debug, PartialEq, Eq, Structural, Hash)]
pub enum SupportedLocale {
    En,
    Zh,
    ZhTw,
}

/// A language that the language detector can tell apart.
#[derive(Clone, Copy, Debug, PartialEq, Eq, Structural, Hash)]
pub enum Language {
    English,
    Chinese,
}

/// Conversion from a supported locale.
pub trait FromSupportedLocale: Sized {
    fn from_supported_locale(locale: SupportedLocale) -> Self;
}

/// Conversion from a detected language.
pub trait FromLanguage: Sized {
    fn from_language(language: Language) -> Self;
}

/// Every value of an enumeration, in a fixed order.
pub trait AllCases: Sized {
    fn all_cases() -> Vec<Self>;
}

/// The human name of the language a locale is written in.
pub trait LocaleLanguageName: Sized {
    fn typical_language_name(&self) -> &'static str;

    fn from_typical_language_name(name: &str) -> Option<Self>;
}

/// The detector language that a locale is written in.
pub open spec fn spec_language_of(locale: SupportedLocale) -> Language {
    match locale {
        SupportedLocale::En => Language::English,
        // The detector does not tell Simplified from Traditional Chinese.
        SupportedLocale::Zh => Language::Chinese,
        SupportedLocale::ZhTw => Language::Chinese,
    }
}

/// The locale that a detected language is taken for.
pub open spec fn spec_locale_of(language: Language) -> SupportedLocale {
    match language {
        Language::Chinese => SupportedLocale::Zh,
        Language::English => SupportedLocale::ZhTw,
    }
}

/// The order in which the locales are listed.
pub open spec fn spec_all_locales() -> Seq<SupportedLocale> {
    seq![SupportedLocale::En, SupportedLocale::ZhTw, SupportedLocale::Zh]
}

/// The name under which a locale's language is shown and chosen.
pub open spec fn spec_language_name(locale: SupportedLocale) -> Seq<char> {
    match locale {
        SupportedLocale::En => "English"@,
        SupportedLocale::Zh => "Simplified Chinese"@,
        SupportedLocale::ZhTw => "Traditional Chinese"@,
    }
}

/// The locale whose language goes by `name`, if any.
pub open spec fn spec_locale_named(name: Seq<char>) -> Option<SupportedLocale> {
    if name == "English"@ {
        Some(SupportedLocale::En)
    } else if name == "Simplified Chinese"@ {
        Some(SupportedLocale::Zh)
    } else if name == "Traditional Chinese"@ {
        Some(SupportedLocale::ZhTw)
    } else {
        None
    }
}

impl FromSupportedLocale for Language {
    fn from_supported_locale(locale: SupportedLocale) -> (r: Self)
        ensures
            r == spec_language_of(locale),
    {
        match locale {
            SupportedLocale::En => Language::English,
            SupportedLocale::Zh => Language::Chinese,
            SupportedLocale::ZhTw => Language::Chinese,
        }
    }
}

impl FromLanguage for SupportedLocale {
    fn from_language(language: Language) -> (r: Self)
        ensures
            r == spec_locale_of(language),
    {
        match language {
            Language::Chinese => SupportedLocale::Zh,
            Language::English => SupportedLocale::ZhTw,
        }
    }
}

impl AllCases for SupportedLocale {
    fn all_cases() -> (r: Vec<Self>)
        ensures
            r@ == spec_all_locales(),
    {
        let mut v: Vec<SupportedLocale> = Vec::new();
        v.push(SupportedLocale::En);
        v.push(SupportedLocale::ZhTw);
        v.push(SupportedLocale::Zh);
        v
    }
}

impl LocaleLanguageName for SupportedLocale {
    fn typical_language_name(&self) -> (r: &'static str)
        ensures
            r@ == spec_language_name(*self),
    {
        match self {
            SupportedLocale::En => "English",
            SupportedLocale::Zh => "Simplified Chinese",
            SupportedLocale::ZhTw => "Traditional Chinese",
        }
    }

    fn from_typical_language_name(name: &str) -> (r: Option<Self>)
        ensures
            r == spec_locale_named(name@),
    {
        if str_eq(name, "English") {
            Some(SupportedLocale::En)
        } else if str_eq(name, "Simplified Chinese") {
            Some(SupportedLocale::Zh)
        } else if str_eq(name, "Traditional Chinese") {
            Some(SupportedLocale::ZhTw)
        } else {
            None
        }
    }
}

/// Every locale is listed exactly once.
pub proof fn lemma_all_locales_listed_once(l: SupportedLocale)
    ensures
        spec_all_locales().contains(l),
        spec_all_locales().no_duplicates(),
{
    let s = spec_all_locales();
    match l {
        SupportedLocale::En => assert(s[0] == l),
        SupportedLocale::ZhTw => assert(s[1] == l),
        SupportedLocale::Zh => assert(s[2] == l),
    }
}

/// Reading back the language name of a locale gives that locale: the names
/// shown in a poll identify the locale that was voted for.
pub proof fn lemma_language_name_round_trip(l: SupportedLocale)
    ensures
        spec_locale_named(spec_language_name(l)) == Some(l),
{
    reveal_strlit("English");
    reveal_strlit("Simplified Chinese");
    reveal_strlit("Traditional Chinese");
    match l {
        SupportedLocale::En => {},
        SupportedLocale::Zh => {
            assert("Simplified Chinese"@.len() != "English"@.len());
        },
        SupportedLocale::ZhTw => {
            assert("Traditional Chinese"@.len() != "English"@.len());
            assert("Traditional Chinese"@.len() != "Simplified Chinese"@.len());
        },
    }
}

/// A name is read as a locale only when it is that locale's language name.
pub proof fn lemma_locale_named_inverse(name: Seq<char>, l: SupportedLocale)
    ensures
        spec_locale_named(name) == Some(l) <==> name == spec_language_name(l),
{
    lemma_language_name_round_trip(l);
}

} // verus!
