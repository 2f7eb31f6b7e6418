//! Supported display languages and per-language names.

use vstd::prelude::*;

verus! {

/// Number of supported languages: the variants of `SLang`.
pub const COUNT_SUPPORTED_LANGUAGES: u16 = 2;

/// Supported language, by its ISO 639-1 code.
#[derive(Clone, Copy, Debug, PartialEq, Eq, Structural)]
pub enum SLang {
    RU,
    EN,
}

/// Whether a display name counts as a translation: an empty name does not.
pub open spec fn is_translated(name: Seq<char>) -> bool {
    name.len() > 0
}

/// 1 for a translated name, 0 for an empty one.
pub open spec fn translated_count(name: Seq<char>) -> nat {
    if is_translated(name) {
        1
    } else {
        0
    }
}

/// The display name of a material in each supported language; an empty
/// string stands for a missing translation.
#[derive(Clone, Copy, Debug)]
pub struct Names {
    pub ru: &'static str,
    pub en: &'static str,
}

impl Names {
    /// The name in `lang`.
    pub open spec fn name_in(self, lang: SLang) -> Seq<char> {
        match lang {
            SLang::RU => self.ru@,
            SLang::EN => self.en@,
        }
    }

    /// How many supported languages have a non-empty name.
    pub open spec fn progress(self) -> nat {
        translated_count(self.name_in(SLang::RU)) + translated_count(self.name_in(SLang::EN))
    }

    /// Whether every supported language has a non-empty name.
    pub open spec fn complete(self) -> bool {
        self.progress() == COUNT_SUPPORTED_LANGUAGES
    }

    pub fn new(ru: &'static str, en: &'static str) -> (r: Names)
        ensures
            r.ru@ == ru@,
            r.en@ == en@,
    {
        Names { ru, en }
    }

    /// The name in `lang`, or an empty string where it is not translated.
    pub fn get(&self, lang: SLang) -> (r: &'static str)
        ensures
            r@ == self.name_in(lang),
    {
        match lang {
            SLang::RU => self.ru,
            SLang::EN => self.en,
        }
    }

    /// The number of supported languages with a non-empty name.
    pub fn count_translated(&self) -> (r: u16)
        ensures
            r as nat == self.progress(),
            r <= COUNT_SUPPORTED_LANGUAGES,
    {
        let mut n: u16 = 0;
        if !self.ru.is_empty() {
            n = n + 1;
        }
        if !self.en.is_empty() {
            n = n + 1;
        }
        n
    }
}

} // verus!
