//! The closed set of locale selectors, each with its own spellings.

use vstd::prelude::*;

use crate::traits::{FromLanguage, WithLanguage};

verus! {

/// The Swedish selector, labelled either in English or in Swedish.
#[derive(Debug, Clone, Copy, PartialEq, Eq, Structural)]
pub enum Swedish {
    Swedish,
    Svenska,
}

impl Default for Swedish {
    fn default() -> (r: Self)
        ensures
            r == Swedish::Swedish,
    {
        Swedish::Swedish
    }
}

impl WithLanguage for Swedish {
    open spec fn spec_with_language(self, language: Language) -> Self {
        match language {
            Language::English(_) => Swedish::Swedish,
            Language::Swedish(_) => Swedish::Svenska,
        }
    }

    fn with_language(&self, language: Language) -> (r: Self) {
        match language {
            Language::English(_) => Swedish::Swedish,
            Language::Swedish(_) => Swedish::Svenska,
        }
    }
}

impl FromLanguage for Swedish {
    open spec fn spec_from_language(language: Language) -> Self {
        match language {
            Language::English(_) => Swedish::Swedish,
            Language::Swedish(_) => Swedish::Svenska,
        }
    }

    fn from_language(language: Language) -> (r: Self) {
        match language {
            Language::English(_) => Swedish::Swedish,
            Language::Swedish(_) => Swedish::Svenska,
        }
    }
}

impl Swedish {
    pub fn text(&self) -> (r: String)
        ensures
            r@ == (match *self {
                Swedish::Swedish => "Swedish"@,
                Swedish::Svenska => "Svenska"@,
            }),
    {
        match *self {
            Swedish::Swedish => String::from_str("Swedish"),
            Swedish::Svenska => String::from_str("Svenska"),
        }
    }
}

/// The English selector, labelled either in English or in Swedish.
#[derive(Debug, Clone, Copy, PartialEq, Eq, Structural)]
pub enum English {
    English,
    Engelska,
}

impl Default for English {
    fn default() -> (r: Self)
        ensures
            r == English::English,
    {
        English::English
    }
}

impl WithLanguage for English {
    open spec fn spec_with_language(self, language: Language) -> Self {
        match language {
            Language::English(_) => English::English,
            Language::Swedish(_) => English::Engelska,
        }
    }

    fn with_language(&self, language: Language) -> (r: Self) {
        match language {
            Language::English(_) => English::English,
            Language::Swedish(_) => English::Engelska,
        }
    }
}

impl FromLanguage for English {
    open spec fn spec_from_language(language: Language) -> Self {
        match language {
            Language::English(_) => English::English,
            Language::Swedish(_) => English::Engelska,
        }
    }

    fn from_language(language: Language) -> (r: Self) {
        match language {
            Language::English(_) => English::English,
            Language::Swedish(_) => English::Engelska,
        }
    }
}

impl English {
    pub fn text(&self) -> (r: String)
        ensures
            r@ == (match *self {
                English::English => "English"@,
                English::Engelska => "Engelska"@,
            }),
    {
        match *self {
            English::English => String::from_str("English"),
            English::Engelska => String::from_str("Engelska"),
        }
    }
}

/// A language selector: the closed set of supported locales.
#[derive(Debug, Clone, Copy, PartialEq, Eq, Structural)]
pub enum Language {
    English(English),
    Swedish(Swedish),
}

impl Default for Language {
    fn default() -> (r: Self)
        ensures
            r == Language::English(English::English),
    {
        Language::English(English::English)
    }
}

impl WithLanguage for Language {
    open spec fn spec_with_language(self, language: Language) -> Self {
        language
    }

    fn with_language(&self, language: Language) -> (r: Self) {
        language
    }
}

impl FromLanguage for Language {
    open spec fn spec_from_language(language: Language) -> Self {
        language
    }

    fn from_language(language: Language) -> (r: Self) {
        language
    }
}

} // verus!
