//! Traits for language-aware time types.

use vstd::prelude::*;

use crate::language::Language;

verus! {

/// Converts a time type to a specific language representation. Re-labelling
/// never changes the semantic identity of the value, only its spelling.
pub trait WithLanguage: Sized {
    spec fn spec_with_language(self, language: Language) -> Self;

    fn with_language(&self, language: Language) -> (r: Self)
        ensures
            r == self.spec_with_language(language),
    ;
}

/// Creates a time type in a specific language from its default representation.
pub trait FromLanguage: Sized {
    spec fn spec_from_language(language: Language) -> Self;

    fn from_language(language: Language) -> (r: Self)
        ensures
            r == Self::spec_from_language(language),
    ;
}

} // verus!
