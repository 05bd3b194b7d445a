//! Month representations with language support.

use vstd::prelude::*;

use crate::instant::{lemma_add_months_props, ring_steps, Instant};
use crate::language::Language;
use crate::traits::{FromLanguage, WithLanguage};

verus! {

#[derive(Debug, Clone, Copy, PartialEq, Eq, Structural)]
pub enum January {
    English,
    Swedish,
}

impl Default for January {
    fn default() -> (r: Self)
        ensures
            r == January::English,
    {
        January::English
    }
}

impl WithLanguage for January {
    open spec fn spec_with_language(self, language: Language) -> Self {
        match language {
            Language::English(_) => January::English,
            Language::Swedish(_) => January::Swedish,
        }
    }

    fn with_language(&self, language: Language) -> (r: Self) {
        match language {
            Language::English(_) => January::English,
            Language::Swedish(_) => January::Swedish,
        }
    }
}

impl FromLanguage for January {
    open spec fn spec_from_language(language: Language) -> Self {
        match language {
            Language::English(_) => January::English,
            Language::Swedish(_) => January::Swedish,
        }
    }

    fn from_language(language: Language) -> (r: Self) {
        match language {
            Language::English(_) => January::English,
            Language::Swedish(_) => January::Swedish,
        }
    }
}

impl January {
    pub fn text(&self) -> (r: String)
        ensures
            r@ == (match *self {
                January::English => "January"@,
                January::Swedish => "Januari"@,
            }),
    {
        match *self {
            January::English => String::from_str("January"),
            January::Swedish => String::from_str("Januari"),
        }
    }
}

#[derive(Debug, Clone, Copy, PartialEq, Eq, Structural)]
pub enum February {
    English,
    Swedish,
}

impl Default for February {
    fn default() -> (r: Self)
        ensures
            r == February::English,
    {
        February::English
    }
}

impl WithLanguage for February {
    open spec fn spec_with_language(self, language: Language) -> Self {
        match language {
            Language::English(_) => February::English,
            Language::Swedish(_) => February::Swedish,
        }
    }

    fn with_language(&self, language: Language) -> (r: Self) {
        match language {
            Language::English(_) => February::English,
            Language::Swedish(_) => February::Swedish,
        }
    }
}

impl FromLanguage for February {
    open spec fn spec_from_language(language: Language) -> Self {
        match language {
            Language::English(_) => February::English,
            Language::Swedish(_) => February::Swedish,
        }
    }

    fn from_language(language: Language) -> (r: Self) {
        match language {
            Language::English(_) => February::English,
            Language::Swedish(_) => February::Swedish,
        }
    }
}

impl February {
    pub fn text(&self) -> (r: String)
        ensures
            r@ == (match *self {
                February::English => "February"@,
                February::Swedish => "Februari"@,
            }),
    {
        match *self {
            February::English => String::from_str("February"),
            February::Swedish => String::from_str("Februari"),
        }
    }
}

#[derive(Debug, Clone, Copy, PartialEq, Eq, Structural)]
pub enum March {
    English,
    Swedish,
}

impl Default for March {
    fn default() -> (r: Self)
        ensures
            r == March::English,
    {
        March::English
    }
}

impl WithLanguage for March {
    open spec fn spec_with_language(self, language: Language) -> Self {
        match language {
            Language::English(_) => March::English,
            Language::Swedish(_) => March::Swedish,
        }
    }

    fn with_language(&self, language: Language) -> (r: Self) {
        match language {
            Language::English(_) => March::English,
            Language::Swedish(_) => March::Swedish,
        }
    }
}

impl FromLanguage for March {
    open spec fn spec_from_language(language: Language) -> Self {
        match language {
            Language::English(_) => March::English,
            Language::Swedish(_) => March::Swedish,
        }
    }

    fn from_language(language: Language) -> (r: Self) {
        match language {
            Language::English(_) => March::English,
            Language::Swedish(_) => March::Swedish,
        }
    }
}

impl March {
    pub fn text(&self) -> (r: String)
        ensures
            r@ == (match *self {
                March::English => "March"@,
                March::Swedish => "Mars"@,
            }),
    {
        match *self {
            March::English => String::from_str("March"),
            March::Swedish => String::from_str("Mars"),
        }
    }
}

#[derive(Debug, Clone, Copy, PartialEq, Eq, Structural)]
pub enum April {
    English,
    Swedish,
}

impl Default for April {
    fn default() -> (r: Self)
        ensures
            r == April::English,
    {
        April::English
    }
}

impl WithLanguage for April {
    open spec fn spec_with_language(self, language: Language) -> Self {
        match language {
            Language::English(_) => April::English,
            Language::Swedish(_) => April::Swedish,
        }
    }

    fn with_language(&self, language: Language) -> (r: Self) {
        match language {
            Language::English(_) => April::English,
            Language::Swedish(_) => April::Swedish,
        }
    }
}

impl FromLanguage for April {
    open spec fn spec_from_language(language: Language) -> Self {
        match language {
            Language::English(_) => April::English,
            Language::Swedish(_) => April::Swedish,
        }
    }

    fn from_language(language: Language) -> (r: Self) {
        match language {
            Language::English(_) => April::English,
            Language::Swedish(_) => April::Swedish,
        }
    }
}

impl April {
    pub fn text(&self) -> (r: String)
        ensures
            r@ == (match *self {
                April::English => "April"@,
                April::Swedish => "April"@,
            }),
    {
        match *self {
            April::English => String::from_str("April"),
            April::Swedish => String::from_str("April"),
        }
    }
}

#[derive(Debug, Clone, Copy, PartialEq, Eq, Structural)]
pub enum May {
    English,
    Swedish,
}

impl Default for May {
    fn default() -> (r: Self)
        ensures
            r == May::English,
    {
        May::English
    }
}

impl WithLanguage for May {
    open spec fn spec_with_language(self, language: Language) -> Self {
        match language {
            Language::English(_) => May::English,
            Language::Swedish(_) => May::Swedish,
        }
    }

    fn with_language(&self, language: Language) -> (r: Self) {
        match language {
            Language::English(_) => May::English,
            Language::Swedish(_) => May::Swedish,
        }
    }
}

impl FromLanguage for May {
    open spec fn spec_from_language(language: Language) -> Self {
        match language {
            Language::English(_) => May::English,
            Language::Swedish(_) => May::Swedish,
        }
    }

    fn from_language(language: Language) -> (r: Self) {
        match language {
            Language::English(_) => May::English,
            Language::Swedish(_) => May::Swedish,
        }
    }
}

impl May {
    pub fn text(&self) -> (r: String)
        ensures
            r@ == (match *self {
                May::English => "May"@,
                May::Swedish => "Maj"@,
            }),
    {
        match *self {
            May::English => String::from_str("May"),
            May::Swedish => String::from_str("Maj"),
        }
    }
}

#[derive(Debug, Clone, Copy, PartialEq, Eq, Structural)]
pub enum June {
    English,
    Swedish,
}

impl Default for June {
    fn default() -> (r: Self)
        ensures
            r == June::English,
    {
        June::English
    }
}

impl WithLanguage for June {
    open spec fn spec_with_language(self, language: Language) -> Self {
        match language {
            Language::English(_) => June::English,
            Language::Swedish(_) => June::Swedish,
        }
    }

    fn with_language(&self, language: Language) -> (r: Self) {
        match language {
            Language::English(_) => June::English,
            Language::Swedish(_) => June::Swedish,
        }
    }
}

impl FromLanguage for June {
    open spec fn spec_from_language(language: Language) -> Self {
        match language {
            Language::English(_) => June::English,
            Language::Swedish(_) => June::Swedish,
        }
    }

    fn from_language(language: Language) -> (r: Self) {
        match language {
            Language::English(_) => June::English,
            Language::Swedish(_) => June::Swedish,
        }
    }
}

impl June {
    pub fn text(&self) -> (r: String)
        ensures
            r@ == (match *self {
                June::English => "June"@,
                June::Swedish => "Juni"@,
            }),
    {
        match *self {
            June::English => String::from_str("June"),
            June::Swedish => String::from_str("Juni"),
        }
    }
}

#[derive(Debug, Clone, Copy, PartialEq, Eq, Structural)]
pub enum July {
    English,
    Swedish,
}

impl Default for July {
    fn default() -> (r: Self)
        ensures
            r == July::English,
    {
        July::English
    }
}

impl WithLanguage for July {
    open spec fn spec_with_language(self, language: Language) -> Self {
        match language {
            Language::English(_) => July::English,
            Language::Swedish(_) => July::Swedish,
        }
    }

    fn with_language(&self, language: Language) -> (r: Self) {
        match language {
            Language::English(_) => July::English,
            Language::Swedish(_) => July::Swedish,
        }
    }
}

impl FromLanguage for July {
    open spec fn spec_from_language(language: Language) -> Self {
        match language {
            Language::English(_) => July::English,
            Language::Swedish(_) => July::Swedish,
        }
    }

    fn from_language(language: Language) -> (r: Self) {
        match language {
            Language::English(_) => July::English,
            Language::Swedish(_) => July::Swedish,
        }
    }
}

impl July {
    pub fn text(&self) -> (r: String)
        ensures
            r@ == (match *self {
                July::English => "July"@,
                July::Swedish => "Juli"@,
            }),
    {
        match *self {
            July::English => String::from_str("July"),
            July::Swedish => String::from_str("Juli"),
        }
    }
}

#[derive(Debug, Clone, Copy, PartialEq, Eq, Structural)]
pub enum August {
    English,
    Swedish,
}

impl Default for August {
    fn default() -> (r: Self)
        ensures
            r == August::English,
    {
        August::English
    }
}

impl WithLanguage for August {
    open spec fn spec_with_language(self, language: Language) -> Self {
        match language {
            Language::English(_) => August::English,
            Language::Swedish(_) => August::Swedish,
        }
    }

    fn with_language(&self, language: Language) -> (r: Self) {
        match language {
            Language::English(_) => August::English,
            Language::Swedish(_) => August::Swedish,
        }
    }
}

impl FromLanguage for August {
    open spec fn spec_from_language(language: Language) -> Self {
        match language {
            Language::English(_) => August::English,
            Language::Swedish(_) => August::Swedish,
        }
    }

    fn from_language(language: Language) -> (r: Self) {
        match language {
            Language::English(_) => August::English,
            Language::Swedish(_) => August::Swedish,
        }
    }
}

impl August {
    pub fn text(&self) -> (r: String)
        ensures
            r@ == (match *self {
                August::English => "August"@,
                August::Swedish => "Augusti"@,
            }),
    {
        match *self {
            August::English => String::from_str("August"),
            August::Swedish => String::from_str("Augusti"),
        }
    }
}

#[derive(Debug, Clone, Copy, PartialEq, Eq, Structural)]
pub enum September {
    English,
    Swedish,
}

impl Default for September {
    fn default() -> (r: Self)
        ensures
            r == September::English,
    {
        September::English
    }
}

impl WithLanguage for September {
    open spec fn spec_with_language(self, language: Language) -> Self {
        match language {
            Language::English(_) => September::English,
            Language::Swedish(_) => September::Swedish,
        }
    }

    fn with_language(&self, language: Language) -> (r: Self) {
        match language {
            Language::English(_) => September::English,
            Language::Swedish(_) => September::Swedish,
        }
    }
}

impl FromLanguage for September {
    open spec fn spec_from_language(language: Language) -> Self {
        match language {
            Language::English(_) => September::English,
            Language::Swedish(_) => September::Swedish,
        }
    }

    fn from_language(language: Language) -> (r: Self) {
        match language {
            Language::English(_) => September::English,
            Language::Swedish(_) => September::Swedish,
        }
    }
}

impl September {
    pub fn text(&self) -> (r: String)
        ensures
            r@ == (match *self {
                September::English => "September"@,
                September::Swedish => "September"@,
            }),
    {
        match *self {
            September::English => String::from_str("September"),
            September::Swedish => String::from_str("September"),
        }
    }
}

#[derive(Debug, Clone, Copy, PartialEq, Eq, Structural)]
pub enum October {
    English,
    Swedish,
}

impl Default for October {
    fn default() -> (r: Self)
        ensures
            r == October::English,
    {
        October::English
    }
}

impl WithLanguage for October {
    open spec fn spec_with_language(self, language: Language) -> Self {
        match language {
            Language::English(_) => October::English,
            Language::Swedish(_) => October::Swedish,
        }
    }

    fn with_language(&self, language: Language) -> (r: Self) {
        match language {
            Language::English(_) => October::English,
            Language::Swedish(_) => October::Swedish,
        }
    }
}

impl FromLanguage for October {
    open spec fn spec_from_language(language: Language) -> Self {
        match language {
            Language::English(_) => October::English,
            Language::Swedish(_) => October::Swedish,
        }
    }

    fn from_language(language: Language) -> (r: Self) {
        match language {
            Language::English(_) => October::English,
            Language::Swedish(_) => October::Swedish,
        }
    }
}

impl October {
    pub fn text(&self) -> (r: String)
        ensures
            r@ == (match *self {
                October::English => "October"@,
                October::Swedish => "Oktober"@,
            }),
    {
        match *self {
            October::English => String::from_str("October"),
            October::Swedish => String::from_str("Oktober"),
        }
    }
}

#[derive(Debug, Clone, Copy, PartialEq, Eq, Structural)]
pub enum November {
    English,
    Swedish,
}

impl Default for November {
    fn default() -> (r: Self)
        ensures
            r == November::English,
    {
        November::English
    }
}

impl WithLanguage for November {
    open spec fn spec_with_language(self, language: Language) -> Self {
        match language {
            Language::English(_) => November::English,
            Language::Swedish(_) => November::Swedish,
        }
    }

    fn with_language(&self, language: Language) -> (r: Self) {
        match language {
            Language::English(_) => November::English,
            Language::Swedish(_) => November::Swedish,
        }
    }
}

impl FromLanguage for November {
    open spec fn spec_from_language(language: Language) -> Self {
        match language {
            Language::English(_) => November::English,
            Language::Swedish(_) => November::Swedish,
        }
    }

    fn from_language(language: Language) -> (r: Self) {
        match language {
            Language::English(_) => November::English,
            Language::Swedish(_) => November::Swedish,
        }
    }
}

impl November {
    pub fn text(&self) -> (r: String)
        ensures
            r@ == (match *self {
                November::English => "November"@,
                November::Swedish => "November"@,
            }),
    {
        match *self {
            November::English => String::from_str("November"),
            November::Swedish => String::from_str("November"),
        }
    }
}

#[derive(Debug, Clone, Copy, PartialEq, Eq, Structural)]
pub enum December {
    English,
    Swedish,
}

impl Default for December {
    fn default() -> (r: Self)
        ensures
            r == December::English,
    {
        December::English
    }
}

impl WithLanguage for December {
    open spec fn spec_with_language(self, language: Language) -> Self {
        match language {
            Language::English(_) => December::English,
            Language::Swedish(_) => December::Swedish,
        }
    }

    fn with_language(&self, language: Language) -> (r: Self) {
        match language {
            Language::English(_) => December::English,
            Language::Swedish(_) => December::Swedish,
        }
    }
}

impl FromLanguage for December {
    open spec fn spec_from_language(language: Language) -> Self {
        match language {
            Language::English(_) => December::English,
            Language::Swedish(_) => December::Swedish,
        }
    }

    fn from_language(language: Language) -> (r: Self) {
        match language {
            Language::English(_) => December::English,
            Language::Swedish(_) => December::Swedish,
        }
    }
}

impl December {
    pub fn text(&self) -> (r: String)
        ensures
            r@ == (match *self {
                December::English => "December"@,
                December::Swedish => "December"@,
            }),
    {
        match *self {
            December::English => String::from_str("December"),
            December::Swedish => String::from_str("December"),
        }
    }
}

/// A month with language-specific representations.
#[derive(Debug, Clone, Copy, PartialEq, Eq, Structural)]
pub enum Month {
    January(January),
    February(February),
    March(March),
    April(April),
    May(May),
    June(June),
    July(July),
    August(August),
    September(September),
    October(October),
    November(November),
    December(December),
}

impl WithLanguage for Month {
    open spec fn spec_with_language(self, language: Language) -> Self {
        match self {
            Month::January(x) => Month::January(x.spec_with_language(language)),
            Month::February(x) => Month::February(x.spec_with_language(language)),
            Month::March(x) => Month::March(x.spec_with_language(language)),
            Month::April(x) => Month::April(x.spec_with_language(language)),
            Month::May(x) => Month::May(x.spec_with_language(language)),
            Month::June(x) => Month::June(x.spec_with_language(language)),
            Month::July(x) => Month::July(x.spec_with_language(language)),
            Month::August(x) => Month::August(x.spec_with_language(language)),
            Month::September(x) => Month::September(x.spec_with_language(language)),
            Month::October(x) => Month::October(x.spec_with_language(language)),
            Month::November(x) => Month::November(x.spec_with_language(language)),
            Month::December(x) => Month::December(x.spec_with_language(language)),
        }
    }

    fn with_language(&self, language: Language) -> (r: Self) {
        match self {
            Month::January(x) => Month::January(x.with_language(language)),
            Month::February(x) => Month::February(x.with_language(language)),
            Month::March(x) => Month::March(x.with_language(language)),
            Month::April(x) => Month::April(x.with_language(language)),
            Month::May(x) => Month::May(x.with_language(language)),
            Month::June(x) => Month::June(x.with_language(language)),
            Month::July(x) => Month::July(x.with_language(language)),
            Month::August(x) => Month::August(x.with_language(language)),
            Month::September(x) => Month::September(x.with_language(language)),
            Month::October(x) => Month::October(x.with_language(language)),
            Month::November(x) => Month::November(x.with_language(language)),
            Month::December(x) => Month::December(x.with_language(language)),
        }
    }
}

impl Month {
    pub fn january() -> (r: Self)
        ensures
            r == Month::January(January::English),
    {
        Month::January(January::default())
    }

    pub fn february() -> (r: Self)
        ensures
            r == Month::February(February::English),
    {
        Month::February(February::default())
    }

    pub fn march() -> (r: Self)
        ensures
            r == Month::March(March::English),
    {
        Month::March(March::default())
    }

    pub fn april() -> (r: Self)
        ensures
            r == Month::April(April::English),
    {
        Month::April(April::default())
    }

    pub fn may() -> (r: Self)
        ensures
            r == Month::May(May::English),
    {
        Month::May(May::default())
    }

    pub fn june() -> (r: Self)
        ensures
            r == Month::June(June::English),
    {
        Month::June(June::default())
    }

    pub fn july() -> (r: Self)
        ensures
            r == Month::July(July::English),
    {
        Month::July(July::default())
    }

    pub fn august() -> (r: Self)
        ensures
            r == Month::August(August::English),
    {
        Month::August(August::default())
    }

    pub fn september() -> (r: Self)
        ensures
            r == Month::September(September::English),
    {
        Month::September(September::default())
    }

    pub fn october() -> (r: Self)
        ensures
            r == Month::October(October::English),
    {
        Month::October(October::default())
    }

    pub fn november() -> (r: Self)
        ensures
            r == Month::November(November::English),
    {
        Month::November(November::default())
    }

    pub fn december() -> (r: Self)
        ensures
            r == Month::December(December::English),
    {
        Month::December(December::default())
    }

    /// The position on the twelve-month ring, numbered from January = 1.
    pub open spec fn spec_number(self) -> int {
        match self {
            Month::January(_) => 1,
            Month::February(_) => 2,
            Month::March(_) => 3,
            Month::April(_) => 4,
            Month::May(_) => 5,
            Month::June(_) => 6,
            Month::July(_) => 7,
            Month::August(_) => 8,
            Month::September(_) => 9,
            Month::October(_) => 10,
            Month::November(_) => 11,
            Month::December(_) => 12,
        }
    }

    pub fn number_from_month(self) -> (r: i64)
        ensures
            r == self.spec_number(),
    {
        match self {
            Month::January(_) => 1,
            Month::February(_) => 2,
            Month::March(_) => 3,
            Month::April(_) => 4,
            Month::May(_) => 5,
            Month::June(_) => 6,
            Month::July(_) => 7,
            Month::August(_) => 8,
            Month::September(_) => 9,
            Month::October(_) => 10,
            Month::November(_) => 11,
            Month::December(_) => 12,
        }
    }

    /// The month in position `n` (January = 1 through December = 12, with 0
    /// wrapping back to December), labelled in the given language.
    pub open spec fn spec_from_number(n: int, language: Language) -> Month {
        if n == 1 {
            Month::January(January::spec_from_language(language))
        } else if n == 2 {
            Month::February(February::spec_from_language(language))
        } else if n == 3 {
            Month::March(March::spec_from_language(language))
        } else if n == 4 {
            Month::April(April::spec_from_language(language))
        } else if n == 5 {
            Month::May(May::spec_from_language(language))
        } else if n == 6 {
            Month::June(June::spec_from_language(language))
        } else if n == 7 {
            Month::July(July::spec_from_language(language))
        } else if n == 8 {
            Month::August(August::spec_from_language(language))
        } else if n == 9 {
            Month::September(September::spec_from_language(language))
        } else if n == 10 {
            Month::October(October::spec_from_language(language))
        } else if n == 11 {
            Month::November(November::spec_from_language(language))
        } else {
            Month::December(December::spec_from_language(language))
        }
    }

    pub open spec fn spec_from_chrono(
        date_time: Instant,
        first_midnight_means_month_before: bool,
        language: Language,
    ) -> Month {
        let n = date_time.month as int;
        let adjusted = if first_midnight_means_month_before && date_time.day == 1
            && date_time.is_midnight() {
            n - 1
        } else {
            n
        };
        Month::spec_from_number(adjusted, language)
    }

    /// Extracts the month from a timestamp in the specified language.
    ///
    /// When `first_midnight_means_month_before` is true, midnight on the first
    /// of the month is treated as belonging to the previous month.
    pub fn from_chrono(
        date_time: Instant,
        first_midnight_means_month_before: bool,
        language: Language,
    ) -> (r: Month)
        requires
            date_time.wf(),
        ensures
            r == Month::spec_from_chrono(date_time, first_midnight_means_month_before, language),
    {
        let month_number: i64 = date_time.month;
        let month_number: i64 = if first_midnight_means_month_before && date_time.day == 1
            && date_time.hour == 0 && date_time.minute == 0 && date_time.second == 0 {
            month_number - 1
        } else {
            month_number
        };
        if month_number == 1 {
            Month::January(January::from_language(language))
        } else if month_number == 2 {
            Month::February(February::from_language(language))
        } else if month_number == 3 {
            Month::March(March::from_language(language))
        } else if month_number == 4 {
            Month::April(April::from_language(language))
        } else if month_number == 5 {
            Month::May(May::from_language(language))
        } else if month_number == 6 {
            Month::June(June::from_language(language))
        } else if month_number == 7 {
            Month::July(July::from_language(language))
        } else if month_number == 8 {
            Month::August(August::from_language(language))
        } else if month_number == 9 {
            Month::September(September::from_language(language))
        } else if month_number == 10 {
            Month::October(October::from_language(language))
        } else if month_number == 11 {
            Month::November(November::from_language(language))
        } else {
            Month::December(December::from_language(language))
        }
    }

    /// Midnight on the first of the month after the located occurrence of
    /// this month: the next occurrence at or after the reference month,
    /// pushed a full year ahead by `skip_self` on an exact match, plus one
    /// month, at the start of that month.
    pub open spec fn spec_to_chrono_max(self, rel: Instant, skip_self: bool) -> Instant {
        let steps = ring_steps(self.spec_number(), rel.month as int, 12, skip_self);
        rel.spec_add_months_day1(steps + 1)
    }

    /// Converts to midnight on the first of the following month, relative to
    /// the given time.
    ///
    /// When `skip_self` is true, finds the next occurrence even if the
    /// current month matches.
    pub fn to_chrono_max(self, relative_to: Instant, skip_self: bool) -> (r: Instant)
        requires
            relative_to.wf(),
            0 <= relative_to.year <= 20000,
        ensures
            r == self.spec_to_chrono_max(relative_to, skip_self),
            r.wf(),
            r.is_midnight(),
            relative_to.lt_spec(r),
            relative_to.year <= r.year <= relative_to.year + 2,
    {
        let current_month: i64 = relative_to.month;
        let target_month: i64 = self.number_from_month();
        let difference: i64 = target_month - current_month;
        let non_negative: i64 = if difference < 0 {
            12 + difference
        } else {
            difference
        };
        let skipped: i64 = if non_negative == 0 && skip_self {
            12
        } else {
            non_negative
        };
        let months_to_add: i64 = skipped + 1;
        let r = relative_to.add_months_day1(months_to_add);
        proof {
            let total = relative_to.month - 1 + months_to_add;
            assert(0 <= total <= 24);
            if total < 12 {
                vstd::arithmetic::div_mod::lemma_basic_div(total, 12);
                vstd::arithmetic::div_mod::lemma_small_mod(total as nat, 12);
            } else {
                let q: int = if total < 24 {
                    1
                } else {
                    2
                };
                vstd::arithmetic::div_mod::lemma_fundamental_div_mod_converse(
                    total,
                    12,
                    q,
                    total - q * 12,
                );
            }
            assert(relative_to.month <= total);
        }
        r
    }
}

/// Law: the located occurrence is genuine. The month just before the returned
/// upper bound's month is the anchor's own month.
pub proof fn lemma_month_max_lands_on_anchor(m: Month, rel: Instant, skip_self: bool)
    requires
        rel.wf(),
        0 <= rel.year <= 20000,
    ensures
        ({
            let r = m.spec_to_chrono_max(rel, skip_self);
            let before: int = if r.month == 1 {
                12
            } else {
                r.month - 1
            };
            before == m.spec_number()
        }),
{
    let target = m.spec_number();
    let cur = rel.month as int;
    let steps = ring_steps(target, cur, 12, skip_self);
    let total = cur - 1 + steps + 1;
    lemma_add_months_props(rel, steps + 1);
    assert(total == target || total == target + 12);
    if total < 12 {
        vstd::arithmetic::div_mod::lemma_basic_div(total, 12);
        vstd::arithmetic::div_mod::lemma_small_mod(total as nat, 12);
    } else if total < 24 {
        vstd::arithmetic::div_mod::lemma_fundamental_div_mod_converse(total, 12, 1, total - 12);
    } else {
        vstd::arithmetic::div_mod::lemma_fundamental_div_mod_converse(total, 12, 2, 0);
    }
}

/// Law: reverse extraction inverts resolution. Reading the month back from
/// the returned upper bound, with a first-of-month midnight counted as
/// belonging to the previous month, recovers the anchor, labelled in the
/// requested language.
pub proof fn lemma_month_from_chrono_round_trip(
    m: Month,
    rel: Instant,
    skip_self: bool,
    language: Language,
)
    requires
        rel.wf(),
        0 <= rel.year <= 20000,
    ensures
        Month::spec_from_chrono(m.spec_to_chrono_max(rel, skip_self), true, language)
            == Month::spec_from_number(m.spec_number(), language),
{
    lemma_month_max_lands_on_anchor(m, rel, skip_self);
    let steps = ring_steps(m.spec_number(), rel.month as int, 12, skip_self);
    lemma_add_months_props(rel, steps + 1);
}

/// Law: skip-self monotonicity. When the anchor names the reference's own
/// month, resolving with skip-self lands exactly one full cycle — twelve
/// months — after resolving without it.
pub proof fn lemma_skip_self_month(m: Month, t: Instant)
    requires
        t.wf(),
        0 <= t.year <= 20000,
        m.spec_number() == t.month,
    ensures
        m.spec_to_chrono_max(t, true) == m.spec_to_chrono_max(t, false).spec_add_months_day1(12),
        m.spec_to_chrono_max(t, false).lt_spec(m.spec_to_chrono_max(t, true)),
{
    let f = m.spec_to_chrono_max(t, false);
    let g = m.spec_to_chrono_max(t, true);
    assert(ring_steps(m.spec_number(), t.month as int, 12, false) == 0);
    assert(ring_steps(m.spec_number(), t.month as int, 12, true) == 12);
    lemma_add_months_props(t, 1);
    lemma_add_months_props(t, 13);
    if t.month < 12 {
        vstd::arithmetic::div_mod::lemma_basic_div(t.month - 1 + 1, 12);
        vstd::arithmetic::div_mod::lemma_small_mod((t.month - 1 + 1) as nat, 12);
        vstd::arithmetic::div_mod::lemma_fundamental_div_mod_converse(
            t.month - 1 + 13,
            12,
            1,
            t.month as int,
        );
        vstd::arithmetic::div_mod::lemma_fundamental_div_mod_converse(
            f.month - 1 + 12,
            12,
            1,
            f.month - 1,
        );
    } else {
        vstd::arithmetic::div_mod::lemma_fundamental_div_mod_converse(t.month - 1 + 1, 12, 1, 0);
        vstd::arithmetic::div_mod::lemma_fundamental_div_mod_converse(t.month - 1 + 13, 12, 2, 0);
        vstd::arithmetic::div_mod::lemma_fundamental_div_mod_converse(
            f.month - 1 + 12,
            12,
            1,
            f.month - 1,
        );
    }
}

} // verus!
