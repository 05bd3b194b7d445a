//! Relative windows and the tagged union of relative forms.

use vstd::prelude::*;

use crate::exact::{ExactDate, ExactDateTime, ExactTime};
use crate::instant::{
    lemma_add_days_compose, lemma_add_days_props, lemma_midnight_add_commute, lemma_sub_days_props,
    lemma_sub_days_year_bound, ring_steps, Instant,
};
use crate::language::{English, Language};
use crate::month::Month;
use crate::traits::{FromLanguage, WithLanguage};
use crate::weekday::{Sunday, Weekday};

verus! {

#[derive(Debug, Clone, Copy, PartialEq, Eq, Structural)]
pub enum Today {
    English,
    Swedish,
}

impl Default for Today {
    fn default() -> (r: Self)
        ensures
            r == Today::English,
    {
        Today::English
    }
}

impl WithLanguage for Today {
    open spec fn spec_with_language(self, language: Language) -> Self {
        match language {
            Language::English(_) => Today::English,
            Language::Swedish(_) => Today::Swedish,
        }
    }

    fn with_language(&self, language: Language) -> (r: Self) {
        match language {
            Language::English(_) => Today::English,
            Language::Swedish(_) => Today::Swedish,
        }
    }
}

impl FromLanguage for Today {
    open spec fn spec_from_language(language: Language) -> Self {
        match language {
            Language::English(_) => Today::English,
            Language::Swedish(_) => Today::Swedish,
        }
    }

    fn from_language(language: Language) -> (r: Self) {
        match language {
            Language::English(_) => Today::English,
            Language::Swedish(_) => Today::Swedish,
        }
    }
}

impl Today {
    pub fn text(&self) -> (r: String)
        ensures
            r@ == (match *self {
                Today::English => "Today"@,
                Today::Swedish => "Idag"@,
            }),
    {
        match *self {
            Today::English => String::from_str("Today"),
            Today::Swedish => String::from_str("Idag"),
        }
    }
}

#[derive(Debug, Clone, Copy, PartialEq, Eq, Structural)]
pub enum Tomorrow {
    English,
    Swedish,
}

impl Default for Tomorrow {
    fn default() -> (r: Self)
        ensures
            r == Tomorrow::English,
    {
        Tomorrow::English
    }
}

impl WithLanguage for Tomorrow {
    open spec fn spec_with_language(self, language: Language) -> Self {
        match language {
            Language::English(_) => Tomorrow::English,
            Language::Swedish(_) => Tomorrow::Swedish,
        }
    }

    fn with_language(&self, language: Language) -> (r: Self) {
        match language {
            Language::English(_) => Tomorrow::English,
            Language::Swedish(_) => Tomorrow::Swedish,
        }
    }
}

impl FromLanguage for Tomorrow {
    open spec fn spec_from_language(language: Language) -> Self {
        match language {
            Language::English(_) => Tomorrow::English,
            Language::Swedish(_) => Tomorrow::Swedish,
        }
    }

    fn from_language(language: Language) -> (r: Self) {
        match language {
            Language::English(_) => Tomorrow::English,
            Language::Swedish(_) => Tomorrow::Swedish,
        }
    }
}

impl Tomorrow {
    pub fn text(&self) -> (r: String)
        ensures
            r@ == (match *self {
                Tomorrow::English => "Tomorrow"@,
                Tomorrow::Swedish => "Imorgon"@,
            }),
    {
        match *self {
            Tomorrow::English => String::from_str("Tomorrow"),
            Tomorrow::Swedish => String::from_str("Imorgon"),
        }
    }
}

#[derive(Debug, Clone, Copy, PartialEq, Eq, Structural)]
pub enum ThisWeek {
    English,
    Swedish,
}

impl Default for ThisWeek {
    fn default() -> (r: Self)
        ensures
            r == ThisWeek::English,
    {
        ThisWeek::English
    }
}

impl WithLanguage for ThisWeek {
    open spec fn spec_with_language(self, language: Language) -> Self {
        match language {
            Language::English(_) => ThisWeek::English,
            Language::Swedish(_) => ThisWeek::Swedish,
        }
    }

    fn with_language(&self, language: Language) -> (r: Self) {
        match language {
            Language::English(_) => ThisWeek::English,
            Language::Swedish(_) => ThisWeek::Swedish,
        }
    }
}

impl FromLanguage for ThisWeek {
    open spec fn spec_from_language(language: Language) -> Self {
        match language {
            Language::English(_) => ThisWeek::English,
            Language::Swedish(_) => ThisWeek::Swedish,
        }
    }

    fn from_language(language: Language) -> (r: Self) {
        match language {
            Language::English(_) => ThisWeek::English,
            Language::Swedish(_) => ThisWeek::Swedish,
        }
    }
}

impl ThisWeek {
    pub fn text(&self) -> (r: String)
        ensures
            r@ == (match *self {
                ThisWeek::English => "ThisWeek"@,
                ThisWeek::Swedish => "DennaVecka"@,
            }),
    {
        match *self {
            ThisWeek::English => String::from_str("ThisWeek"),
            ThisWeek::Swedish => String::from_str("DennaVecka"),
        }
    }
}

#[derive(Debug, Clone, Copy, PartialEq, Eq, Structural)]
pub enum NextWeek {
    English,
    Swedish,
}

impl Default for NextWeek {
    fn default() -> (r: Self)
        ensures
            r == NextWeek::English,
    {
        NextWeek::English
    }
}

impl WithLanguage for NextWeek {
    open spec fn spec_with_language(self, language: Language) -> Self {
        match language {
            Language::English(_) => NextWeek::English,
            Language::Swedish(_) => NextWeek::Swedish,
        }
    }

    fn with_language(&self, language: Language) -> (r: Self) {
        match language {
            Language::English(_) => NextWeek::English,
            Language::Swedish(_) => NextWeek::Swedish,
        }
    }
}

impl FromLanguage for NextWeek {
    open spec fn spec_from_language(language: Language) -> Self {
        match language {
            Language::English(_) => NextWeek::English,
            Language::Swedish(_) => NextWeek::Swedish,
        }
    }

    fn from_language(language: Language) -> (r: Self) {
        match language {
            Language::English(_) => NextWeek::English,
            Language::Swedish(_) => NextWeek::Swedish,
        }
    }
}

impl NextWeek {
    pub fn text(&self) -> (r: String)
        ensures
            r@ == (match *self {
                NextWeek::English => "NextWeek"@,
                NextWeek::Swedish => "NastaVecka"@,
            }),
    {
        match *self {
            NextWeek::English => String::from_str("NextWeek"),
            NextWeek::Swedish => String::from_str("NastaVecka"),
        }
    }
}

#[derive(Debug, Clone, Copy, PartialEq, Eq, Structural)]
pub enum ThisMonth {
    English,
    Swedish,
}

impl Default for ThisMonth {
    fn default() -> (r: Self)
        ensures
            r == ThisMonth::English,
    {
        ThisMonth::English
    }
}

impl WithLanguage for ThisMonth {
    open spec fn spec_with_language(self, language: Language) -> Self {
        match language {
            Language::English(_) => ThisMonth::English,
            Language::Swedish(_) => ThisMonth::Swedish,
        }
    }

    fn with_language(&self, language: Language) -> (r: Self) {
        match language {
            Language::English(_) => ThisMonth::English,
            Language::Swedish(_) => ThisMonth::Swedish,
        }
    }
}

impl FromLanguage for ThisMonth {
    open spec fn spec_from_language(language: Language) -> Self {
        match language {
            Language::English(_) => ThisMonth::English,
            Language::Swedish(_) => ThisMonth::Swedish,
        }
    }

    fn from_language(language: Language) -> (r: Self) {
        match language {
            Language::English(_) => ThisMonth::English,
            Language::Swedish(_) => ThisMonth::Swedish,
        }
    }
}

impl ThisMonth {
    pub fn text(&self) -> (r: String)
        ensures
            r@ == (match *self {
                ThisMonth::English => "ThisMonth"@,
                ThisMonth::Swedish => "DennaManad"@,
            }),
    {
        match *self {
            ThisMonth::English => String::from_str("ThisMonth"),
            ThisMonth::Swedish => String::from_str("DennaManad"),
        }
    }
}

/// A relative form: an exact primitive carried through, or a label-only
/// window whose meaning is entirely reference-dependent.
#[derive(Debug, Clone, Copy, PartialEq, Eq, Structural)]
pub enum Relative {
    Time(ExactTime),
    Date(ExactDate),
    DateTime(ExactDateTime),
    Today(Today),
    Tomorrow(Tomorrow),
    ThisWeek(ThisWeek),
    NextWeek(NextWeek),
    ThisMonth(ThisMonth),
}

impl WithLanguage for Relative {
    open spec fn spec_with_language(self, language: Language) -> Self {
        match self {
            Relative::Time(x) => Relative::Time(x),
            Relative::Date(x) => Relative::Date(x),
            Relative::DateTime(x) => Relative::DateTime(x),
            Relative::Today(x) => Relative::Today(x.spec_with_language(language)),
            Relative::Tomorrow(x) => Relative::Tomorrow(x.spec_with_language(language)),
            Relative::ThisWeek(x) => Relative::ThisWeek(x.spec_with_language(language)),
            Relative::NextWeek(x) => Relative::NextWeek(x.spec_with_language(language)),
            Relative::ThisMonth(x) => Relative::ThisMonth(x.spec_with_language(language)),
        }
    }

    fn with_language(&self, language: Language) -> (r: Self) {
        match self {
            Relative::Time(x) => Relative::Time(*x),
            Relative::Date(x) => Relative::Date(*x),
            Relative::DateTime(x) => Relative::DateTime(*x),
            Relative::Today(x) => Relative::Today(x.with_language(language)),
            Relative::Tomorrow(x) => Relative::Tomorrow(x.with_language(language)),
            Relative::ThisWeek(x) => Relative::ThisWeek(x.with_language(language)),
            Relative::NextWeek(x) => Relative::NextWeek(x.with_language(language)),
            Relative::ThisMonth(x) => Relative::ThisMonth(x.with_language(language)),
        }
    }
}

impl Relative {
    pub fn today() -> (r: Self)
        ensures
            r == Relative::Today(Today::English),
    {
        Relative::Today(Today::default())
    }

    pub fn tomorrow() -> (r: Self)
        ensures
            r == Relative::Tomorrow(Tomorrow::English),
    {
        Relative::Tomorrow(Tomorrow::default())
    }

    pub fn this_week() -> (r: Self)
        ensures
            r == Relative::ThisWeek(ThisWeek::English),
    {
        Relative::ThisWeek(ThisWeek::default())
    }

    pub fn next_week() -> (r: Self)
        ensures
            r == Relative::NextWeek(NextWeek::English),
    {
        Relative::NextWeek(NextWeek::default())
    }

    pub fn this_month() -> (r: Self)
        ensures
            r == Relative::ThisMonth(ThisMonth::English),
    {
        Relative::ThisMonth(ThisMonth::default())
    }

    /// The earliest instant a relative form can denote against the reference.
    pub open spec fn spec_to_chrono_min(self, rel: Instant) -> Instant {
        match self {
            Relative::Time(x) => {
                let t = x.spec_to_chrono();
                rel.spec_with_time(t.0, t.1, t.2)
            },
            Relative::Date(x) => x.spec_to_chrono_min(rel),
            Relative::DateTime(x) => x.spec_to_chrono_min(rel),
            Relative::Today(_) => rel.spec_with_midnight(),
            Relative::Tomorrow(_) => rel.spec_add_days(1).spec_with_midnight(),
            Relative::ThisWeek(_) => Weekday::Sunday(Sunday::English).spec_to_chrono_max(
                rel.spec_sub_days(7),
                false,
            ),
            Relative::NextWeek(_) => Weekday::Sunday(Sunday::English).spec_to_chrono_max(
                rel,
                false,
            ),
            Relative::ThisMonth(_) => Month::spec_from_chrono(
                rel,
                false,
                Language::English(English::English),
            ).spec_to_chrono_max(rel.spec_sub_month_clamped(), false),
        }
    }

    /// The latest instant a relative form can denote against the reference:
    /// the exclusive upper bound of its window.
    pub open spec fn spec_to_chrono_max(self, rel: Instant) -> Instant {
        match self {
            Relative::Time(x) => {
                let t = x.spec_to_chrono();
                if t.0 < rel.hour || (t.0 == rel.hour && t.1 < rel.minute) || (t.0 == rel.hour
                    && t.1 == rel.minute && t.2 < rel.second) {
                    rel.spec_add_days(1).spec_with_time(t.0, t.1, t.2)
                } else {
                    rel.spec_with_time(t.0, t.1, t.2)
                }
            },
            Relative::Date(x) => x.spec_to_chrono_max(rel),
            Relative::DateTime(x) => x.spec_to_chrono_max(rel),
            Relative::Today(_) => rel.spec_add_days(1).spec_with_midnight(),
            Relative::Tomorrow(_) => rel.spec_add_days(2).spec_with_midnight(),
            Relative::ThisWeek(_) => Weekday::Sunday(Sunday::English).spec_to_chrono_max(
                rel,
                false,
            ),
            Relative::NextWeek(_) => Weekday::Sunday(Sunday::English).spec_to_chrono_max(
                rel.spec_add_days(7),
                false,
            ),
            Relative::ThisMonth(_) => Month::spec_from_chrono(
                rel,
                false,
                Language::English(English::English),
            ).spec_to_chrono_max(rel, false),
        }
    }

    /// Converts to the earliest possible timestamp, relative to the given time.
    pub fn to_chrono_min(self, relative_to: Instant) -> (r: Instant)
        requires
            relative_to.wf(),
            1 <= relative_to.year <= 9999,
        ensures
            r == self.spec_to_chrono_min(relative_to),
            r.wf(),
    {
        match self {
            Relative::Time(x) => {
                let (h, m, s) = x.to_chrono();
                relative_to.with_time(h as i64, m as i64, s as i64)
            },
            Relative::Date(x) => x.to_chrono_min(relative_to),
            Relative::DateTime(x) => x.to_chrono_min(relative_to),
            Relative::Today(_) => relative_to.with_midnight(),
            Relative::Tomorrow(_) => {
                proof {
                    lemma_add_days_props(relative_to, 1);
                }
                relative_to.add_days(1).with_midnight()
            },
            Relative::ThisWeek(_) => {
                proof {
                    lemma_sub_days_props(relative_to, 7);
                    lemma_sub_days_year_bound(relative_to, 7);
                }
                let anchor = relative_to.sub_days(7);
                Weekday::sunday().to_chrono_max(anchor, false)
            },
            Relative::NextWeek(_) => Weekday::sunday().to_chrono_max(relative_to, false),
            Relative::ThisMonth(_) => {
                let month = Month::from_chrono(relative_to, false, Language::default());
                let anchor = relative_to.sub_month_clamped();
                month.to_chrono_max(anchor, false)
            },
        }
    }

    /// Converts to the latest possible timestamp, relative to the given time.
    pub fn to_chrono_max(self, relative_to: Instant) -> (r: Instant)
        requires
            relative_to.wf(),
            1 <= relative_to.year <= 9999,
        ensures
            r == self.spec_to_chrono_max(relative_to),
            r.wf(),
    {
        match self {
            Relative::Time(x) => {
                let (h, m, s) = x.to_chrono();
                let earlier = (h as i64) < relative_to.hour || (h as i64 == relative_to.hour && (
                m as i64) < relative_to.minute) || (h as i64 == relative_to.hour && m as i64
                    == relative_to.minute && (s as i64) < relative_to.second);
                if earlier {
                    proof {
                        lemma_add_days_props(relative_to, 1);
                    }
                    relative_to.add_days(1).with_time(h as i64, m as i64, s as i64)
                } else {
                    relative_to.with_time(h as i64, m as i64, s as i64)
                }
            },
            Relative::Date(x) => x.to_chrono_max(relative_to),
            Relative::DateTime(x) => x.to_chrono_max(relative_to),
            Relative::Today(_) => {
                proof {
                    lemma_add_days_props(relative_to, 1);
                }
                relative_to.add_days(1).with_midnight()
            },
            Relative::Tomorrow(_) => {
                proof {
                    lemma_add_days_props(relative_to, 2);
                }
                relative_to.add_days(2).with_midnight()
            },
            Relative::ThisWeek(_) => Weekday::sunday().to_chrono_max(relative_to, false),
            Relative::NextWeek(_) => {
                proof {
                    lemma_add_days_props(relative_to, 7);
                }
                let anchor = relative_to.add_days(7);
                Weekday::sunday().to_chrono_max(anchor, false)
            },
            Relative::ThisMonth(_) => {
                let month = Month::from_chrono(relative_to, false, Language::default());
                month.to_chrono_max(relative_to, false)
            },
        }
    }
}

/// Law: for every relative form the earliest bound never lies after the
/// latest bound, as long as an exact date's two readings are consistently
/// realizable.
pub proof fn lemma_relative_min_le_max(r: Relative, rel: Instant)
    requires
        rel.wf(),
        1 <= rel.year <= 9999,
        r matches Relative::Date(e) ==> e.resolves_consistently(rel),
        r matches Relative::DateTime(e) ==> e.0.resolves_consistently(rel),
    ensures
        r.spec_to_chrono_min(rel).le_spec(r.spec_to_chrono_max(rel)),
{
    match r {
        Relative::Time(_x) => {
            lemma_add_days_props(rel, 1);
            assert(rel.spec_add_days(1) == rel.spec_add_days(0).spec_next_day());
        },
        Relative::Date(e) => {
            e.lemma_min_le_max(rel);
        },
        Relative::DateTime(e) => {
            crate::exact::lemma_datetime_min_le_max(e, rel);
        },
        Relative::Today(_) => {
            lemma_add_days_props(rel, 1);
            assert(rel.spec_add_days(1) == rel.spec_add_days(0).spec_next_day());
        },
        Relative::Tomorrow(_) => {
            lemma_add_days_props(rel, 1);
            lemma_add_days_props(rel, 2);
            assert(rel.spec_add_days(2) == rel.spec_add_days(1).spec_next_day());
        },
        Relative::ThisWeek(_) => {
            lemma_sub_days_props(rel, 7);
            lemma_sub_days_year_bound(rel, 7);
            let rel7 = rel.spec_sub_days(7);
            lemma_add_days_props(rel7, 7);
            assert(rel.spec_day_index() == rel7.spec_day_index() + 7);
            vstd::arithmetic::div_mod::lemma_mod_multiples_vanish(
                1,
                rel7.spec_day_index() as int + 5,
                7,
            );
            assert(rel.weekday() == rel7.weekday());
            let k = ring_steps(7, rel.weekday(), 7, false);
            let n = (k + 1) as nat;
            let mn = Weekday::Sunday(Sunday::English).spec_to_chrono_max(rel7, false);
            let mx = Weekday::Sunday(Sunday::English).spec_to_chrono_max(rel, false);
            lemma_add_days_props(rel7, n);
            lemma_add_days_compose(rel7, 7, n);
            lemma_add_days_compose(rel7, n, 7);
            lemma_midnight_add_commute(rel7.spec_add_days(n), 7);
            assert(mn.spec_add_days(7) == mx);
            lemma_add_days_props(mn, 7);
            assert(mx.spec_with_midnight() == mx);
        },
        Relative::NextWeek(_) => {
            lemma_add_days_props(rel, 7);
            let rel8 = rel.spec_add_days(7);
            assert(rel8.spec_day_index() == rel.spec_day_index() + 7);
            vstd::arithmetic::div_mod::lemma_mod_multiples_vanish(
                1,
                rel.spec_day_index() as int + 5,
                7,
            );
            assert(rel8.weekday() == rel.weekday());
            let k = ring_steps(7, rel.weekday(), 7, false);
            let n = (k + 1) as nat;
            let mn = Weekday::Sunday(Sunday::English).spec_to_chrono_max(rel, false);
            let mx = Weekday::Sunday(Sunday::English).spec_to_chrono_max(rel8, false);
            lemma_add_days_props(rel, n);
            lemma_add_days_compose(rel, 7, n);
            lemma_add_days_compose(rel, n, 7);
            lemma_midnight_add_commute(rel.spec_add_days(n), 7);
            assert(mn.spec_add_days(7) == mx);
            lemma_add_days_props(mn, 7);
            assert(mx.spec_with_midnight() == mx);
        },
        Relative::ThisMonth(_) => {
            lemma_relative_this_month_degenerate(rel);
        },
    }
}

/// Law: the day windows chain. Today's window ends where tomorrow's begins,
/// and tomorrow's window ends exactly one day after today's.
pub proof fn lemma_day_windows_chain(td: Today, tm: Tomorrow, rel: Instant)
    requires
        rel.wf(),
        1 <= rel.year <= 9999,
    ensures
        Relative::Today(td).spec_to_chrono_max(rel) == Relative::Tomorrow(tm).spec_to_chrono_min(
            rel,
        ),
        Relative::Tomorrow(tm).spec_to_chrono_max(rel) == Relative::Today(td).spec_to_chrono_max(
            rel,
        ).spec_add_days(1),
{
    lemma_add_days_compose(rel, 1, 1);
    lemma_midnight_add_commute(rel.spec_add_days(1), 1);
}

/// Law: the week windows chain. Next week's window begins where this week's
/// ends, both windows are exactly seven days wide, and so next week's end is
/// this week's end moved one week ahead.
pub proof fn lemma_week_windows_chain(tw: ThisWeek, nw: NextWeek, rel: Instant)
    requires
        rel.wf(),
        1 <= rel.year <= 9999,
    ensures
        Relative::NextWeek(nw).spec_to_chrono_min(rel) == Relative::ThisWeek(
            tw,
        ).spec_to_chrono_max(rel),
        Relative::NextWeek(nw).spec_to_chrono_max(rel) == Relative::ThisWeek(
            tw,
        ).spec_to_chrono_max(rel).spec_add_days(7),
        Relative::ThisWeek(tw).spec_to_chrono_min(rel).spec_add_days(7) == Relative::ThisWeek(
            tw,
        ).spec_to_chrono_max(rel),
{
    lemma_add_days_props(rel, 7);
    let rel8 = rel.spec_add_days(7);
    vstd::arithmetic::div_mod::lemma_mod_multiples_vanish(1, rel.spec_day_index() as int + 5, 7);
    assert(rel8.weekday() == rel.weekday());
    let k = ring_steps(7, rel.weekday(), 7, false);
    let n = (k + 1) as nat;
    lemma_add_days_compose(rel, 7, n);
    lemma_add_days_compose(rel, n, 7);
    lemma_midnight_add_commute(rel.spec_add_days(n), 7);
    lemma_sub_days_props(rel, 7);
    lemma_sub_days_year_bound(rel, 7);
    let rel7 = rel.spec_sub_days(7);
    lemma_add_days_props(rel7, 7);
    vstd::arithmetic::div_mod::lemma_mod_multiples_vanish(1, rel7.spec_day_index() as int + 5, 7);
    assert(rel7.weekday() == rel.weekday());
    lemma_add_days_compose(rel7, 7, n);
    lemma_add_days_compose(rel7, n, 7);
    lemma_midnight_add_commute(rel7.spec_add_days(n), 7);
}

/// The window of the this-month form is degenerate: both bounds land on
/// midnight of the first day of the following month.
pub proof fn lemma_relative_this_month_degenerate(rel: Instant)
    requires
        rel.wf(),
        1 <= rel.year <= 9999,
    ensures
        Relative::ThisMonth(ThisMonth::English).spec_to_chrono_min(rel)
            == Relative::ThisMonth(ThisMonth::English).spec_to_chrono_max(rel),
{
    let m = Month::spec_from_chrono(rel, false, Language::English(English::English));
    assert(m.spec_number() == rel.month);
    let anchor = rel.spec_sub_month_clamped();
    assert(ring_steps(m.spec_number(), anchor.month as int, 12, false) == 1);
    assert(ring_steps(m.spec_number(), rel.month as int, 12, false) == 0);
    if rel.month == 1 {
        vstd::arithmetic::div_mod::lemma_fundamental_div_mod_converse(13, 12, 1, 1);
        vstd::arithmetic::div_mod::lemma_basic_div(1, 12);
        vstd::arithmetic::div_mod::lemma_small_mod(1nat, 12);
    }
}

} // verus!
