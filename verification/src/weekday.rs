//! Weekday representations with language support.

use vstd::prelude::*;

use crate::instant::{
    lemma_add_days_compose, lemma_add_days_props, lemma_midnight_add_commute, lemma_prev_day_index,
    lemma_prev_day_props, lemma_sub_days_props, ring_steps, Instant,
};
use crate::language::Language;
use crate::traits::{FromLanguage, WithLanguage};

verus! {

#[derive(Debug, Clone, Copy, PartialEq, Eq, Structural)]
pub enum Monday {
    English,
    Swedish,
}

impl Default for Monday {
    fn default() -> (r: Self)
        ensures
            r == Monday::English,
    {
        Monday::English
    }
}

impl WithLanguage for Monday {
    open spec fn spec_with_language(self, language: Language) -> Self {
        match language {
            Language::English(_) => Monday::English,
            Language::Swedish(_) => Monday::Swedish,
        }
    }

    fn with_language(&self, language: Language) -> (r: Self) {
        match language {
            Language::English(_) => Monday::English,
            Language::Swedish(_) => Monday::Swedish,
        }
    }
}

impl FromLanguage for Monday {
    open spec fn spec_from_language(language: Language) -> Self {
        match language {
            Language::English(_) => Monday::English,
            Language::Swedish(_) => Monday::Swedish,
        }
    }

    fn from_language(language: Language) -> (r: Self) {
        match language {
            Language::English(_) => Monday::English,
            Language::Swedish(_) => Monday::Swedish,
        }
    }
}

impl Monday {
    pub fn text(&self) -> (r: String)
        ensures
            r@ == (match *self {
                Monday::English => "Monday"@,
                Monday::Swedish => "Måndag"@,
            }),
    {
        match *self {
            Monday::English => String::from_str("Monday"),
            Monday::Swedish => String::from_str("Måndag"),
        }
    }
}

#[derive(Debug, Clone, Copy, PartialEq, Eq, Structural)]
pub enum Tuesday {
    English,
    Swedish,
}

impl Default for Tuesday {
    fn default() -> (r: Self)
        ensures
            r == Tuesday::English,
    {
        Tuesday::English
    }
}

impl WithLanguage for Tuesday {
    open spec fn spec_with_language(self, language: Language) -> Self {
        match language {
            Language::English(_) => Tuesday::English,
            Language::Swedish(_) => Tuesday::Swedish,
        }
    }

    fn with_language(&self, language: Language) -> (r: Self) {
        match language {
            Language::English(_) => Tuesday::English,
            Language::Swedish(_) => Tuesday::Swedish,
        }
    }
}

impl FromLanguage for Tuesday {
    open spec fn spec_from_language(language: Language) -> Self {
        match language {
            Language::English(_) => Tuesday::English,
            Language::Swedish(_) => Tuesday::Swedish,
        }
    }

    fn from_language(language: Language) -> (r: Self) {
        match language {
            Language::English(_) => Tuesday::English,
            Language::Swedish(_) => Tuesday::Swedish,
        }
    }
}

impl Tuesday {
    pub fn text(&self) -> (r: String)
        ensures
            r@ == (match *self {
                Tuesday::English => "Tuesday"@,
                Tuesday::Swedish => "Tisdag"@,
            }),
    {
        match *self {
            Tuesday::English => String::from_str("Tuesday"),
            Tuesday::Swedish => String::from_str("Tisdag"),
        }
    }
}

#[derive(Debug, Clone, Copy, PartialEq, Eq, Structural)]
pub enum Wednesday {
    English,
    Swedish,
}

impl Default for Wednesday {
    fn default() -> (r: Self)
        ensures
            r == Wednesday::English,
    {
        Wednesday::English
    }
}

impl WithLanguage for Wednesday {
    open spec fn spec_with_language(self, language: Language) -> Self {
        match language {
            Language::English(_) => Wednesday::English,
            Language::Swedish(_) => Wednesday::Swedish,
        }
    }

    fn with_language(&self, language: Language) -> (r: Self) {
        match language {
            Language::English(_) => Wednesday::English,
            Language::Swedish(_) => Wednesday::Swedish,
        }
    }
}

impl FromLanguage for Wednesday {
    open spec fn spec_from_language(language: Language) -> Self {
        match language {
            Language::English(_) => Wednesday::English,
            Language::Swedish(_) => Wednesday::Swedish,
        }
    }

    fn from_language(language: Language) -> (r: Self) {
        match language {
            Language::English(_) => Wednesday::English,
            Language::Swedish(_) => Wednesday::Swedish,
        }
    }
}

impl Wednesday {
    pub fn text(&self) -> (r: String)
        ensures
            r@ == (match *self {
                Wednesday::English => "Wednesday"@,
                Wednesday::Swedish => "Onsdag"@,
            }),
    {
        match *self {
            Wednesday::English => String::from_str("Wednesday"),
            Wednesday::Swedish => String::from_str("Onsdag"),
        }
    }
}

#[derive(Debug, Clone, Copy, PartialEq, Eq, Structural)]
pub enum Thursday {
    English,
    Swedish,
}

impl Default for Thursday {
    fn default() -> (r: Self)
        ensures
            r == Thursday::English,
    {
        Thursday::English
    }
}

impl WithLanguage for Thursday {
    open spec fn spec_with_language(self, language: Language) -> Self {
        match language {
            Language::English(_) => Thursday::English,
            Language::Swedish(_) => Thursday::Swedish,
        }
    }

    fn with_language(&self, language: Language) -> (r: Self) {
        match language {
            Language::English(_) => Thursday::English,
            Language::Swedish(_) => Thursday::Swedish,
        }
    }
}

impl FromLanguage for Thursday {
    open spec fn spec_from_language(language: Language) -> Self {
        match language {
            Language::English(_) => Thursday::English,
            Language::Swedish(_) => Thursday::Swedish,
        }
    }

    fn from_language(language: Language) -> (r: Self) {
        match language {
            Language::English(_) => Thursday::English,
            Language::Swedish(_) => Thursday::Swedish,
        }
    }
}

impl Thursday {
    pub fn text(&self) -> (r: String)
        ensures
            r@ == (match *self {
                Thursday::English => "Thursday"@,
                Thursday::Swedish => "Torsdag"@,
            }),
    {
        match *self {
            Thursday::English => String::from_str("Thursday"),
            Thursday::Swedish => String::from_str("Torsdag"),
        }
    }
}

#[derive(Debug, Clone, Copy, PartialEq, Eq, Structural)]
pub enum Friday {
    English,
    Swedish,
}

impl Default for Friday {
    fn default() -> (r: Self)
        ensures
            r == Friday::English,
    {
        Friday::English
    }
}

impl WithLanguage for Friday {
    open spec fn spec_with_language(self, language: Language) -> Self {
        match language {
            Language::English(_) => Friday::English,
            Language::Swedish(_) => Friday::Swedish,
        }
    }

    fn with_language(&self, language: Language) -> (r: Self) {
        match language {
            Language::English(_) => Friday::English,
            Language::Swedish(_) => Friday::Swedish,
        }
    }
}

impl FromLanguage for Friday {
    open spec fn spec_from_language(language: Language) -> Self {
        match language {
            Language::English(_) => Friday::English,
            Language::Swedish(_) => Friday::Swedish,
        }
    }

    fn from_language(language: Language) -> (r: Self) {
        match language {
            Language::English(_) => Friday::English,
            Language::Swedish(_) => Friday::Swedish,
        }
    }
}

impl Friday {
    pub fn text(&self) -> (r: String)
        ensures
            r@ == (match *self {
                Friday::English => "Friday"@,
                Friday::Swedish => "Fredag"@,
            }),
    {
        match *self {
            Friday::English => String::from_str("Friday"),
            Friday::Swedish => String::from_str("Fredag"),
        }
    }
}

#[derive(Debug, Clone, Copy, PartialEq, Eq, Structural)]
pub enum Saturday {
    English,
    Swedish,
}

impl Default for Saturday {
    fn default() -> (r: Self)
        ensures
            r == Saturday::English,
    {
        Saturday::English
    }
}

impl WithLanguage for Saturday {
    open spec fn spec_with_language(self, language: Language) -> Self {
        match language {
            Language::English(_) => Saturday::English,
            Language::Swedish(_) => Saturday::Swedish,
        }
    }

    fn with_language(&self, language: Language) -> (r: Self) {
        match language {
            Language::English(_) => Saturday::English,
            Language::Swedish(_) => Saturday::Swedish,
        }
    }
}

impl FromLanguage for Saturday {
    open spec fn spec_from_language(language: Language) -> Self {
        match language {
            Language::English(_) => Saturday::English,
            Language::Swedish(_) => Saturday::Swedish,
        }
    }

    fn from_language(language: Language) -> (r: Self) {
        match language {
            Language::English(_) => Saturday::English,
            Language::Swedish(_) => Saturday::Swedish,
        }
    }
}

impl Saturday {
    pub fn text(&self) -> (r: String)
        ensures
            r@ == (match *self {
                Saturday::English => "Saturday"@,
                Saturday::Swedish => "Lördag"@,
            }),
    {
        match *self {
            Saturday::English => String::from_str("Saturday"),
            Saturday::Swedish => String::from_str("Lördag"),
        }
    }
}

#[derive(Debug, Clone, Copy, PartialEq, Eq, Structural)]
pub enum Sunday {
    English,
    Swedish,
}

impl Default for Sunday {
    fn default() -> (r: Self)
        ensures
            r == Sunday::English,
    {
        Sunday::English
    }
}

impl WithLanguage for Sunday {
    open spec fn spec_with_language(self, language: Language) -> Self {
        match language {
            Language::English(_) => Sunday::English,
            Language::Swedish(_) => Sunday::Swedish,
        }
    }

    fn with_language(&self, language: Language) -> (r: Self) {
        match language {
            Language::English(_) => Sunday::English,
            Language::Swedish(_) => Sunday::Swedish,
        }
    }
}

impl FromLanguage for Sunday {
    open spec fn spec_from_language(language: Language) -> Self {
        match language {
            Language::English(_) => Sunday::English,
            Language::Swedish(_) => Sunday::Swedish,
        }
    }

    fn from_language(language: Language) -> (r: Self) {
        match language {
            Language::English(_) => Sunday::English,
            Language::Swedish(_) => Sunday::Swedish,
        }
    }
}

impl Sunday {
    pub fn text(&self) -> (r: String)
        ensures
            r@ == (match *self {
                Sunday::English => "Sunday"@,
                Sunday::Swedish => "Söndag"@,
            }),
    {
        match *self {
            Sunday::English => String::from_str("Sunday"),
            Sunday::Swedish => String::from_str("Söndag"),
        }
    }
}

/// A weekday with language-specific representations.
#[derive(Debug, Clone, Copy, PartialEq, Eq, Structural)]
pub enum Weekday {
    Monday(Monday),
    Tuesday(Tuesday),
    Wednesday(Wednesday),
    Thursday(Thursday),
    Friday(Friday),
    Saturday(Saturday),
    Sunday(Sunday),
}

impl WithLanguage for Weekday {
    open spec fn spec_with_language(self, language: Language) -> Self {
        match self {
            Weekday::Monday(x) => Weekday::Monday(x.spec_with_language(language)),
            Weekday::Tuesday(x) => Weekday::Tuesday(x.spec_with_language(language)),
            Weekday::Wednesday(x) => Weekday::Wednesday(x.spec_with_language(language)),
            Weekday::Thursday(x) => Weekday::Thursday(x.spec_with_language(language)),
            Weekday::Friday(x) => Weekday::Friday(x.spec_with_language(language)),
            Weekday::Saturday(x) => Weekday::Saturday(x.spec_with_language(language)),
            Weekday::Sunday(x) => Weekday::Sunday(x.spec_with_language(language)),
        }
    }

    fn with_language(&self, language: Language) -> (r: Self) {
        match self {
            Weekday::Monday(x) => Weekday::Monday(x.with_language(language)),
            Weekday::Tuesday(x) => Weekday::Tuesday(x.with_language(language)),
            Weekday::Wednesday(x) => Weekday::Wednesday(x.with_language(language)),
            Weekday::Thursday(x) => Weekday::Thursday(x.with_language(language)),
            Weekday::Friday(x) => Weekday::Friday(x.with_language(language)),
            Weekday::Saturday(x) => Weekday::Saturday(x.with_language(language)),
            Weekday::Sunday(x) => Weekday::Sunday(x.with_language(language)),
        }
    }
}

impl Weekday {
    pub fn monday() -> (r: Self)
        ensures
            r == Weekday::Monday(Monday::English),
    {
        Weekday::Monday(Monday::default())
    }

    pub fn tuesday() -> (r: Self)
        ensures
            r == Weekday::Tuesday(Tuesday::English),
    {
        Weekday::Tuesday(Tuesday::default())
    }

    pub fn wednesday() -> (r: Self)
        ensures
            r == Weekday::Wednesday(Wednesday::English),
    {
        Weekday::Wednesday(Wednesday::default())
    }

    pub fn thursday() -> (r: Self)
        ensures
            r == Weekday::Thursday(Thursday::English),
    {
        Weekday::Thursday(Thursday::default())
    }

    pub fn friday() -> (r: Self)
        ensures
            r == Weekday::Friday(Friday::English),
    {
        Weekday::Friday(Friday::default())
    }

    pub fn saturday() -> (r: Self)
        ensures
            r == Weekday::Saturday(Saturday::English),
    {
        Weekday::Saturday(Saturday::default())
    }

    pub fn sunday() -> (r: Self)
        ensures
            r == Weekday::Sunday(Sunday::English),
    {
        Weekday::Sunday(Sunday::default())
    }

    /// The position on the seven-day ring, numbered from Monday = 1.
    pub open spec fn spec_number(self) -> int {
        match self {
            Weekday::Monday(_) => 1,
            Weekday::Tuesday(_) => 2,
            Weekday::Wednesday(_) => 3,
            Weekday::Thursday(_) => 4,
            Weekday::Friday(_) => 5,
            Weekday::Saturday(_) => 6,
            Weekday::Sunday(_) => 7,
        }
    }

    pub fn number_from_monday(self) -> (r: i64)
        ensures
            r == self.spec_number(),
    {
        match self {
            Weekday::Monday(_) => 1,
            Weekday::Tuesday(_) => 2,
            Weekday::Wednesday(_) => 3,
            Weekday::Thursday(_) => 4,
            Weekday::Friday(_) => 5,
            Weekday::Saturday(_) => 6,
            Weekday::Sunday(_) => 7,
        }
    }

    /// The weekday in position `n` (Monday = 1 through Sunday = 7, with 0
    /// wrapping back to Sunday), labelled in the given language.
    pub open spec fn spec_from_number(n: int, language: Language) -> Weekday {
        if n == 1 {
            Weekday::Monday(Monday::spec_from_language(language))
        } else if n == 2 {
            Weekday::Tuesday(Tuesday::spec_from_language(language))
        } else if n == 3 {
            Weekday::Wednesday(Wednesday::spec_from_language(language))
        } else if n == 4 {
            Weekday::Thursday(Thursday::spec_from_language(language))
        } else if n == 5 {
            Weekday::Friday(Friday::spec_from_language(language))
        } else if n == 6 {
            Weekday::Saturday(Saturday::spec_from_language(language))
        } else {
            Weekday::Sunday(Sunday::spec_from_language(language))
        }
    }

    pub open spec fn spec_from_chrono(
        date_time: Instant,
        midnight_means_day_before: bool,
        language: Language,
    ) -> Weekday {
        let n = date_time.weekday();
        let adjusted = if midnight_means_day_before && date_time.is_midnight() {
            n - 1
        } else {
            n
        };
        Weekday::spec_from_number(adjusted, language)
    }

    /// Extracts the weekday from a timestamp in the specified language.
    ///
    /// When `midnight_means_day_before` is true, midnight timestamps are
    /// treated as belonging to the previous day.
    pub fn from_chrono(
        date_time: Instant,
        midnight_means_day_before: bool,
        language: Language,
    ) -> (r: Weekday)
        requires
            date_time.wf(),
            0 <= date_time.year,
        ensures
            r == Weekday::spec_from_chrono(date_time, midnight_means_day_before, language),
    {
        let weekday_number: i64 = date_time.weekday_number();
        let weekday_number: i64 = if midnight_means_day_before && date_time.hour == 0
            && date_time.minute == 0 && date_time.second == 0 {
            weekday_number - 1
        } else {
            weekday_number
        };
        if weekday_number == 1 {
            Weekday::Monday(Monday::from_language(language))
        } else if weekday_number == 2 {
            Weekday::Tuesday(Tuesday::from_language(language))
        } else if weekday_number == 3 {
            Weekday::Wednesday(Wednesday::from_language(language))
        } else if weekday_number == 4 {
            Weekday::Thursday(Thursday::from_language(language))
        } else if weekday_number == 5 {
            Weekday::Friday(Friday::from_language(language))
        } else if weekday_number == 6 {
            Weekday::Saturday(Saturday::from_language(language))
        } else {
            Weekday::Sunday(Sunday::from_language(language))
        }
    }

    /// Midnight after the located occurrence of this weekday: the next
    /// occurrence at or after the reference day, pushed a full week ahead by
    /// `skip_self` on an exact match, plus one day, at the start of that day.
    pub open spec fn spec_to_chrono_max(self, rel: Instant, skip_self: bool) -> Instant {
        let steps = ring_steps(self.spec_number(), rel.weekday(), 7, skip_self);
        rel.spec_add_days((steps + 1) as nat).spec_with_midnight()
    }

    /// The earliest instant of this weekday's day: one day before the upper
    /// bound, floored at the reference itself.
    pub open spec fn spec_to_chrono_min(self, rel: Instant, skip_self: bool) -> Instant {
        let back = self.spec_to_chrono_max(rel, skip_self).spec_sub_days(1);
        if rel.le_spec(back) {
            back
        } else {
            rel
        }
    }

    /// Converts to midnight after this weekday, relative to the given time.
    ///
    /// When `skip_self` is true, finds the next occurrence even if the current
    /// day matches.
    pub fn to_chrono_max(self, relative_to: Instant, skip_self: bool) -> (r: Instant)
        requires
            relative_to.wf(),
            0 <= relative_to.year <= 20000,
        ensures
            r == self.spec_to_chrono_max(relative_to, skip_self),
            r.wf(),
            r.is_midnight(),
            relative_to.lt_spec(r),
            relative_to.year <= r.year <= relative_to.year + 8,
    {
        let current_weekday: i64 = relative_to.weekday_number();
        let target_weekday: i64 = self.number_from_monday();
        let difference: i64 = target_weekday - current_weekday;
        let non_negative: i64 = if difference < 0 {
            7 + difference
        } else {
            difference
        };
        let skipped: i64 = if non_negative == 0 && skip_self {
            7
        } else {
            non_negative
        };
        let days_to_add: u64 = (skipped + 1) as u64;
        proof {
            lemma_add_days_props(relative_to, days_to_add as nat);
        }
        relative_to.add_days(days_to_add).with_midnight()
    }

    /// Converts to the earliest timestamp for this weekday, relative to the
    /// given time.
    ///
    /// When `skip_self` is true, finds the next occurrence even if the current
    /// day matches.
    pub fn to_chrono_min(self, relative_to: Instant, skip_self: bool) -> (r: Instant)
        requires
            relative_to.wf(),
            0 <= relative_to.year <= 20000,
        ensures
            r == self.spec_to_chrono_min(relative_to, skip_self),
            r.wf(),
            r.le_spec(self.spec_to_chrono_max(relative_to, skip_self)),
    {
        let mx = self.to_chrono_max(relative_to, skip_self);
        let back = mx.sub_days(1);
        proof {
            crate::instant::lemma_sub_days_props(mx, 1);
            crate::instant::lemma_prev_day_props(mx);
            assert(mx.spec_sub_days(0) == mx);
            assert(back == mx.spec_prev_day());
        }
        if relative_to.le(&back) {
            back
        } else {
            relative_to
        }
    }
}

/// Law: for every weekday anchor the earliest bound never lies after the
/// latest bound, and the latest bound lies strictly after the reference.
pub proof fn lemma_weekday_min_le_max(w: Weekday, rel: Instant, skip_self: bool)
    requires
        rel.wf(),
        0 <= rel.year <= 20000,
    ensures
        w.spec_to_chrono_min(rel, skip_self).le_spec(w.spec_to_chrono_max(rel, skip_self)),
        rel.lt_spec(w.spec_to_chrono_max(rel, skip_self)),
        w.spec_to_chrono_max(rel, skip_self).wf(),
        w.spec_to_chrono_min(rel, skip_self).wf(),
{
    let steps = ring_steps(w.spec_number(), rel.weekday(), 7, skip_self);
    let n = (steps + 1) as nat;
    lemma_add_days_props(rel, n);
    let mx = w.spec_to_chrono_max(rel, skip_self);
    lemma_sub_days_props(mx, 1);
    lemma_prev_day_props(mx);
    assert(mx.spec_sub_days(0) == mx);
    assert(mx.spec_sub_days(1) == mx.spec_prev_day());
}

/// Law: the located occurrence is genuine. The calendar day just before the
/// returned upper bound falls on the anchor's own weekday.
pub proof fn lemma_weekday_max_lands_on_anchor(w: Weekday, rel: Instant, skip_self: bool)
    requires
        rel.wf(),
        0 <= rel.year <= 20000,
    ensures
        w.spec_to_chrono_max(rel, skip_self).spec_prev_day().weekday() == w.spec_number(),
{
    let target = w.spec_number();
    let wd = rel.weekday();
    let steps = ring_steps(target, wd, 7, skip_self);
    let n = (steps + 1) as nat;
    lemma_add_days_props(rel, n);
    let moved = rel.spec_add_days(n);
    let mx = w.spec_to_chrono_max(rel, skip_self);
    assert(mx.spec_prev_day().weekday() == moved.spec_prev_day().weekday());
    lemma_prev_day_index(moved);
    let idx_rel = rel.spec_day_index() as int;
    let a = idx_rel + 5;
    let prev_idx = moved.spec_prev_day().spec_day_index() as int;
    assert(prev_idx == idx_rel + steps);
    vstd::arithmetic::div_mod::lemma_fundamental_div_mod(a, 7);
    let q = a / 7;
    if steps == 7 && wd == target {
        vstd::arithmetic::div_mod::lemma_mod_multiples_vanish(1, a, 7);
        assert((prev_idx + 5) % 7 == a % 7);
    } else if target - wd >= 0 {
        assert(prev_idx + 5 == 7 * q + (target - 1));
        vstd::arithmetic::div_mod::lemma_mod_multiples_vanish(q, target - 1, 7);
        vstd::arithmetic::div_mod::lemma_small_mod((target - 1) as nat, 7);
    } else {
        assert(prev_idx + 5 == 7 * (q + 1) + (target - 1));
        vstd::arithmetic::div_mod::lemma_mod_multiples_vanish(q + 1, target - 1, 7);
        vstd::arithmetic::div_mod::lemma_small_mod((target - 1) as nat, 7);
    }
}

/// Law: reverse extraction inverts resolution. Reading the weekday back from
/// the returned upper bound, with midnight counted as belonging to the
/// previous day, recovers the anchor, labelled in the requested language.
pub proof fn lemma_weekday_from_chrono_round_trip(
    w: Weekday,
    rel: Instant,
    skip_self: bool,
    language: Language,
)
    requires
        rel.wf(),
        0 <= rel.year <= 20000,
    ensures
        Weekday::spec_from_chrono(w.spec_to_chrono_max(rel, skip_self), true, language)
            == Weekday::spec_from_number(w.spec_number(), language),
{
    let target = w.spec_number();
    let steps = ring_steps(target, rel.weekday(), 7, skip_self);
    let n = (steps + 1) as nat;
    lemma_add_days_props(rel, n);
    let moved = rel.spec_add_days(n);
    let mx = w.spec_to_chrono_max(rel, skip_self);
    assert(mx.spec_prev_day().weekday() == moved.spec_prev_day().weekday());
    assert(mx.weekday() == moved.weekday());
    lemma_weekday_max_lands_on_anchor(w, rel, skip_self);
    lemma_prev_day_index(moved);
    let prev = moved.spec_prev_day();
    lemma_prev_day_props(moved);
    crate::instant::lemma_day_index_next(prev.year as int, prev.month as int, prev.day as int);
    let prev_idx = prev.spec_day_index() as int;
    assert(moved.spec_day_index() == prev_idx + 1);
    vstd::arithmetic::div_mod::lemma_fundamental_div_mod(prev_idx + 5, 7);
    let k = (prev_idx + 5) / 7;
    assert((prev_idx + 5) % 7 == target - 1);
    assert(prev_idx + 6 == 7 * k + target);
    vstd::arithmetic::div_mod::lemma_mod_multiples_vanish(k, target, 7);
    if target < 7 {
        vstd::arithmetic::div_mod::lemma_small_mod(target as nat, 7);
    }
}

/// Law: skip-self monotonicity. When the anchor names the reference's own
/// weekday, resolving with skip-self lands exactly one full cycle — seven
/// days — after resolving without it.
pub proof fn lemma_skip_self_weekday(w: Weekday, t: Instant)
    requires
        t.wf(),
        0 <= t.year <= 20000,
        w.spec_number() == t.weekday(),
    ensures
        w.spec_to_chrono_max(t, true) == w.spec_to_chrono_max(t, false).spec_add_days(7),
        w.spec_to_chrono_max(t, false).lt_spec(w.spec_to_chrono_max(t, true)),
{
    let f = w.spec_to_chrono_max(t, false);
    let g = w.spec_to_chrono_max(t, true);
    assert(ring_steps(w.spec_number(), t.weekday(), 7, false) == 0);
    assert(ring_steps(w.spec_number(), t.weekday(), 7, true) == 7);
    lemma_add_days_props(t, 1);
    lemma_add_days_props(t, 8);
    lemma_add_days_compose(t, 1, 7);
    lemma_midnight_add_commute(t.spec_add_days(1), 7);
    assert(f.spec_add_days(7) == t.spec_add_days(1).spec_add_days(7).spec_with_midnight());
    lemma_add_days_props(f, 7);
    assert(g.spec_with_midnight() == g);
}

} // verus!
