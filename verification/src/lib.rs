//! Relative time representations with language support.
//!
//! This library provides types for expressing dates and times in
//! human-readable forms, supporting both absolute and relative
//! representations. Each form resolves to a concrete instant against a
//! reference instant, through a resolve-to-earliest and a resolve-to-latest
//! entry point, and an instant can be mapped back to its most natural
//! symbolic form.

use vstd::prelude::*;

pub mod exact;
pub mod instant;
pub mod language;
pub mod month;
pub mod relative;
pub mod text;
pub mod traits;
pub mod weekday;

use crate::exact::ExactDateTime;
use crate::instant::{lemma_add_months_props, lemma_sub_month_le, ring_steps, Instant};
use crate::language::Language;
use crate::month::{
    April, August, December, February, January, July, June, March, May, Month, November, October,
    September,
};
use crate::relative::{Relative, ThisMonth, ThisWeek, Today, Tomorrow};
use crate::traits::FromLanguage;
use crate::weekday::{Friday, Monday, Saturday, Sunday, Thursday, Tuesday, Wednesday, Weekday};

verus! {

/// A time representation supporting relative, named, exact, and absolute
/// forms.
#[derive(Debug, Clone, Copy, PartialEq, Eq, Structural)]
pub enum Time {
    Relative(Relative),
    Weekday(Weekday),
    Month(Month),
    Exact(ExactDateTime),
    DateTime(Instant),
}

impl Time {
    /// An absolute payload must itself be a well-formed instant; every other
    /// variant is valid as constructed.
    pub open spec fn wf(self) -> bool {
        match self {
            Time::DateTime(d) => d.wf(),
            _ => true,
        }
    }

    /// The earliest instant this value can denote against the reference.
    pub open spec fn spec_to_chrono_min(self, rel: Instant) -> Instant {
        match self {
            Time::Relative(relative) => relative.spec_to_chrono_min(rel),
            Time::Weekday(weekday) => weekday.spec_to_chrono_min(rel, true),
            Time::Month(month) => month.spec_to_chrono_max(rel, true).spec_sub_month_clamped(),
            Time::Exact(exact) => exact.spec_to_chrono_min(rel),
            Time::DateTime(date_time) => date_time,
        }
    }

    /// The latest instant this value can denote against the reference: the
    /// exclusive upper bound of its window.
    pub open spec fn spec_to_chrono_max(self, rel: Instant) -> Instant {
        match self {
            Time::Relative(relative) => relative.spec_to_chrono_max(rel),
            Time::Weekday(weekday) => weekday.spec_to_chrono_max(rel, true),
            Time::Month(month) => month.spec_to_chrono_max(rel, true),
            Time::Exact(exact) => exact.spec_to_chrono_max(rel),
            Time::DateTime(date_time) => date_time,
        }
    }

    /// Converts to the earliest possible timestamp, relative to the given time.
    pub fn to_chrono_min(self, relative_to: Instant) -> (r: Instant)
        requires
            self.wf(),
            relative_to.wf(),
            1 <= relative_to.year <= 9999,
        ensures
            r == self.spec_to_chrono_min(relative_to),
            r.wf(),
    {
        match self {
            Time::Relative(relative) => relative.to_chrono_min(relative_to),
            Time::Weekday(weekday) => weekday.to_chrono_min(relative_to, true),
            Time::Month(month) => month.to_chrono_max(relative_to, true).sub_month_clamped(),
            Time::Exact(exact) => exact.to_chrono_min(relative_to),
            Time::DateTime(date_time) => date_time,
        }
    }

    /// Converts to the latest possible timestamp, relative to the given time.
    pub fn to_chrono_max(self, relative_to: Instant) -> (r: Instant)
        requires
            self.wf(),
            relative_to.wf(),
            1 <= relative_to.year <= 9999,
        ensures
            r == self.spec_to_chrono_max(relative_to),
            r.wf(),
    {
        match self {
            Time::Relative(relative) => relative.to_chrono_max(relative_to),
            Time::Weekday(weekday) => weekday.to_chrono_max(relative_to, true),
            Time::Month(month) => month.to_chrono_max(relative_to, true),
            Time::Exact(exact) => exact.to_chrono_max(relative_to),
            Time::DateTime(date_time) => date_time,
        }
    }

    /// The fixed priority list of symbolic candidates the reverse search
    /// tries, in order: Today, Tomorrow, the seven weekdays, the twelve
    /// months, this week, this month.
    pub open spec fn candidate_time(i: int, language: Language) -> Time {
        if i == 0 {
            Time::Relative(Relative::Today(Today::spec_from_language(language)))
        } else if i == 1 {
            Time::Relative(Relative::Tomorrow(Tomorrow::spec_from_language(language)))
        } else if i == 2 {
            Time::Weekday(Weekday::Monday(Monday::spec_from_language(language)))
        } else if i == 3 {
            Time::Weekday(Weekday::Tuesday(Tuesday::spec_from_language(language)))
        } else if i == 4 {
            Time::Weekday(Weekday::Wednesday(Wednesday::spec_from_language(language)))
        } else if i == 5 {
            Time::Weekday(Weekday::Thursday(Thursday::spec_from_language(language)))
        } else if i == 6 {
            Time::Weekday(Weekday::Friday(Friday::spec_from_language(language)))
        } else if i == 7 {
            Time::Weekday(Weekday::Saturday(Saturday::spec_from_language(language)))
        } else if i == 8 {
            Time::Weekday(Weekday::Sunday(Sunday::spec_from_language(language)))
        } else if i == 9 {
            Time::Month(Month::January(January::spec_from_language(language)))
        } else if i == 10 {
            Time::Month(Month::February(February::spec_from_language(language)))
        } else if i == 11 {
            Time::Month(Month::March(March::spec_from_language(language)))
        } else if i == 12 {
            Time::Month(Month::April(April::spec_from_language(language)))
        } else if i == 13 {
            Time::Month(Month::May(May::spec_from_language(language)))
        } else if i == 14 {
            Time::Month(Month::June(June::spec_from_language(language)))
        } else if i == 15 {
            Time::Month(Month::July(July::spec_from_language(language)))
        } else if i == 16 {
            Time::Month(Month::August(August::spec_from_language(language)))
        } else if i == 17 {
            Time::Month(Month::September(September::spec_from_language(language)))
        } else if i == 18 {
            Time::Month(Month::October(October::spec_from_language(language)))
        } else if i == 19 {
            Time::Month(Month::November(November::spec_from_language(language)))
        } else if i == 20 {
            Time::Month(Month::December(December::spec_from_language(language)))
        } else if i == 21 {
            Time::Relative(Relative::ThisWeek(ThisWeek::spec_from_language(language)))
        } else {
            Time::Relative(Relative::ThisMonth(ThisMonth::spec_from_language(language)))
        }
    }

    /// The first candidate from position `i` on whose latest bound equals the
    /// instant, or the raw instant when none matches.
    pub open spec fn spec_search(
        date_time: Instant,
        now: Instant,
        language: Language,
        i: int,
    ) -> Time
        decreases 23 - i,
        when i <= 23
    {
        if i >= 23 {
            Time::DateTime(date_time)
        } else if Time::candidate_time(i, language).spec_to_chrono_max(now) == date_time {
            Time::candidate_time(i, language)
        } else {
            Time::spec_search(date_time, now, language, i + 1)
        }
    }

    /// The most natural symbolic form of an instant: without a reference, or
    /// away from midnight, the instant itself; otherwise the first symbolic
    /// candidate in priority order whose latest bound lands exactly on it.
    pub open spec fn spec_from_max_chrono(
        date_time: Instant,
        relative_to: Option<Instant>,
        language: Language,
    ) -> Time {
        match relative_to {
            Some(now) => if date_time.is_midnight() {
                Time::spec_search(date_time, now, language, 0)
            } else {
                Time::DateTime(date_time)
            },
            None => Time::DateTime(date_time),
        }
    }

    fn candidate_of(i: u64, language: Language) -> (r: Time)
        requires
            i <= 22,
        ensures
            r == Time::candidate_time(i as int, language),
            !(r matches Time::DateTime(_)),
    {
        if i == 0 {
            Time::Relative(Relative::Today(Today::from_language(language)))
        } else if i == 1 {
            Time::Relative(Relative::Tomorrow(Tomorrow::from_language(language)))
        } else if i == 2 {
            Time::Weekday(Weekday::Monday(Monday::from_language(language)))
        } else if i == 3 {
            Time::Weekday(Weekday::Tuesday(Tuesday::from_language(language)))
        } else if i == 4 {
            Time::Weekday(Weekday::Wednesday(Wednesday::from_language(language)))
        } else if i == 5 {
            Time::Weekday(Weekday::Thursday(Thursday::from_language(language)))
        } else if i == 6 {
            Time::Weekday(Weekday::Friday(Friday::from_language(language)))
        } else if i == 7 {
            Time::Weekday(Weekday::Saturday(Saturday::from_language(language)))
        } else if i == 8 {
            Time::Weekday(Weekday::Sunday(Sunday::from_language(language)))
        } else if i == 9 {
            Time::Month(Month::January(January::from_language(language)))
        } else if i == 10 {
            Time::Month(Month::February(February::from_language(language)))
        } else if i == 11 {
            Time::Month(Month::March(March::from_language(language)))
        } else if i == 12 {
            Time::Month(Month::April(April::from_language(language)))
        } else if i == 13 {
            Time::Month(Month::May(May::from_language(language)))
        } else if i == 14 {
            Time::Month(Month::June(June::from_language(language)))
        } else if i == 15 {
            Time::Month(Month::July(July::from_language(language)))
        } else if i == 16 {
            Time::Month(Month::August(August::from_language(language)))
        } else if i == 17 {
            Time::Month(Month::September(September::from_language(language)))
        } else if i == 18 {
            Time::Month(Month::October(October::from_language(language)))
        } else if i == 19 {
            Time::Month(Month::November(November::from_language(language)))
        } else if i == 20 {
            Time::Month(Month::December(December::from_language(language)))
        } else if i == 21 {
            Time::Relative(Relative::ThisWeek(ThisWeek::from_language(language)))
        } else {
            Time::Relative(Relative::ThisMonth(ThisMonth::from_language(language)))
        }
    }

    /// Converts a timestamp to the most natural time representation.
    ///
    /// When `relative_to` is provided and the timestamp lies exactly on a
    /// midnight, the timestamp is expressed as the first relative or named
    /// form, in priority order, whose latest bound equals it, in the
    /// specified language; otherwise the timestamp is returned unchanged.
    pub fn from_max_chrono(
        date_time: Instant,
        relative_to: Option<Instant>,
        language: Language,
    ) -> (r: Time)
        requires
            date_time.wf(),
            relative_to matches Some(now) ==> now.wf() && 1 <= now.year <= 9999,
        ensures
            r == Time::spec_from_max_chrono(date_time, relative_to, language),
    {
        match relative_to {
            Some(now) => {
                if date_time.hour == 0 && date_time.minute == 0 && date_time.second == 0 {
                    let mut i: u64 = 0;
                    while i < 23
                        invariant
                            0 <= i <= 23,
                            relative_to == Some(now),
                            date_time.wf(),
                            date_time.is_midnight(),
                            now.wf(),
                            1 <= now.year <= 9999,
                            Time::spec_search(date_time, now, language, 0) == Time::spec_search(
                                date_time,
                                now,
                                language,
                                i as int,
                            ),
                        decreases 23 - i,
                    {
                        let cand = Time::candidate_of(i, language);
                        let resolved = cand.to_chrono_max(now);
                        if resolved == date_time {
                            proof {
                                assert(Time::spec_search(date_time, now, language, i as int)
                                    == cand);
                            }
                            return cand;
                        }
                        proof {
                            assert(Time::spec_search(date_time, now, language, i as int)
                                == Time::spec_search(date_time, now, language, i + 1));
                        }
                        i = i + 1;
                    }
                    proof {
                        assert(Time::spec_search(date_time, now, language, 23) == Time::DateTime(
                            date_time,
                        ));
                    }
                    Time::DateTime(date_time)
                } else {
                    Time::DateTime(date_time)
                }
            },
            None => Time::DateTime(date_time),
        }
    }
}

/// Law: for every time value the earliest resolution never lies after the
/// latest one, as long as an exact date's two readings are consistently
/// realizable (see `ExactDate::resolves_consistently`).
pub proof fn lemma_min_le_max(v: Time, t: Instant)
    requires
        v.wf(),
        t.wf(),
        1 <= t.year <= 9999,
        v matches Time::Relative(Relative::Date(e)) ==> e.resolves_consistently(t),
        v matches Time::Relative(Relative::DateTime(e)) ==> e.0.resolves_consistently(t),
        v matches Time::Exact(e) ==> e.0.resolves_consistently(t),
    ensures
        v.spec_to_chrono_min(t).le_spec(v.spec_to_chrono_max(t)),
{
    match v {
        Time::Relative(r) => {
            crate::relative::lemma_relative_min_le_max(r, t);
        },
        Time::Weekday(w) => {
            crate::weekday::lemma_weekday_min_le_max(w, t, true);
        },
        Time::Month(m) => {
            let steps = ring_steps(m.spec_number(), t.month as int, 12, true);
            lemma_add_months_props(t, steps + 1);
            lemma_sub_month_le(m.spec_to_chrono_max(t, true));
        },
        Time::Exact(e) => {
            crate::exact::lemma_datetime_min_le_max(e, t);
        },
        Time::DateTime(_) => {},
    }
}

/// Every symbolic candidate's latest bound lands exactly on a midnight.
proof fn lemma_candidate_resolution_midnight(i: int, t: Instant, language: Language)
    requires
        0 <= i < 23,
        t.wf(),
        1 <= t.year <= 9999,
    ensures
        Time::candidate_time(i, language).spec_to_chrono_max(t).is_midnight(),
{
}

/// The reverse search started at position `k` returns the candidate at
/// position `i` when that candidate matches and none between them does.
proof fn lemma_search_reaches(
    date_time: Instant,
    now: Instant,
    language: Language,
    k: int,
    i: int,
)
    requires
        0 <= k <= i < 23,
        Time::candidate_time(i, language).spec_to_chrono_max(now) == date_time,
        forall|j: int|
            k <= j < i ==> Time::candidate_time(j, language).spec_to_chrono_max(now) != date_time,
    ensures
        Time::spec_search(date_time, now, language, k) == Time::candidate_time(i, language),
    decreases i - k,
{
    if k < i {
        lemma_search_reaches(date_time, now, language, k + 1, i);
    }
}

/// Law: canonicalization round-trip. For every symbolic form in the priority
/// list, canonicalizing its own latest bound against the same reference and
/// language yields that form back, provided no higher-priority form lands on
/// the same boundary instant.
pub proof fn lemma_canonicalize_round_trip(i: int, t: Instant, language: Language)
    requires
        0 <= i < 23,
        t.wf(),
        1 <= t.year <= 9999,
        forall|j: int|
            0 <= j < i ==> Time::candidate_time(j, language).spec_to_chrono_max(t) != Time::candidate_time(
                i,
                language,
            ).spec_to_chrono_max(t),
    ensures
        Time::spec_from_max_chrono(
            Time::candidate_time(i, language).spec_to_chrono_max(t),
            Some(t),
            language,
        ) == Time::candidate_time(i, language),
{
    let dt = Time::candidate_time(i, language).spec_to_chrono_max(t);
    lemma_candidate_resolution_midnight(i, t, language);
    lemma_search_reaches(dt, t, language, 0, i);
}

} // verus!
