//! Exact date and time types with validation.
//!
//! Every scalar field is validated by clamping: an out-of-range raw value is
//! pulled to the nearest bound, never rejected. After construction through
//! `new` or `validated`, a field always lies within its declared range.

use vstd::prelude::*;

use crate::instant::{days_in_month, days_in_month_count, spec_epoch, valid_ymd, Instant};
use crate::text::{dec_str, dec_string};

verus! {

/// Clamping to a closed range: the nearest in-range value.
pub open spec fn clamp(v: int, lo: int, hi: int) -> int {
    if v < lo {
        lo
    } else if v > hi {
        hi
    } else {
        v
    }
}

#[derive(Debug, Clone, Copy, PartialEq, Eq, Structural)]
pub struct ExactYear(pub i16);

impl Default for ExactYear {
    fn default() -> (r: Self)
        ensures
            r == ExactYear(0i16),
    {
        ExactYear(0)
    }
}

impl ExactYear {
    pub fn text(&self) -> (r: String)
        ensures
            r@ == dec_str(self.0 as int),
    {
        dec_string(self.0 as i64)
    }
}

#[derive(Debug, Clone, Copy, PartialEq, Eq, Structural)]
pub struct ExactMonth(pub u8);

impl Default for ExactMonth {
    fn default() -> (r: Self)
        ensures
            r == ExactMonth(0u8),
    {
        ExactMonth(0)
    }
}

impl ExactMonth {
    pub open spec fn in_range(self) -> bool {
        1 <= self.0 <= 12
    }

    pub open spec fn spec_validated(self) -> Self {
        ExactMonth(clamp(self.0 as int, 1, 12) as u8)
    }

    /// `Ok` carries the unchanged value if it was already in range, `Err` the
    /// clamped value otherwise. No error is ever surfaced beyond this pair.
    pub fn validate(self) -> (r: Result<Self, Self>)
        ensures
            r == (if self.in_range() {
                Result::<Self, Self>::Ok(self)
            } else {
                Result::<Self, Self>::Err(self.spec_validated())
            }),
    {
        let valid: u8 = if self.0 < 1 {
            1
        } else if self.0 > 12 {
            12
        } else {
            self.0
        };
        if self.0 == valid {
            Ok(self)
        } else {
            Err(ExactMonth(valid))
        }
    }

    pub fn new(month: u8) -> (r: Self)
        ensures
            r == ExactMonth(month).spec_validated(),
            r.in_range(),
    {
        ExactMonth(month).validated()
    }

    pub fn validated(self) -> (r: Self)
        ensures
            r == self.spec_validated(),
            r.in_range(),
            self.in_range() ==> r == self,
    {
        match self.validate() {
            Ok(x) => x,
            Err(x) => x,
        }
    }

    pub fn text(&self) -> (r: String)
        ensures
            r@ == dec_str(self.0 as int),
    {
        dec_string(self.0 as i64)
    }
}

#[derive(Debug, Clone, Copy, PartialEq, Eq, Structural)]
pub struct ExactDay(pub u8);

impl Default for ExactDay {
    fn default() -> (r: Self)
        ensures
            r == ExactDay(0u8),
    {
        ExactDay(0)
    }
}

impl ExactDay {
    pub open spec fn in_range(self) -> bool {
        1 <= self.0 <= 31
    }

    pub open spec fn spec_validated(self) -> Self {
        ExactDay(clamp(self.0 as int, 1, 31) as u8)
    }

    pub fn validate(self) -> (r: Result<Self, Self>)
        ensures
            r == (if self.in_range() {
                Result::<Self, Self>::Ok(self)
            } else {
                Result::<Self, Self>::Err(self.spec_validated())
            }),
    {
        let valid: u8 = if self.0 < 1 {
            1
        } else if self.0 > 31 {
            31
        } else {
            self.0
        };
        if self.0 == valid {
            Ok(self)
        } else {
            Err(ExactDay(valid))
        }
    }

    pub fn text(&self) -> (r: String)
        ensures
            r@ == dec_str(self.0 as int),
    {
        dec_string(self.0 as i64)
    }
}

#[derive(Debug, Clone, Copy, PartialEq, Eq, Structural)]
pub struct ExactHour(pub u8);

impl Default for ExactHour {
    fn default() -> (r: Self)
        ensures
            r == ExactHour(0u8),
    {
        ExactHour(0)
    }
}

impl ExactHour {
    pub open spec fn in_range(self) -> bool {
        self.0 <= 23
    }

    pub open spec fn spec_validated(self) -> Self {
        ExactHour(clamp(self.0 as int, 0, 23) as u8)
    }

    pub fn validate(self) -> (r: Result<Self, Self>)
        ensures
            r == (if self.in_range() {
                Result::<Self, Self>::Ok(self)
            } else {
                Result::<Self, Self>::Err(self.spec_validated())
            }),
    {
        if self.0 <= 23 {
            Ok(self)
        } else {
            Err(ExactHour(23))
        }
    }

    pub fn new(hour: u8) -> (r: Self)
        ensures
            r == ExactHour(hour).spec_validated(),
            r.in_range(),
    {
        ExactHour(hour).validated()
    }

    pub fn validated(self) -> (r: Self)
        ensures
            r == self.spec_validated(),
            r.in_range(),
            self.in_range() ==> r == self,
    {
        match self.validate() {
            Ok(x) => x,
            Err(x) => x,
        }
    }

    pub fn text(&self) -> (r: String)
        ensures
            r@ == dec_str(self.0 as int),
    {
        dec_string(self.0 as i64)
    }
}

#[derive(Debug, Clone, Copy, PartialEq, Eq, Structural)]
pub struct ExactMinute(pub u8);

impl Default for ExactMinute {
    fn default() -> (r: Self)
        ensures
            r == ExactMinute(0u8),
    {
        ExactMinute(0)
    }
}

impl ExactMinute {
    pub open spec fn in_range(self) -> bool {
        self.0 <= 59
    }

    pub open spec fn spec_validated(self) -> Self {
        ExactMinute(clamp(self.0 as int, 0, 59) as u8)
    }

    pub fn validate(self) -> (r: Result<Self, Self>)
        ensures
            r == (if self.in_range() {
                Result::<Self, Self>::Ok(self)
            } else {
                Result::<Self, Self>::Err(self.spec_validated())
            }),
    {
        if self.0 <= 59 {
            Ok(self)
        } else {
            Err(ExactMinute(59))
        }
    }

    pub fn new(minute: u8) -> (r: Self)
        ensures
            r == ExactMinute(minute).spec_validated(),
            r.in_range(),
    {
        ExactMinute(minute).validated()
    }

    pub fn validated(self) -> (r: Self)
        ensures
            r == self.spec_validated(),
            r.in_range(),
            self.in_range() ==> r == self,
    {
        match self.validate() {
            Ok(x) => x,
            Err(x) => x,
        }
    }

    pub fn text(&self) -> (r: String)
        ensures
            r@ == dec_str(self.0 as int),
    {
        dec_string(self.0 as i64)
    }
}

#[derive(Debug, Clone, Copy, PartialEq, Eq, Structural)]
pub struct ExactSecond(pub u8);

impl Default for ExactSecond {
    fn default() -> (r: Self)
        ensures
            r == ExactSecond(0u8),
    {
        ExactSecond(0)
    }
}

impl ExactSecond {
    pub open spec fn in_range(self) -> bool {
        self.0 <= 59
    }

    pub open spec fn spec_validated(self) -> Self {
        ExactSecond(clamp(self.0 as int, 0, 59) as u8)
    }

    pub fn validate(self) -> (r: Result<Self, Self>)
        ensures
            r == (if self.in_range() {
                Result::<Self, Self>::Ok(self)
            } else {
                Result::<Self, Self>::Err(self.spec_validated())
            }),
    {
        if self.0 <= 59 {
            Ok(self)
        } else {
            Err(ExactSecond(59))
        }
    }

    pub fn new(second: u8) -> (r: Self)
        ensures
            r == ExactSecond(second).spec_validated(),
            r.in_range(),
    {
        ExactSecond(second).validated()
    }

    pub fn validated(self) -> (r: Self)
        ensures
            r == self.spec_validated(),
            r.in_range(),
            self.in_range() ==> r == self,
    {
        match self.validate() {
            Ok(x) => x,
            Err(x) => x,
        }
    }

    pub fn text(&self) -> (r: String)
        ensures
            r@ == dec_str(self.0 as int),
    {
        dec_string(self.0 as i64)
    }
}

/// A calendar date, optionally without a year for recurring dates.
#[derive(Debug, Clone, Copy, PartialEq, Eq, Structural)]
pub enum ExactDate {
    WithYear(ExactYear, ExactMonth, ExactDay),
    WithoutYear(ExactMonth, ExactDay),
}

impl ExactDate {
    pub open spec fn spec_is_valid(self) -> bool {
        match self {
            ExactDate::WithYear(_y, m, d) => m.in_range() && d.in_range(),
            ExactDate::WithoutYear(m, d) => m.in_range() && d.in_range(),
        }
    }

    pub open spec fn spec_validated(self) -> Self {
        match self {
            ExactDate::WithYear(y, m, d) => ExactDate::WithYear(
                y,
                m.spec_validated(),
                d.spec_validated(),
            ),
            ExactDate::WithoutYear(m, d) => ExactDate::WithoutYear(
                m.spec_validated(),
                d.spec_validated(),
            ),
        }
    }

    pub fn validate(self) -> (r: Result<Self, Self>)
        ensures
            r == (if self.spec_is_valid() {
                Result::<Self, Self>::Ok(self)
            } else {
                Result::<Self, Self>::Err(self.spec_validated())
            }),
    {
        match self {
            ExactDate::WithYear(y, m, d) => match (m.validate(), d.validate()) {
                (Ok(m), Ok(d)) => Ok(ExactDate::WithYear(y, m, d)),
                (Ok(m), Err(d)) => Err(ExactDate::WithYear(y, m, d)),
                (Err(m), Ok(d)) => Err(ExactDate::WithYear(y, m, d)),
                (Err(m), Err(d)) => Err(ExactDate::WithYear(y, m, d)),
            },
            ExactDate::WithoutYear(m, d) => match (m.validate(), d.validate()) {
                (Ok(m), Ok(d)) => Ok(ExactDate::WithoutYear(m, d)),
                (Ok(m), Err(d)) => Err(ExactDate::WithoutYear(m, d)),
                (Err(m), Ok(d)) => Err(ExactDate::WithoutYear(m, d)),
                (Err(m), Err(d)) => Err(ExactDate::WithoutYear(m, d)),
            },
        }
    }

    pub fn new(year: Option<i16>, month: u8, day: u8) -> (r: Self)
        ensures
            r == (match year {
                Some(y) => ExactDate::WithYear(
                    ExactYear(y),
                    ExactMonth(month),
                    ExactDay(day),
                ).spec_validated(),
                None => ExactDate::WithoutYear(
                    ExactMonth(month),
                    ExactDay(day),
                ).spec_validated(),
            }),
            r.spec_is_valid(),
    {
        match year {
            Some(year) => ExactDate::WithYear(
                ExactYear(year),
                ExactMonth(month),
                ExactDay(day),
            ).validated(),
            None => ExactDate::WithoutYear(ExactMonth(month), ExactDay(day)).validated(),
        }
    }

    pub fn validated(self) -> (r: Self)
        ensures
            r == self.spec_validated(),
            r.spec_is_valid(),
            self.spec_is_valid() ==> r == self,
    {
        match self.validate() {
            Ok(x) => x,
            Err(x) => x,
        }
    }

    pub fn from_chrono(x: Instant) -> (r: Self)
        requires
            x.wf(),
            -32768 <= x.year <= 32767,
        ensures
            r == ExactDate::WithYear(
                ExactYear(x.year as i16),
                ExactMonth(x.month as u8),
                ExactDay(x.day as u8),
            ),
    {
        ExactDate::WithYear(ExactYear(x.year as i16), ExactMonth(x.month as u8), ExactDay(
            x.day as u8,
        ))
    }

    /// The (year, month, day) named by the earliest reading: a missing year is
    /// taken verbatim from the reference.
    pub open spec fn spec_min_ymd(self, rel: Instant) -> (int, int, int) {
        match self {
            ExactDate::WithYear(y, m, d) => (y.0 as int, m.0 as int, d.0 as int),
            ExactDate::WithoutYear(m, d) => (rel.year as int, m.0 as int, d.0 as int),
        }
    }

    /// The (year, month, day) named by the latest reading: a missing year is
    /// the reference's year, or the year after it when the (month, day) pair
    /// has already fully elapsed at the reference date.
    pub open spec fn spec_max_ymd(self, rel: Instant) -> (int, int, int) {
        match self {
            ExactDate::WithYear(y, m, d) => (y.0 as int, m.0 as int, d.0 as int),
            ExactDate::WithoutYear(m, d) => {
                let y: int = if rel.month > m.0 || (rel.month == m.0 && rel.day > d.0) {
                    rel.year + 1
                } else {
                    rel.year as int
                };
                (y, m.0 as int, d.0 as int)
            },
        }
    }

    /// Midnight on the given calendar day, or the epoch default when that
    /// combination does not exist in the calendar.
    pub open spec fn spec_realize(t: (int, int, int)) -> Instant {
        if valid_ymd(t.0, t.1, t.2) {
            Instant {
                year: t.0 as i64,
                month: t.1 as i64,
                day: t.2 as i64,
                hour: 0,
                minute: 0,
                second: 0,
            }
        } else {
            spec_epoch()
        }
    }

    pub open spec fn spec_to_chrono_min(self, rel: Instant) -> Instant {
        Self::spec_realize(self.spec_min_ymd(rel))
    }

    pub open spec fn spec_to_chrono_max(self, rel: Instant) -> Instant {
        Self::spec_realize(self.spec_max_ymd(rel))
    }

    pub fn to_chrono_min(&self, relative_to: Instant) -> (r: Instant)
        requires
            relative_to.wf(),
        ensures
            r == self.spec_to_chrono_min(relative_to),
            r.wf(),
            r.is_midnight(),
    {
        let (y, m, d): (i64, i64, i64) = match *self {
            ExactDate::WithYear(y, m, d) => (y.0 as i64, m.0 as i64, d.0 as i64),
            ExactDate::WithoutYear(m, d) => (relative_to.year, m.0 as i64, d.0 as i64),
        };
        Self::realize(y, m, d)
    }

    pub fn to_chrono_max(&self, relative_to: Instant) -> (r: Instant)
        requires
            relative_to.wf(),
            relative_to.year < 40000,
        ensures
            r == self.spec_to_chrono_max(relative_to),
            r.wf(),
            r.is_midnight(),
    {
        let (y, m, d): (i64, i64, i64) = match *self {
            ExactDate::WithYear(y, m, d) => (y.0 as i64, m.0 as i64, d.0 as i64),
            ExactDate::WithoutYear(m, d) => {
                let year: i64 = if relative_to.month > m.0 as i64 || (relative_to.month
                    == m.0 as i64 && relative_to.day > d.0 as i64) {
                    relative_to.year + 1
                } else {
                    relative_to.year
                };
                (year, m.0 as i64, d.0 as i64)
            },
        };
        Self::realize(y, m, d)
    }

    fn realize(y: i64, m: i64, d: i64) -> (r: Instant)
        requires
            -40000 <= y <= 40000,
        ensures
            r == Self::spec_realize((y as int, m as int, d as int)),
            r.wf(),
            r.is_midnight(),
    {
        if 1 <= m && m <= 12 && 1 <= d && d <= days_in_month_count(y, m) {
            Instant { year: y, month: m, day: d, hour: 0, minute: 0, second: 0 }
        } else {
            Instant::epoch()
        }
    }

    /// Day, month and year separated by slashes, the year left out when the
    /// date has none.
    pub fn text(&self) -> (r: String)
        ensures
            r@ == (match *self {
                ExactDate::WithYear(y, m, d) => dec_str(d.0 as int) + "/"@ + dec_str(m.0 as int)
                    + "/"@ + dec_str(y.0 as int),
                ExactDate::WithoutYear(m, d) => dec_str(d.0 as int) + "/"@ + dec_str(m.0 as int),
            }),
    {
        match *self {
            ExactDate::WithYear(y, m, d) => d.text().concat("/").concat(m.text().as_str()).concat(
                "/",
            ).concat(y.text().as_str()),
            ExactDate::WithoutYear(m, d) => d.text().concat("/").concat(m.text().as_str()),
        }
    }
}

/// A time of day, optionally without seconds.
#[derive(Debug, Clone, Copy, PartialEq, Eq, Structural)]
pub enum ExactTime {
    WithSecond(ExactHour, ExactMinute, ExactSecond),
    WithoutSecond(ExactHour, ExactMinute),
}

impl ExactTime {
    pub open spec fn spec_is_valid(self) -> bool {
        match self {
            ExactTime::WithSecond(h, m, s) => h.in_range() && m.in_range() && s.in_range(),
            ExactTime::WithoutSecond(h, m) => h.in_range() && m.in_range(),
        }
    }

    pub open spec fn spec_validated(self) -> Self {
        match self {
            ExactTime::WithSecond(h, m, s) => ExactTime::WithSecond(
                h.spec_validated(),
                m.spec_validated(),
                s.spec_validated(),
            ),
            ExactTime::WithoutSecond(h, m) => ExactTime::WithoutSecond(
                h.spec_validated(),
                m.spec_validated(),
            ),
        }
    }

    pub fn new(hour: u8, minute: u8, second: Option<u8>) -> (r: Self)
        ensures
            r == (match second {
                Some(s) => ExactTime::WithSecond(
                    ExactHour(hour),
                    ExactMinute(minute),
                    ExactSecond(s),
                ).spec_validated(),
                None => ExactTime::WithoutSecond(
                    ExactHour(hour),
                    ExactMinute(minute),
                ).spec_validated(),
            }),
            r.spec_is_valid(),
    {
        match second {
            Some(second) => ExactTime::WithSecond(
                ExactHour(hour),
                ExactMinute(minute),
                ExactSecond(second),
            ).validated(),
            None => ExactTime::WithoutSecond(ExactHour(hour), ExactMinute(minute)).validated(),
        }
    }

    pub fn validated(self) -> (r: Self)
        ensures
            r == self.spec_validated(),
            r.spec_is_valid(),
            self.spec_is_valid() ==> r == self,
    {
        match self.validate() {
            Ok(x) => x,
            Err(x) => x,
        }
    }

    pub fn validate(self) -> (r: Result<Self, Self>)
        ensures
            r == (if self.spec_is_valid() {
                Result::<Self, Self>::Ok(self)
            } else {
                Result::<Self, Self>::Err(self.spec_validated())
            }),
    {
        match self {
            ExactTime::WithSecond(hour, minute, second) => match (
                hour.validate(),
                minute.validate(),
                second.validate(),
            ) {
                (Ok(h), Ok(m), Ok(s)) => Ok(ExactTime::WithSecond(h, m, s)),
                (Ok(h), Ok(m), Err(s)) => Err(ExactTime::WithSecond(h, m, s)),
                (Ok(h), Err(m), Ok(s)) => Err(ExactTime::WithSecond(h, m, s)),
                (Ok(h), Err(m), Err(s)) => Err(ExactTime::WithSecond(h, m, s)),
                (Err(h), Ok(m), Ok(s)) => Err(ExactTime::WithSecond(h, m, s)),
                (Err(h), Ok(m), Err(s)) => Err(ExactTime::WithSecond(h, m, s)),
                (Err(h), Err(m), Ok(s)) => Err(ExactTime::WithSecond(h, m, s)),
                (Err(h), Err(m), Err(s)) => Err(ExactTime::WithSecond(h, m, s)),
            },
            ExactTime::WithoutSecond(hour, minute) => match (hour.validate(), minute.validate()) {
                (Ok(h), Ok(m)) => Ok(ExactTime::WithoutSecond(h, m)),
                (Ok(h), Err(m)) => Err(ExactTime::WithoutSecond(h, m)),
                (Err(h), Ok(m)) => Err(ExactTime::WithoutSecond(h, m)),
                (Err(h), Err(m)) => Err(ExactTime::WithoutSecond(h, m)),
            },
        }
    }

    pub fn hour(&self) -> (r: u8)
        ensures
            r == (match *self {
                ExactTime::WithSecond(h, _, _) => h.0,
                ExactTime::WithoutSecond(h, _) => h.0,
            }),
    {
        match *self {
            ExactTime::WithSecond(hour, _, _) => hour.0,
            ExactTime::WithoutSecond(hour, _) => hour.0,
        }
    }

    pub fn minute(&self) -> (r: u8)
        ensures
            r == (match *self {
                ExactTime::WithSecond(_, m, _) => m.0,
                ExactTime::WithoutSecond(_, m) => m.0,
            }),
    {
        match *self {
            ExactTime::WithSecond(_, minute, _) => minute.0,
            ExactTime::WithoutSecond(_, minute) => minute.0,
        }
    }

    /// A missing second reads as zero.
    pub fn second(&self) -> (r: u8)
        ensures
            r == (match *self {
                ExactTime::WithSecond(_, _, s) => s.0 as int,
                ExactTime::WithoutSecond(_, _) => 0int,
            }),
    {
        match *self {
            ExactTime::WithSecond(_, _, second) => second.0,
            ExactTime::WithoutSecond(_, _) => 0,
        }
    }

    pub fn from_chrono(x: Instant) -> (r: Self)
        requires
            x.wf(),
        ensures
            r == ExactTime::WithSecond(
                ExactHour(x.hour as u8),
                ExactMinute(x.minute as u8),
                ExactSecond(x.second as u8),
            ),
    {
        ExactTime::WithSecond(ExactHour(x.hour as u8), ExactMinute(x.minute as u8), ExactSecond(
            x.second as u8,
        ))
    }

    /// The canonical (hour, minute, second) triple: a missing second defaults
    /// to zero, and a triple outside the clock's range falls back to midnight.
    pub open spec fn spec_to_chrono(self) -> (int, int, int) {
        if self.spec_is_valid() {
            match self {
                ExactTime::WithSecond(h, m, s) => (h.0 as int, m.0 as int, s.0 as int),
                ExactTime::WithoutSecond(h, m) => (h.0 as int, m.0 as int, 0int),
            }
        } else {
            (0int, 0int, 0int)
        }
    }

    pub fn to_chrono(&self) -> (r: (u8, u8, u8))
        ensures
            (r.0 as int, r.1 as int, r.2 as int) == self.spec_to_chrono(),
            r.0 <= 23 && r.1 <= 59 && r.2 <= 59,
    {
        let (h, m, s): (u8, u8, u8) = match *self {
            ExactTime::WithSecond(h, m, s) => (h.0, m.0, s.0),
            ExactTime::WithoutSecond(h, m) => (h.0, m.0, 0),
        };
        if h <= 23 && m <= 59 && s <= 59 {
            (h, m, s)
        } else {
            (0, 0, 0)
        }
    }

    /// Hour, minute and, when present, second, separated by colons.
    pub fn text(&self) -> (r: String)
        ensures
            r@ == (match *self {
                ExactTime::WithSecond(h, m, s) => dec_str(h.0 as int) + ":"@ + dec_str(m.0 as int)
                    + ":"@ + dec_str(s.0 as int),
                ExactTime::WithoutSecond(h, m) => dec_str(h.0 as int) + ":"@ + dec_str(m.0 as int),
            }),
    {
        match *self {
            ExactTime::WithSecond(h, m, s) => h.text().concat(":").concat(m.text().as_str()).concat(
                ":",
            ).concat(s.text().as_str()),
            ExactTime::WithoutSecond(h, m) => h.text().concat(":").concat(m.text().as_str()),
        }
    }
}

/// A combination of date and time.
#[derive(Debug, Clone, Copy, PartialEq, Eq, Structural)]
pub struct ExactDateTime(pub ExactDate, pub ExactTime);

impl ExactDateTime {
    pub fn new(date: ExactDate, time: ExactTime) -> (r: Self)
        ensures
            r == ExactDateTime(date.spec_validated(), time.spec_validated()),
            r.spec_is_valid(),
    {
        ExactDateTime(date.validated(), time.validated())
    }

    pub open spec fn spec_is_valid(self) -> bool {
        self.0.spec_is_valid() && self.1.spec_is_valid()
    }

    pub open spec fn spec_validated(self) -> Self {
        ExactDateTime(self.0.spec_validated(), self.1.spec_validated())
    }

    pub fn validate(self) -> (r: Result<Self, Self>)
        ensures
            r == (if self.spec_is_valid() {
                Result::<Self, Self>::Ok(self)
            } else {
                Result::<Self, Self>::Err(self.spec_validated())
            }),
    {
        match (self.0.validate(), self.1.validate()) {
            (Ok(m), Ok(d)) => Ok(ExactDateTime(m, d)),
            (Ok(m), Err(d)) => Err(ExactDateTime(m, d)),
            (Err(m), Ok(d)) => Err(ExactDateTime(m, d)),
            (Err(m), Err(d)) => Err(ExactDateTime(m, d)),
        }
    }

    pub open spec fn spec_to_chrono_min(self, rel: Instant) -> Instant {
        let t = self.1.spec_to_chrono();
        self.0.spec_to_chrono_min(rel).spec_with_time(t.0, t.1, t.2)
    }

    pub open spec fn spec_to_chrono_max(self, rel: Instant) -> Instant {
        let t = self.1.spec_to_chrono();
        self.0.spec_to_chrono_max(rel).spec_with_time(t.0, t.1, t.2)
    }

    pub fn to_chrono_min(self, relative_to: Instant) -> (r: Instant)
        requires
            relative_to.wf(),
        ensures
            r == self.spec_to_chrono_min(relative_to),
            r.wf(),
    {
        let (h, m, s) = self.1.to_chrono();
        self.0.to_chrono_min(relative_to).with_time(h as i64, m as i64, s as i64)
    }

    pub fn to_chrono_max(self, relative_to: Instant) -> (r: Instant)
        requires
            relative_to.wf(),
            relative_to.year < 40000,
        ensures
            r == self.spec_to_chrono_max(relative_to),
            r.wf(),
    {
        let (h, m, s) = self.1.to_chrono();
        self.0.to_chrono_max(relative_to).with_time(h as i64, m as i64, s as i64)
    }

    pub fn validated(self) -> (r: Self)
        ensures
            r == self.spec_validated(),
            r.spec_is_valid(),
            self.spec_is_valid() ==> r == self,
    {
        match self.validate() {
            Ok(x) => x,
            Err(x) => x,
        }
    }

    /// The date's text and the time's text separated by a space.
    pub fn text(&self) -> (r: String)
        ensures
            r@ == self.0.spec_text_view() + " "@ + self.1.spec_text_view(),
    {
        self.0.text().concat(" ").concat(self.1.text().as_str())
    }
}

/// Law: validation by clamping is idempotent. Validating an already validated
/// month changes nothing, whatever the raw value was.
pub proof fn lemma_validated_idempotent_month(x: ExactMonth)
    ensures
        x.spec_validated().spec_validated() == x.spec_validated(),
{
}

/// Law: validation by clamping is idempotent for days.
pub proof fn lemma_validated_idempotent_day(x: ExactDay)
    ensures
        x.spec_validated().spec_validated() == x.spec_validated(),
{
}

/// Law: validation by clamping is idempotent for hours.
pub proof fn lemma_validated_idempotent_hour(x: ExactHour)
    ensures
        x.spec_validated().spec_validated() == x.spec_validated(),
{
}

/// Law: validation by clamping is idempotent for minutes.
pub proof fn lemma_validated_idempotent_minute(x: ExactMinute)
    ensures
        x.spec_validated().spec_validated() == x.spec_validated(),
{
}

/// Law: validation by clamping is idempotent for seconds.
pub proof fn lemma_validated_idempotent_second(x: ExactSecond)
    ensures
        x.spec_validated().spec_validated() == x.spec_validated(),
{
}

/// Law: validation by clamping is idempotent for whole dates.
pub proof fn lemma_validated_idempotent_date(x: ExactDate)
    ensures
        x.spec_validated().spec_validated() == x.spec_validated(),
{
}

/// Law: validation by clamping is idempotent for times of day.
pub proof fn lemma_validated_idempotent_time(x: ExactTime)
    ensures
        x.spec_validated().spec_validated() == x.spec_validated(),
{
}

/// Law: validation by clamping is idempotent for combined date-times.
pub proof fn lemma_validated_idempotent_datetime(x: ExactDateTime)
    ensures
        x.spec_validated().spec_validated() == x.spec_validated(),
{
}

impl ExactDate {
    /// The earliest and the latest reading of this date either both land on
    /// existing calendar days or both fall back to the epoch default. This
    /// fails only for a year-free date whose (month, day) pair exists in one
    /// of the two candidate years and not in the other — in practice, a
    /// leap-day February the twenty-ninth.
    pub open spec fn resolves_consistently(self, rel: Instant) -> bool {
        let a = self.spec_min_ymd(rel);
        let b = self.spec_max_ymd(rel);
        valid_ymd(a.0, a.1, a.2) <==> valid_ymd(b.0, b.1, b.2)
    }

    /// Law: the earliest reading of a date never lies after the latest one,
    /// as long as the two readings are consistently realizable.
    pub proof fn lemma_min_le_max(self, rel: Instant)
        requires
            rel.wf(),
            rel.year < 40000,
            self.resolves_consistently(rel),
        ensures
            self.spec_to_chrono_min(rel).le_spec(self.spec_to_chrono_max(rel)),
    {
    }
}

/// Law: the earliest reading of a date-time never lies after the latest one,
/// as long as the date's two readings are consistently realizable.
pub proof fn lemma_datetime_min_le_max(x: ExactDateTime, rel: Instant)
    requires
        rel.wf(),
        rel.year < 40000,
        x.0.resolves_consistently(rel),
    ensures
        x.spec_to_chrono_min(rel).le_spec(x.spec_to_chrono_max(rel)),
{
    x.0.lemma_min_le_max(rel);
}

impl ExactDate {
    pub open spec fn spec_text_view(self) -> Seq<char> {
        match self {
            ExactDate::WithYear(y, m, d) => dec_str(d.0 as int) + "/"@ + dec_str(m.0 as int) + "/"@
                + dec_str(y.0 as int),
            ExactDate::WithoutYear(m, d) => dec_str(d.0 as int) + "/"@ + dec_str(m.0 as int),
        }
    }
}

impl ExactTime {
    pub open spec fn spec_text_view(self) -> Seq<char> {
        match self {
            ExactTime::WithSecond(h, m, s) => dec_str(h.0 as int) + ":"@ + dec_str(m.0 as int)
                + ":"@ + dec_str(s.0 as int),
            ExactTime::WithoutSecond(h, m) => dec_str(h.0 as int) + ":"@ + dec_str(m.0 as int),
        }
    }
}

} // verus!
