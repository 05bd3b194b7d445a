//! The calendar model: concrete instants, day and month arithmetic, and the
//! day-of-week theory that the cyclic anchors build on.

use vstd::prelude::*;

verus! {

/// A concrete UTC instant: a proleptic Gregorian calendar date together with a
/// time of day, at second precision. This is the reference point that every
/// relative or cyclic form is resolved against, and the result type of every
/// resolution.
#[derive(Debug, Clone, Copy, PartialEq, Eq, Structural)]
pub struct Instant {
    pub year: i64,
    pub month: i64,
    pub day: i64,
    pub hour: i64,
    pub minute: i64,
    pub second: i64,
}

pub open spec fn is_leap_year(y: int) -> bool {
    y % 4 == 0 && (y % 100 != 0 || y % 400 == 0)
}

pub open spec fn days_in_month(y: int, m: int) -> int {
    if m == 2 {
        if is_leap_year(y) {
            29
        } else {
            28
        }
    } else if m == 4 || m == 6 || m == 9 || m == 11 {
        30
    } else {
        31
    }
}

pub open spec fn valid_ymd(y: int, m: int, d: int) -> bool {
    1 <= m <= 12 && 1 <= d <= days_in_month(y, m)
}

/// Days in year `y` strictly before month `m`.
pub open spec fn days_before_month(y: int, m: int) -> int {
    let leap: int = if is_leap_year(y) {
        1
    } else {
        0
    };
    if m == 1 {
        0
    } else if m == 2 {
        31
    } else if m == 3 {
        59 + leap
    } else if m == 4 {
        90 + leap
    } else if m == 5 {
        120 + leap
    } else if m == 6 {
        151 + leap
    } else if m == 7 {
        181 + leap
    } else if m == 8 {
        212 + leap
    } else if m == 9 {
        243 + leap
    } else if m == 10 {
        273 + leap
    } else if m == 11 {
        304 + leap
    } else {
        334 + leap
    }
}

pub open spec fn days_in_year(y: int) -> int {
    if is_leap_year(y) {
        366
    } else {
        365
    }
}

/// The calendar day after (y, m, d).
pub open spec fn next_ymd(y: int, m: int, d: int) -> (int, int, int) {
    if d < days_in_month(y, m) {
        (y, m, d + 1)
    } else if m < 12 {
        (y, m + 1, 1)
    } else {
        (y + 1, 1, 1)
    }
}

/// The calendar day before (y, m, d).
pub open spec fn prev_ymd(y: int, m: int, d: int) -> (int, int, int) {
    if d > 1 {
        (y, m, d - 1)
    } else if m > 1 {
        (y, m - 1, days_in_month(y, m - 1))
    } else {
        (y - 1, 12, 31)
    }
}

/// Days since the calendar origin, midnight on 1 January of year 0.
pub open spec fn day_index(y: int, m: int, d: int) -> nat
    decreases y, m, d,
    when 0 <= y && 1 <= m <= 12 && 1 <= d <= 31
{
    if y == 0 && m == 1 && d == 1 {
        0
    } else {
        let p = prev_ymd(y, m, d);
        day_index(p.0, p.1, p.2) + 1
    }
}

/// Day of the week of a date, numbered from Monday = 1 to Sunday = 7.
/// The origin, 1 January of year 0, was a Saturday.
pub open spec fn weekday_of(y: int, m: int, d: int) -> int {
    (day_index(y, m, d) as int + 5) % 7 + 1
}

pub proof fn lemma_prev_next(y: int, m: int, d: int)
    requires
        valid_ymd(y, m, d),
    ensures
        ({
            let n = next_ymd(y, m, d);
            valid_ymd(n.0, n.1, n.2) && prev_ymd(n.0, n.1, n.2) == (y, m, d)
        }),
{
}

pub proof fn lemma_day_index_next(y: int, m: int, d: int)
    requires
        0 <= y,
        valid_ymd(y, m, d),
    ensures
        ({
            let n = next_ymd(y, m, d);
            day_index(n.0, n.1, n.2) == day_index(y, m, d) + 1
        }),
{
    lemma_prev_next(y, m, d);
}

pub proof fn lemma_day_index_day(y: int, m: int, d: int)
    requires
        0 <= y,
        valid_ymd(y, m, d),
    ensures
        day_index(y, m, d) == day_index(y, m, 1) + d - 1,
    decreases d,
{
    if d > 1 {
        lemma_day_index_day(y, m, d - 1);
        lemma_day_index_next(y, m, d - 1);
    }
}

pub proof fn lemma_day_index_month_start(y: int, m: int)
    requires
        0 <= y,
        1 <= m <= 12,
    ensures
        day_index(y, m, 1) == day_index(y, 1, 1) + days_before_month(y, m),
    decreases m,
{
    if m > 1 {
        lemma_day_index_month_start(y, m - 1);
        lemma_day_index_day(y, m - 1, days_in_month(y, m - 1));
        lemma_day_index_next(y, m - 1, days_in_month(y, m - 1));
    }
}

pub proof fn lemma_day_index_year_step(y: int)
    requires
        0 <= y,
    ensures
        day_index(y + 1, 1, 1) == day_index(y, 1, 1) + days_in_year(y),
{
    lemma_day_index_month_start(y, 12);
    lemma_day_index_day(y, 12, 31);
    lemma_day_index_next(y, 12, 31);
}

impl Instant {
    /// Well-formedness: the date exists in the proleptic Gregorian calendar,
    /// the time of day is in range, and the year is within the span this
    /// library models.
    pub open spec fn wf(self) -> bool {
        &&& -40000 <= self.year <= 40000
        &&& valid_ymd(self.year as int, self.month as int, self.day as int)
        &&& 0 <= self.hour <= 23
        &&& 0 <= self.minute <= 59
        &&& 0 <= self.second <= 59
    }

    pub open spec fn weekday(self) -> int {
        weekday_of(self.year as int, self.month as int, self.day as int)
    }

    pub open spec fn is_midnight(self) -> bool {
        self.hour == 0 && self.minute == 0 && self.second == 0
    }

    /// Chronological order: lexicographic over the calendar fields.
    pub open spec fn le_spec(self, o: Instant) -> bool {
        if self.year != o.year {
            self.year < o.year
        } else if self.month != o.month {
            self.month < o.month
        } else if self.day != o.day {
            self.day < o.day
        } else if self.hour != o.hour {
            self.hour < o.hour
        } else if self.minute != o.minute {
            self.minute < o.minute
        } else {
            self.second <= o.second
        }
    }

    pub open spec fn lt_spec(self, o: Instant) -> bool {
        self.le_spec(o) && self != o
    }

    pub open spec fn spec_with_midnight(self) -> Instant {
        Instant { hour: 0, minute: 0, second: 0, ..self }
    }

    pub open spec fn spec_with_time(self, h: int, mi: int, s: int) -> Instant {
        Instant { hour: h as i64, minute: mi as i64, second: s as i64, ..self }
    }

    pub open spec fn spec_next_day(self) -> Instant {
        let n = next_ymd(self.year as int, self.month as int, self.day as int);
        Instant { year: n.0 as i64, month: n.1 as i64, day: n.2 as i64, ..self }
    }

    pub open spec fn spec_prev_day(self) -> Instant {
        let p = prev_ymd(self.year as int, self.month as int, self.day as int);
        Instant { year: p.0 as i64, month: p.1 as i64, day: p.2 as i64, ..self }
    }

    pub open spec fn spec_add_days(self, n: nat) -> Instant
        decreases n,
    {
        if n == 0 {
            self
        } else {
            self.spec_add_days((n - 1) as nat).spec_next_day()
        }
    }

    pub open spec fn spec_sub_days(self, n: nat) -> Instant
        decreases n,
    {
        if n == 0 {
            self
        } else {
            self.spec_sub_days((n - 1) as nat).spec_prev_day()
        }
    }

    /// Midnight on the first of the month `n` months after this instant's month.
    pub open spec fn spec_add_months_day1(self, n: int) -> Instant {
        let total = self.month - 1 + n;
        Instant {
            year: (self.year + total / 12) as i64,
            month: (total % 12 + 1) as i64,
            day: 1,
            hour: 0,
            minute: 0,
            second: 0,
        }
    }

    /// One month earlier, the day clamped to the length of the target month,
    /// the time of day kept.
    pub open spec fn spec_sub_month_clamped(self) -> Instant {
        let y: int = if self.month == 1 {
            self.year - 1
        } else {
            self.year as int
        };
        let m: int = if self.month == 1 {
            12
        } else {
            self.month - 1
        };
        let d: int = if self.day <= days_in_month(y, m) {
            self.day as int
        } else {
            days_in_month(y, m)
        };
        Instant { year: y as i64, month: m as i64, day: d as i64, ..self }
    }

    pub open spec fn spec_day_index(self) -> nat {
        day_index(self.year as int, self.month as int, self.day as int)
    }
}

pub proof fn lemma_next_day_props(t: Instant)
    requires
        t.wf(),
    ensures
        ({
            let r = t.spec_next_day();
            &&& valid_ymd(r.year as int, r.month as int, r.day as int)
            &&& t.year <= r.year <= t.year + 1
            &&& r.hour == t.hour && r.minute == t.minute && r.second == t.second
            &&& t.lt_spec(r.spec_with_midnight())
            &&& 0 <= t.year ==> r.spec_day_index() == t.spec_day_index() + 1
        }),
{
    lemma_prev_next(t.year as int, t.month as int, t.day as int);
    if 0 <= t.year {
        lemma_day_index_next(t.year as int, t.month as int, t.day as int);
    }
}

pub proof fn lemma_add_days_props(t: Instant, n: nat)
    requires
        t.wf(),
        t.year + n <= 40000,
    ensures
        ({
            let r = t.spec_add_days(n);
            &&& r.wf()
            &&& t.year <= r.year <= t.year + n
            &&& r.hour == t.hour && r.minute == t.minute && r.second == t.second
            &&& (n > 0 ==> t.lt_spec(r.spec_with_midnight()))
            &&& (0 <= t.year ==> r.spec_day_index() == t.spec_day_index() + n)
        }),
    decreases n,
{
    if n > 0 {
        lemma_add_days_props(t, (n - 1) as nat);
        let q = t.spec_add_days((n - 1) as nat);
        lemma_next_day_props(q);
        if 0 <= t.year {
            lemma_day_index_next(q.year as int, q.month as int, q.day as int);
        }
        let r = t.spec_add_days(n);
        if n > 1 {
            assert(t.lt_spec(q.spec_with_midnight()));
            assert(q.spec_with_midnight().le_spec(r.spec_with_midnight()));
        }
    }
}

pub proof fn lemma_prev_day_props(t: Instant)
    requires
        t.wf(),
    ensures
        ({
            let r = t.spec_prev_day();
            &&& valid_ymd(r.year as int, r.month as int, r.day as int)
            &&& t.year - 1 <= r.year <= t.year
            &&& r.hour == t.hour && r.minute == t.minute && r.second == t.second
            &&& r.spec_next_day() == Instant { year: t.year, month: t.month, day: t.day, ..r }
        }),
{
    let p = prev_ymd(t.year as int, t.month as int, t.day as int);
    lemma_prev_next(p.0, p.1, p.2);
}

pub proof fn lemma_sub_days_props(t: Instant, n: nat)
    requires
        t.wf(),
        -40000 <= t.year - n,
    ensures
        ({
            let r = t.spec_sub_days(n);
            &&& r.wf()
            &&& t.year - n <= r.year <= t.year
            &&& r.hour == t.hour && r.minute == t.minute && r.second == t.second
            &&& r.spec_add_days(n) == t
        }),
    decreases n,
{
    if n > 0 {
        lemma_sub_days_props(t, (n - 1) as nat);
        let q = t.spec_sub_days((n - 1) as nat);
        lemma_prev_day_props(q);
        let r = t.spec_sub_days(n);
        assert(r == q.spec_prev_day());
        assert(r.spec_next_day() == q);
        lemma_add_days_shift(r, (n - 1) as nat);
    }
}

/// Stepping back one day lowers the day index by one, away from the origin.
pub proof fn lemma_prev_day_index(t: Instant)
    requires
        t.wf(),
        0 <= t.year,
        t.spec_day_index() >= 1,
    ensures
        ({
            let r = t.spec_prev_day();
            &&& 0 <= r.year
            &&& valid_ymd(r.year as int, r.month as int, r.day as int)
            &&& r.spec_day_index() == t.spec_day_index() - 1
        }),
{
    lemma_prev_day_props(t);
    let r = t.spec_prev_day();
    if t.year == 0 && t.month == 1 && t.day == 1 {
        assert(t.spec_day_index() == 0);
    }
    assert(0 <= r.year);
    lemma_day_index_next(r.year as int, r.month as int, r.day as int);
}

pub proof fn lemma_add_months_props(t: Instant, n: int)
    requires
        t.wf(),
        1 <= n <= 13,
        t.year + 2 <= 40000,
    ensures
        ({
            let r = t.spec_add_months_day1(n);
            &&& r.wf()
            &&& r.is_midnight()
            &&& t.lt_spec(r)
            &&& t.year <= r.year <= t.year + 2
        }),
{
    let total = t.month - 1 + n;
    if total < 12 {
        vstd::arithmetic::div_mod::lemma_basic_div(total, 12);
        vstd::arithmetic::div_mod::lemma_small_mod(total as nat, 12);
    } else if total < 24 {
        vstd::arithmetic::div_mod::lemma_fundamental_div_mod_converse(total, 12, 1, total - 12);
    } else {
        vstd::arithmetic::div_mod::lemma_fundamental_div_mod_converse(total, 12, 2, total - 24);
    }
}

/// Stepping back one month never moves an instant forward.
pub proof fn lemma_sub_month_le(t: Instant)
    requires
        t.wf(),
        -40000 < t.year,
    ensures
        t.spec_sub_month_clamped().le_spec(t),
        t.spec_sub_month_clamped().wf(),
{
}

pub proof fn lemma_add_days_compose(t: Instant, a: nat, b: nat)
    ensures
        t.spec_add_days(a).spec_add_days(b) == t.spec_add_days(a + b),
    decreases b,
{
    if b > 0 {
        lemma_add_days_compose(t, a, (b - 1) as nat);
    }
}

/// Flooring the time of day to midnight commutes with stepping whole days.
pub proof fn lemma_midnight_add_commute(t: Instant, n: nat)
    ensures
        t.spec_with_midnight().spec_add_days(n) == t.spec_add_days(n).spec_with_midnight(),
    decreases n,
{
    if n > 0 {
        lemma_midnight_add_commute(t, (n - 1) as nat);
    }
}

/// Going back fewer than a month crosses at most one year boundary.
pub proof fn lemma_sub_days_year_bound(t: Instant, n: nat)
    requires
        t.wf(),
        n <= 29,
        -40000 <= t.year - n,
    ensures
        ({
            let r = t.spec_sub_days(n);
            &&& r.year >= t.year - 1
            &&& (r.year == t.year - 1 ==> r.month == 12 && r.day >= 31 - (n - 1))
        }),
    decreases n,
{
    if n > 0 {
        lemma_sub_days_year_bound(t, (n - 1) as nat);
        lemma_sub_days_props(t, (n - 1) as nat);
        let q = t.spec_sub_days((n - 1) as nat);
        lemma_prev_day_props(q);
    }
}

/// spec_add_days applied after one extra leading day steps through spec_next_day.
proof fn lemma_add_days_shift(t: Instant, n: nat)
    ensures
        t.spec_next_day().spec_add_days(n) == t.spec_add_days(n + 1),
    decreases n,
{
    if n == 0 {
        assert(t.spec_add_days(1) == t.spec_add_days(0).spec_next_day());
    } else {
        lemma_add_days_shift(t, (n - 1) as nat);
        assert(t.spec_next_day().spec_add_days(n) == t.spec_next_day().spec_add_days(
            (n - 1) as nat,
        ).spec_next_day());
        assert(t.spec_add_days(n + 1) == t.spec_add_days(n).spec_next_day());
    }
}

fn leap_year_check(y: i64) -> (r: bool)
    requires
        -40000 <= y <= 40000,
    ensures
        r == is_leap_year(y as int),
{
    let z = y + 40000;
    proof {
        vstd::arithmetic::div_mod::lemma_mod_multiples_vanish(10000, y as int, 4);
        vstd::arithmetic::div_mod::lemma_mod_multiples_vanish(400, y as int, 100);
        vstd::arithmetic::div_mod::lemma_mod_multiples_vanish(100, y as int, 400);
    }
    z % 4 == 0 && (z % 100 != 0 || z % 400 == 0)
}

pub fn days_in_month_count(y: i64, m: i64) -> (r: i64)
    requires
        -40000 <= y <= 40000,
        1 <= m <= 12,
    ensures
        r == days_in_month(y as int, m as int),
{
    if m == 2 {
        if leap_year_check(y) {
            29
        } else {
            28
        }
    } else if m == 4 || m == 6 || m == 9 || m == 11 {
        30
    } else {
        31
    }
}

fn days_in_year_count(y: i64) -> (r: i64)
    requires
        -40000 <= y <= 40000,
    ensures
        r == days_in_year(y as int),
{
    if leap_year_check(y) {
        366
    } else {
        365
    }
}

fn days_before_month_count(y: i64, m: i64) -> (r: i64)
    requires
        -40000 <= y <= 40000,
        1 <= m <= 12,
    ensures
        r == days_before_month(y as int, m as int),
{
    let leap: i64 = if leap_year_check(y) {
        1
    } else {
        0
    };
    if m == 1 {
        0
    } else if m == 2 {
        31
    } else if m == 3 {
        59 + leap
    } else if m == 4 {
        90 + leap
    } else if m == 5 {
        120 + leap
    } else if m == 6 {
        151 + leap
    } else if m == 7 {
        181 + leap
    } else if m == 8 {
        212 + leap
    } else if m == 9 {
        243 + leap
    } else if m == 10 {
        273 + leap
    } else if m == 11 {
        304 + leap
    } else {
        334 + leap
    }
}

impl Instant {
    /// Builds an instant from its six fields, or returns None when they do not
    /// name an existing calendar date and time within the modelled span.
    pub fn new(year: i64, month: i64, day: i64, hour: i64, minute: i64, second: i64) -> (r:
        Option<Instant>)
        ensures
            ({
                let c = Instant { year, month, day, hour, minute, second };
                if c.wf() {
                    r == Some(c)
                } else {
                    r == None::<Instant>
                }
            }),
    {
        let c = Instant { year, month, day, hour, minute, second };
        if -40000 <= year && year <= 40000 && 1 <= month && month <= 12 && 1 <= day && day
            <= days_in_month_count(year, month) && 0 <= hour && hour <= 23 && 0 <= minute && minute
            <= 59 && 0 <= second && second <= 59 {
            Some(c)
        } else {
            None
        }
    }

    /// The first representable instant of the Unix epoch day, 1 January 1970.
    /// Irrealizable calendar combinations resolve here.
    pub fn epoch() -> (r: Instant)
        ensures
            r == spec_epoch(),
    {
        Instant { year: 1970, month: 1, day: 1, hour: 0, minute: 0, second: 0 }
    }

    pub fn le(&self, o: &Instant) -> (r: bool)
        ensures
            r == self.le_spec(*o),
    {
        if self.year != o.year {
            self.year < o.year
        } else if self.month != o.month {
            self.month < o.month
        } else if self.day != o.day {
            self.day < o.day
        } else if self.hour != o.hour {
            self.hour < o.hour
        } else if self.minute != o.minute {
            self.minute < o.minute
        } else {
            self.second <= o.second
        }
    }

    pub fn with_midnight(self) -> (r: Instant)
        ensures
            r == self.spec_with_midnight(),
    {
        Instant { hour: 0, minute: 0, second: 0, ..self }
    }

    pub fn with_time(self, h: i64, mi: i64, s: i64) -> (r: Instant)
        ensures
            r == self.spec_with_time(h as int, mi as int, s as int),
    {
        Instant { hour: h, minute: mi, second: s, ..self }
    }

    fn next_day(self) -> (r: Instant)
        requires
            self.wf(),
            self.year < 40000,
        ensures
            r == self.spec_next_day(),
    {
        let dim = days_in_month_count(self.year, self.month);
        if self.day < dim {
            Instant { day: self.day + 1, ..self }
        } else if self.month < 12 {
            Instant { month: self.month + 1, day: 1, ..self }
        } else {
            Instant { year: self.year + 1, month: 1, day: 1, ..self }
        }
    }

    fn prev_day(self) -> (r: Instant)
        requires
            self.wf(),
            -40000 < self.year,
        ensures
            r == self.spec_prev_day(),
    {
        if self.day > 1 {
            Instant { day: self.day - 1, ..self }
        } else if self.month > 1 {
            let dim = days_in_month_count(self.year, self.month - 1);
            Instant { month: self.month - 1, day: dim, ..self }
        } else {
            Instant { year: self.year - 1, month: 12, day: 31, ..self }
        }
    }

    pub fn add_days(self, n: u64) -> (r: Instant)
        requires
            self.wf(),
            n <= 400,
            self.year + n <= 40000,
        ensures
            r == self.spec_add_days(n as nat),
            r.wf(),
    {
        proof {
            lemma_add_days_props(self, n as nat);
        }
        let mut cur = self;
        let mut i: u64 = 0;
        while i < n
            invariant
                i <= n,
                self.wf(),
                self.year + n <= 40000,
                cur == self.spec_add_days(i as nat),
                cur.wf(),
                self.year <= cur.year <= self.year + i,
            decreases n - i,
        {
            proof {
                lemma_add_days_props(self, (i + 1) as nat);
                lemma_next_day_props(cur);
            }
            cur = cur.next_day();
            i = i + 1;
        }
        cur
    }

    pub fn sub_days(self, n: u64) -> (r: Instant)
        requires
            self.wf(),
            n <= 400,
            -40000 <= self.year - n,
        ensures
            r == self.spec_sub_days(n as nat),
            r.wf(),
    {
        proof {
            lemma_sub_days_props(self, n as nat);
        }
        let mut cur = self;
        let mut i: u64 = 0;
        while i < n
            invariant
                i <= n,
                self.wf(),
                -40000 <= self.year - n,
                cur == self.spec_sub_days(i as nat),
                cur.wf(),
                self.year - i <= cur.year <= self.year,
            decreases n - i,
        {
            proof {
                lemma_sub_days_props(self, (i + 1) as nat);
                lemma_sub_days_props(self, i as nat);
                lemma_prev_day_props(cur);
            }
            cur = cur.prev_day();
            i = i + 1;
        }
        cur
    }

    pub fn add_months_day1(self, n: i64) -> (r: Instant)
        requires
            self.wf(),
            0 <= n <= 13,
            self.year + 2 <= 40000,
        ensures
            r == self.spec_add_months_day1(n as int),
            r.wf(),
            r.is_midnight(),
            self.year <= r.year <= self.year + 2,
    {
        let total = self.month - 1 + n;
        Instant {
            year: self.year + total / 12,
            month: total % 12 + 1,
            day: 1,
            hour: 0,
            minute: 0,
            second: 0,
        }
    }

    pub fn sub_month_clamped(self) -> (r: Instant)
        requires
            self.wf(),
            -40000 < self.year,
        ensures
            r == self.spec_sub_month_clamped(),
            r.wf(),
            r.le_spec(self),
    {
        let (y, m) = if self.month == 1 {
            (self.year - 1, 12)
        } else {
            (self.year, self.month - 1)
        };
        let dim = days_in_month_count(y, m);
        let d = if self.day <= dim {
            self.day
        } else {
            dim
        };
        Instant { year: y, month: m, day: d, ..self }
    }

    /// Day of the week, numbered from Monday = 1 to Sunday = 7.
    pub fn weekday_number(&self) -> (r: i64)
        requires
            self.wf(),
            0 <= self.year,
        ensures
            r == self.weekday(),
            1 <= r <= 7,
    {
        let mut idx: i64 = 0;
        let mut yy: i64 = 0;
        while yy < self.year
            invariant
                0 <= yy <= self.year,
                self.year <= 40000,
                idx == day_index(yy as int, 1, 1),
                0 <= idx <= 366 * yy,
            decreases self.year - yy,
        {
            proof {
                lemma_day_index_year_step(yy as int);
            }
            idx = idx + days_in_year_count(yy);
            yy = yy + 1;
        }
        proof {
            lemma_day_index_month_start(self.year as int, self.month as int);
            lemma_day_index_day(self.year as int, self.month as int, self.day as int);
        }
        let total = idx + days_before_month_count(self.year, self.month) + (self.day - 1);
        (total + 5) % 7 + 1
    }
}

pub open spec fn spec_epoch() -> Instant {
    Instant { year: 1970, month: 1, day: 1, hour: 0, minute: 0, second: 0 }
}

/// The next-occurrence search on a ring of `size` positions: how many whole
/// periods lie between the current position and the target position. A
/// difference of zero counts as zero periods unless `skip_self` forces a full
/// extra cycle.
pub open spec fn ring_steps(target: int, current: int, size: int, skip_self: bool) -> int {
    let difference = target - current;
    let non_negative = if difference < 0 {
        difference + size
    } else {
        difference
    };
    if non_negative == 0 && skip_self {
        size
    } else {
        non_negative
    }
}

} // verus!
