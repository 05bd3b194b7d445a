use reltime::exact::{
    ExactDate, ExactDateTime, ExactDay, ExactHour, ExactMinute, ExactMonth, ExactTime, ExactYear,
};
use reltime::instant::Instant;
use reltime::language::Language;
use reltime::relative::Relative;
use reltime::weekday::Weekday;
use reltime::Time;

fn base_time() -> Instant {
    Instant::new(2025, 7, 29, 10, 30, 5).unwrap()
}

#[test]
fn clamping_is_idempotent_on_scalars() {
    // An out-of-range raw value is clamped once; validating again changes nothing.
    let raw = ExactMonth(200);
    let once = raw.validated();
    assert_eq!(once, ExactMonth(12));
    assert_eq!(once.validated(), once);

    let low = ExactMonth(0).validated();
    assert_eq!(low, ExactMonth(1));
    assert_eq!(low.validated(), low);

    let hour = ExactHour(99).validated();
    assert_eq!(hour, ExactHour(23));
    assert_eq!(hour.validated(), hour);

    let minute = ExactMinute::new(255);
    assert_eq!(minute, ExactMinute(59));
}

#[test]
fn clamping_is_idempotent_on_composites() {
    let time = ExactTime::new(99, 99, Some(99));
    assert_eq!(time, time.validated());

    let date = ExactDate::new(Some(2025), 0, 99);
    assert_eq!(date, date.validated());
    assert_eq!(
        date,
        ExactDate::WithYear(ExactYear(2025), ExactMonth(1), ExactDay(31))
    );

    let dt = ExactDateTime::new(date, time);
    assert_eq!(dt, dt.validated());
}

#[test]
fn min_never_exceeds_max() {
    let t = base_time();
    let values = [
        Time::Relative(Relative::today()),
        Time::Relative(Relative::tomorrow()),
        Time::Relative(Relative::this_week()),
        Time::Relative(Relative::next_week()),
        Time::Relative(Relative::this_month()),
        Time::Relative(Relative::Time(ExactTime::new(8, 0, None))),
        Time::Relative(Relative::Time(ExactTime::new(23, 0, None))),
        Time::Relative(Relative::Date(ExactDate::new(None, 3, 15))),
        Time::Relative(Relative::Date(ExactDate::new(None, 12, 25))),
        Time::Weekday(Weekday::monday()),
        Time::Weekday(Weekday::tuesday()),
        Time::Weekday(Weekday::sunday()),
        Time::Month(reltime::month::Month::july()),
        Time::Month(reltime::month::Month::january()),
        Time::Exact(ExactDateTime::new(
            ExactDate::new(Some(2025), 12, 25),
            ExactTime::new(18, 30, None),
        )),
        Time::DateTime(t),
    ];
    for v in values {
        let min = v.to_chrono_min(t);
        let max = v.to_chrono_max(t);
        assert!(min.le(&max));
    }
}

#[test]
fn skip_self_advances_exactly_one_cycle() {
    let tuesday = base_time();
    let anchored = Weekday::tuesday();
    let without = anchored.to_chrono_max(tuesday, false);
    let with = anchored.to_chrono_max(tuesday, true);
    assert_eq!(with, without.add_days(7));
    assert!(without.le(&with));
    assert_ne!(without, with);

    let july = reltime::month::Month::july();
    let without = july.to_chrono_max(tuesday, false);
    let with = july.to_chrono_max(tuesday, true);
    assert_eq!(without, Instant::new(2025, 8, 1, 0, 0, 0).unwrap());
    assert_eq!(with, Instant::new(2026, 8, 1, 0, 0, 0).unwrap());
}

#[test]
fn canonicalize_round_trip_friday() {
    // No higher-priority candidate lands on Friday's boundary from a Tuesday.
    let tuesday = base_time();
    let friday = Time::Weekday(Weekday::friday());
    let boundary = friday.to_chrono_max(tuesday);
    assert_eq!(boundary, Instant::new(2025, 8, 2, 0, 0, 0).unwrap());
    let back = Time::from_max_chrono(boundary, Some(tuesday), Language::default());
    assert_eq!(back, friday);
}

#[test]
fn canonicalize_without_reference_keeps_instant() {
    let midnight = Instant::new(2025, 7, 30, 0, 0, 0).unwrap();
    let back = Time::from_max_chrono(midnight, None, Language::default());
    assert_eq!(back, Time::DateTime(midnight));
}

#[test]
fn canonicalize_away_from_midnight_keeps_instant() {
    let tuesday = base_time();
    let back = Time::from_max_chrono(tuesday, Some(tuesday), Language::default());
    assert_eq!(back, Time::DateTime(tuesday));
}

#[test]
fn weekday_numbers_of_known_dates() {
    // The Unix epoch day was a Thursday.
    assert_eq!(Instant::epoch().weekday_number(), 4);
    // The first day of 2000 was a Saturday.
    assert_eq!(Instant::new(2000, 1, 1, 0, 0, 0).unwrap().weekday_number(), 6);
    // Leap day 2024 was a Thursday.
    assert_eq!(Instant::new(2024, 2, 29, 12, 0, 0).unwrap().weekday_number(), 4);
}

#[test]
fn instant_rejects_unreal_dates() {
    assert!(Instant::new(2025, 2, 29, 0, 0, 0).is_none());
    assert!(Instant::new(2024, 2, 29, 0, 0, 0).is_some());
    assert!(Instant::new(2025, 4, 31, 0, 0, 0).is_none());
    assert!(Instant::new(2025, 13, 1, 0, 0, 0).is_none());
    assert!(Instant::new(2025, 7, 29, 24, 0, 0).is_none());
}

#[test]
fn this_month_window_is_degenerate() {
    // Both bounds of the this-month window land on the first of next month.
    let tuesday = base_time();
    let this_month = Relative::this_month();
    let min = this_month.to_chrono_min(tuesday);
    let max = this_month.to_chrono_max(tuesday);
    assert_eq!(min, max);
    assert_eq!(max, Instant::new(2025, 8, 1, 0, 0, 0).unwrap());
}

#[test]
fn relative_time_wraps_to_next_day() {
    let tuesday = base_time(); // 10:30:05
    let eight = Relative::Time(ExactTime::new(8, 0, None));
    // 08:00 has already passed: the latest reading is tomorrow morning.
    assert_eq!(
        eight.to_chrono_max(tuesday),
        Instant::new(2025, 7, 30, 8, 0, 0).unwrap()
    );
    // The earliest reading stays on the reference day.
    assert_eq!(
        eight.to_chrono_min(tuesday),
        Instant::new(2025, 7, 29, 8, 0, 0).unwrap()
    );
    // 14:30 is still ahead: both readings stay on the reference day.
    let afternoon = Relative::Time(ExactTime::new(14, 30, None));
    assert_eq!(
        afternoon.to_chrono_max(tuesday),
        Instant::new(2025, 7, 29, 14, 30, 0).unwrap()
    );
}

#[test]
fn from_chrono_midnight_flags() {
    // Midnight on Wednesday counts as Tuesday when the flag is set.
    let midnight = Instant::new(2025, 7, 30, 0, 0, 0).unwrap();
    let shifted = Weekday::from_chrono(midnight, true, Language::default());
    assert_eq!(shifted, Weekday::tuesday());
    let unshifted = Weekday::from_chrono(midnight, false, Language::default());
    assert_eq!(unshifted, Weekday::wednesday());

    // Midnight on the first of August counts as July when the flag is set.
    let first = Instant::new(2025, 8, 1, 0, 0, 0).unwrap();
    let month = reltime::month::Month::from_chrono(first, true, Language::default());
    assert_eq!(month, reltime::month::Month::july());
    let plain = reltime::month::Month::from_chrono(first, false, Language::default());
    assert_eq!(plain, reltime::month::Month::august());
}

#[test]
fn text_rendering() {
    let date = ExactDate::new(Some(2025), 12, 25);
    let time = ExactTime::new(18, 30, None);
    let dt = ExactDateTime::new(date, time);
    assert_eq!(dt.text(), "25/12/2025 18:30");

    let recurring = ExactDate::new(None, 3, 15);
    assert_eq!(recurring.text(), "15/3");

    let with_seconds = ExactTime::new(7, 5, Some(9));
    assert_eq!(with_seconds.text(), "7:5:9");

    let year = ExactYear(-44);
    assert_eq!(year.text(), "-44");
}

#[test]
fn sunday_outranks_this_week_at_the_same_boundary() {
    // Sunday's boundary and the this-week boundary coincide; the weekday wins
    // by priority order.
    let tuesday = base_time();
    let sunday_boundary = Time::Weekday(Weekday::sunday()).to_chrono_max(tuesday);
    let week_boundary = Time::Relative(Relative::this_week()).to_chrono_max(tuesday);
    assert_eq!(sunday_boundary, week_boundary);
    let back = Time::from_max_chrono(sunday_boundary, Some(tuesday), Language::default());
    assert_eq!(back, Time::Weekday(Weekday::sunday()));
}
