use reltime::instant::Instant;
use reltime::language::{Language, Swedish};
use reltime::month::{January, Month};
use reltime::relative::{Relative, Today};
use reltime::traits::WithLanguage;
use reltime::weekday::{Monday, Weekday};
use reltime::Time;

/// Creates an Instant for Tuesday July 29th, 2025 at 10:30:05.
fn base_time() -> Instant {
    Instant::new(2025, 7, 29, 10, 30, 5).unwrap()
}

#[test]
fn weekday_next_midnight() {
    let tuesday = base_time();

    let weekday = Weekday::from_chrono(tuesday, false, Language::default());

    assert_eq!(weekday, Weekday::tuesday());

    let midnight_tomorrow = weekday.to_chrono_max(tuesday, false);

    assert_eq!(midnight_tomorrow, Instant::new(2025, 7, 30, 0, 0, 0).unwrap());
}

#[test]
fn weekday_next_midnight_skipping_self() {
    let tuesday = base_time();

    let tuesday_as_weekday = Weekday::from_chrono(tuesday, false, Language::default());

    assert_eq!(tuesday_as_weekday, Weekday::tuesday());

    let midnight_next_wednesday = tuesday_as_weekday.to_chrono_max(tuesday, true);

    assert_eq!(
        midnight_next_wednesday,
        Instant::new(2025, 8, 6, 0, 0, 0).unwrap()
    );
}

#[test]
fn midnight_tomorrow_means_today() {
    let tuesday = base_time();

    let midnight_tomorrow = Instant::new(2025, 7, 30, 0, 0, 0).unwrap();

    let time = Time::from_max_chrono(midnight_tomorrow, Some(tuesday), Language::default());

    assert_eq!(time, Time::Relative(Relative::today()));
}

#[test]
fn midnight_in_two_days_means_tomorrow() {
    let tuesday = base_time();

    let midnight_in_two_days = Instant::new(2025, 7, 31, 0, 0, 0).unwrap();

    let time = Time::from_max_chrono(midnight_in_two_days, Some(tuesday), Language::default());

    assert_eq!(time, Time::Relative(Relative::tomorrow()));
}

#[test]
fn weekday_chrono_min() {
    let tuesday = base_time();

    let tuesday_as_weekday = Weekday::from_chrono(tuesday, false, Language::default());

    assert_eq!(tuesday_as_weekday, Weekday::tuesday());

    let tuesday_as_weekday_min = tuesday_as_weekday.to_chrono_min(tuesday, false);

    let tuesday_min = tuesday;

    assert_eq!(tuesday_min, tuesday_as_weekday_min);
}

#[test]
fn weekday_chrono_min_skipping_self() {
    let tuesday = base_time();

    let tuesday_as_weekday = Weekday::from_chrono(tuesday, false, Language::default());

    assert_eq!(tuesday_as_weekday, Weekday::tuesday());

    let next_tuesday_as_weekday_min = tuesday_as_weekday.to_chrono_min(tuesday, true);

    let next_tuesday_min = Instant::new(2025, 8, 5, 0, 0, 0).unwrap();

    assert_eq!(next_tuesday_min, next_tuesday_as_weekday_min);
}

#[test]
fn weekday_chrono_max() {
    let tuesday = base_time();

    let tuesday_as_weekday = Weekday::from_chrono(tuesday, false, Language::default());

    assert_eq!(tuesday_as_weekday, Weekday::tuesday());

    let tuesday_as_weekday_max = tuesday_as_weekday.to_chrono_max(tuesday, false);

    let tuesday_max = Instant::new(2025, 7, 30, 0, 0, 0).unwrap();

    assert_eq!(tuesday_max, tuesday_as_weekday_max);
}

#[test]
fn weekday_chrono_max_skipping_self() {
    let tuesday = base_time();

    let tuesday_as_weekday = Weekday::from_chrono(tuesday, false, Language::default());

    assert_eq!(tuesday_as_weekday, Weekday::tuesday());

    let tuesday_as_weekday_max = tuesday_as_weekday.to_chrono_max(tuesday, true);

    let tuesday_max = Instant::new(2025, 8, 6, 0, 0, 0).unwrap();

    assert_eq!(tuesday_max, tuesday_as_weekday_max);
}

#[test]
fn midnight_next_monday_means_sunday() {
    let tuesday = base_time();

    let midnight_next_monday = Instant::new(2025, 8, 4, 0, 0, 0).unwrap();

    assert_eq!(midnight_next_monday.weekday_number(), 1, "monday check");

    let time = Time::from_max_chrono(midnight_next_monday, Some(tuesday), Language::default());

    assert_eq!(time, Time::Weekday(Weekday::sunday()));
}

#[test]
fn month_conversions() {
    let tuesday = base_time(); // July 29th, 2025

    let july = Month::from_chrono(tuesday, false, Language::default());
    assert_eq!(july, Month::july());

    // Next occurrence of July should be midnight on August 1st
    let next_july = july.to_chrono_max(tuesday, false);
    assert_eq!(next_july.month, 8);
    assert_eq!(next_july.day, 1);
}

#[test]
fn month_skipping_self() {
    let tuesday = base_time(); // July 29th, 2025

    let july = Month::july();

    // Skipping self should give us next year's July
    let next_july = july.to_chrono_max(tuesday, true);
    assert_eq!(next_july.year, 2026);
    assert_eq!(next_july.month, 8);
    assert_eq!(next_july.day, 1);
}

#[test]
fn relative_today_conversion() {
    let tuesday = base_time();

    let today = Relative::today();

    // Min should be start of today
    let min = today.to_chrono_min(tuesday);
    assert_eq!(min.year, tuesday.year);
    assert_eq!(min.month, tuesday.month);
    assert_eq!(min.day, tuesday.day);
    assert_eq!((min.hour, min.minute, min.second), (0, 0, 0));

    // Max should be start of tomorrow
    let max = today.to_chrono_max(tuesday);
    assert_eq!(max, Instant::new(2025, 7, 30, 0, 0, 0).unwrap());
}

#[test]
fn relative_tomorrow_conversion() {
    let tuesday = base_time();

    let tomorrow = Relative::tomorrow();

    // Min should be start of tomorrow
    let min = tomorrow.to_chrono_min(tuesday);
    assert_eq!(min, Instant::new(2025, 7, 30, 0, 0, 0).unwrap());

    // Max should be start of day after tomorrow
    let max = tomorrow.to_chrono_max(tuesday);
    assert_eq!(max, Instant::new(2025, 7, 31, 0, 0, 0).unwrap());
}

#[test]
fn language_switching_weekday() {
    let monday_english = Monday::default();
    assert_eq!(monday_english.text(), "Monday");

    let monday_swedish = monday_english.with_language(Language::Swedish(Swedish::default()));
    assert_eq!(monday_swedish.text(), "Måndag");
}

#[test]
fn language_switching_month() {
    let january_english = January::default();
    assert_eq!(january_english.text(), "January");

    let january_swedish = january_english.with_language(Language::Swedish(Swedish::default()));
    assert_eq!(january_swedish.text(), "Januari");
}

#[test]
fn language_switching_relative() {
    let today_english = Today::default();
    assert_eq!(today_english.text(), "Today");

    let today_swedish = today_english.with_language(Language::Swedish(Swedish::default()));
    assert_eq!(today_swedish.text(), "Idag");
}

#[test]
fn this_week_conversion() {
    let tuesday = base_time(); // July 29th, 2025

    let this_week = Relative::this_week();

    // This week should end on Sunday midnight (which is the next Monday)
    let max = this_week.to_chrono_max(tuesday);

    // Should be the upcoming Sunday at midnight (which shows as Monday)
    assert_eq!(max.weekday_number(), 1);
}

#[test]
fn next_week_conversion() {
    let tuesday = base_time();

    let next_week = Relative::next_week();

    // Next week should end a week after this week ends
    let max = next_week.to_chrono_max(tuesday);

    // Should be Monday, 7 days after the end of this week
    assert_eq!(max.weekday_number(), 1);

    let this_week_max = Relative::this_week().to_chrono_max(tuesday);
    assert_eq!(max, this_week_max.add_days(7));
}

#[test]
fn this_month_conversion() {
    let tuesday = base_time(); // July 29th, 2025

    let this_month = Relative::this_month();

    // This month should end at midnight on August 1st
    let max = this_month.to_chrono_max(tuesday);
    assert_eq!(max.month, 8);
    assert_eq!(max.day, 1);
    assert_eq!(max.year, 2025);
}

#[test]
fn month_year_boundary() {
    let dec_15 = Instant::new(2025, 12, 15, 10, 0, 0).unwrap();

    // December should wrap to January next year
    let december = Month::december();
    let max = december.to_chrono_max(dec_15, false);

    assert_eq!(max.year, 2026);
    assert_eq!(max.month, 1);
    assert_eq!(max.day, 1);
}

#[test]
fn month_january_in_december() {
    let dec_15 = Instant::new(2025, 12, 15, 10, 0, 0).unwrap();

    // January should be next year when we're in December
    let january = Month::january();
    let max = january.to_chrono_max(dec_15, false);

    assert_eq!(max.year, 2026);
    assert_eq!(max.month, 2);
    assert_eq!(max.day, 1);
}

#[test]
fn weekday_year_boundary() {
    // Test on December 31, 2025 (Wednesday)
    let wed_dec_31 = Instant::new(2025, 12, 31, 10, 0, 0).unwrap();

    // Monday should be next year
    let monday = Weekday::monday();
    let max = monday.to_chrono_max(wed_dec_31, false);

    assert_eq!(max.year, 2026);
    assert_eq!(max.month, 1);
}

#[test]
fn from_max_chrono_preserves_language() {
    let tuesday = base_time();
    let midnight_tomorrow = Instant::new(2025, 7, 30, 0, 0, 0).unwrap();

    let time = Time::from_max_chrono(
        midnight_tomorrow,
        Some(tuesday),
        Language::Swedish(Swedish::default()),
    );

    if let Time::Relative(Relative::Today(today)) = time {
        assert_eq!(today.text(), "Idag");
    } else {
        panic!("Expected Today variant");
    }
}
