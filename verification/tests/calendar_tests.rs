use chrono::Datelike;
use reminders::calendar::month_length;
use reminders::calendar::ordinal_day;
use reminders::calendar::week_of;
use reminders::calendar::weekday_of;
use reminders::calendar::weeks_in_year;

#[test]
fn weekday_known_dates() {
    // 0 = Monday .. 6 = Sunday.
    assert_eq!(weekday_of(2024, 1, 1), 0);
    assert_eq!(weekday_of(2020, 4, 29), 2);
    assert_eq!(weekday_of(1970, 1, 1), 3);
    assert_eq!(weekday_of(2000, 2, 29), 1);
    assert_eq!(weekday_of(1, 1, 1), 0);
    assert_eq!(weekday_of(1999, 12, 31), 4);
}

#[test]
fn iso_week_known_dates() {
    assert_eq!(week_of(2024, 1, 1), 1);
    assert_eq!(week_of(2024, 1, 8), 2);
    // 2020 had 53 ISO weeks, and its last week spills into 2021.
    assert_eq!(week_of(2020, 12, 31), 53);
    assert_eq!(week_of(2021, 1, 1), 53);
    assert_eq!(week_of(2021, 1, 4), 1);
    // 2016-01-01 fell in the last week of 2015.
    assert_eq!(week_of(2016, 1, 1), 53);
    // 2019-12-30 is the Monday of week 1 of 2020.
    assert_eq!(week_of(2019, 12, 30), 1);
    // 2017-01-01 was a Sunday of week 52 of 2016.
    assert_eq!(week_of(2017, 1, 1), 52);
}

#[test]
fn weeks_in_year_examples() {
    assert_eq!(weeks_in_year(2020), 53);
    assert_eq!(weeks_in_year(2015), 53);
    assert_eq!(weeks_in_year(2024), 52);
    assert_eq!(weeks_in_year(2021), 52);
}

#[test]
fn month_lengths() {
    assert_eq!(month_length(2023, 2), 28);
    assert_eq!(month_length(2024, 2), 29);
    assert_eq!(month_length(2000, 2), 29);
    assert_eq!(month_length(1900, 2), 28);
    assert_eq!(month_length(2024, 4), 30);
    assert_eq!(month_length(2024, 12), 31);
}

#[test]
fn ordinal_day_examples() {
    assert_eq!(ordinal_day(2023, 1, 1), 1);
    assert_eq!(ordinal_day(2023, 12, 31), 365);
    assert_eq!(ordinal_day(2024, 12, 31), 366);
    assert_eq!(ordinal_day(2024, 3, 1), 61);
}

#[test]
fn calendar_agrees_with_chrono_over_a_decade() {
    let mut d = chrono::NaiveDate::from_ymd_opt(2018, 1, 1).unwrap();
    let end = chrono::NaiveDate::from_ymd_opt(2028, 12, 31).unwrap();
    while d <= end {
        let y = d.year();
        let m = d.month();
        let day = d.day();
        assert_eq!(weekday_of(y, m, day), d.weekday().num_days_from_monday());
        assert_eq!(week_of(y, m, day), d.iso_week().week());
        d = d.succ_opt().unwrap();
    }
}
