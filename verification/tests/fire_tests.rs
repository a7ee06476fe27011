use reminders::calendar::Instant;
use reminders::extract::extract;
use reminders::fire::check_line;
use reminders::fire::fires;
use reminders::fire::FireDecision;
use reminders::rule::resolve_hour;

fn at(year: i32, month: u32, day: u32, hour: u32, minute: u32) -> Instant {
    Instant::new(year, month, day, hour, minute).expect("valid instant")
}

fn fired_payload(line: &[u8], t: &Instant) -> Option<Vec<u8>> {
    match check_line(line, t) {
        FireDecision::Fire(p) => Some(p),
        FireDecision::NoFire => None,
    }
}

#[test]
fn absolute_date_fires_exactly() {
    let line = b"/remind 4/29/2020 1pm test3";
    assert_eq!(fired_payload(line, &at(2020, 4, 29, 13, 0)), Some(b"test3".to_vec()));
    assert_eq!(fired_payload(line, &at(2020, 4, 29, 13, 1)), None);
    assert_eq!(fired_payload(line, &at(2020, 4, 29, 12, 0)), None);
    assert_eq!(fired_payload(line, &at(2021, 4, 29, 13, 0)), None);
}

#[test]
fn absolute_date_without_year_fires_every_year() {
    let line = b"/remind 4/29 13:30 x";
    assert_eq!(fired_payload(line, &at(2020, 4, 29, 13, 30)), Some(b"x".to_vec()));
    assert_eq!(fired_payload(line, &at(2023, 4, 29, 13, 30)), Some(b"x".to_vec()));
    assert_eq!(fired_payload(line, &at(2023, 4, 30, 13, 30)), None);
}

#[test]
fn absolute_date_default_time_is_eight() {
    let line = b"/remind 4/29 dentist";
    assert_eq!(fired_payload(line, &at(2022, 4, 29, 8, 0)), Some(b"dentist".to_vec()));
    assert_eq!(fired_payload(line, &at(2022, 4, 29, 8, 1)), None);
    assert_eq!(fired_payload(line, &at(2022, 4, 29, 20, 0)), None);
}

#[test]
fn weekday_rule_fires_on_matching_weekday() {
    let line = b"/remind wed 13:00 test6m";
    // 2020-04-29 was a Wednesday; 2020-04-30 a Thursday.
    assert_eq!(fired_payload(line, &at(2020, 4, 29, 13, 0)), Some(b"test6m".to_vec()));
    assert_eq!(fired_payload(line, &at(2020, 5, 6, 13, 0)), Some(b"test6m".to_vec()));
    assert_eq!(fired_payload(line, &at(2020, 4, 30, 13, 0)), None);
    assert_eq!(fired_payload(line, &at(2020, 4, 29, 13, 1)), None);
}

#[test]
fn weekday_default_time_fires_at_eight() {
    let line = b"- [ ] trash /r tue";
    // 2024-04-09 was a Tuesday.
    assert_eq!(fired_payload(line, &at(2024, 4, 9, 8, 0)), Some(b"trash".to_vec()));
    assert_eq!(fired_payload(line, &at(2024, 4, 9, 9, 0)), None);
    assert_eq!(fired_payload(line, &at(2024, 4, 10, 8, 0)), None);
}

#[test]
fn daily_time_fires_on_time_alone() {
    let line = b"/remind 6:45am stretch";
    assert_eq!(fired_payload(line, &at(2021, 1, 1, 6, 45)), Some(b"stretch".to_vec()));
    assert_eq!(fired_payload(line, &at(2027, 9, 13, 6, 45)), Some(b"stretch".to_vec()));
    assert_eq!(fired_payload(line, &at(2021, 1, 1, 18, 45)), None);
}

#[test]
fn monthly_fires_first_of_month_at_eight() {
    let line = b"/remind monthly test";
    assert_eq!(fired_payload(line, &at(2024, 3, 1, 8, 0)), Some(b"test".to_vec()));
    assert_eq!(fired_payload(line, &at(2024, 3, 2, 8, 0)), None);
    assert_eq!(fired_payload(line, &at(2024, 3, 1, 8, 1)), None);
}

#[test]
fn weekly_fires_monday_at_eight() {
    let line = b"/remind weekly test";
    // 2024-01-08 was a Monday.
    assert_eq!(fired_payload(line, &at(2024, 1, 8, 8, 0)), Some(b"test".to_vec()));
    assert_eq!(fired_payload(line, &at(2024, 1, 9, 8, 0)), None);
}

#[test]
fn biweekly_fires_monday_of_even_iso_week() {
    let line = b"/remind biweekly test";
    // 2024-01-01 is the Monday of ISO week 1; 2024-01-08 of week 2.
    assert_eq!(fired_payload(line, &at(2024, 1, 1, 8, 0)), None);
    assert_eq!(fired_payload(line, &at(2024, 1, 8, 8, 0)), Some(b"test".to_vec()));
    assert_eq!(fired_payload(line, &at(2024, 1, 15, 8, 0)), None);
    assert_eq!(fired_payload(line, &at(2024, 1, 8, 8, 1)), None);
}

#[test]
fn daily_fires_at_eight() {
    let line = b"/remind daily test";
    assert_eq!(fired_payload(line, &at(2024, 3, 5, 8, 0)), Some(b"test".to_vec()));
    assert_eq!(fired_payload(line, &at(2024, 3, 5, 8, 1)), None);
}

#[test]
fn non_directive_never_fires() {
    assert_eq!(fired_payload(b"/remind buy milk", &at(2024, 3, 5, 8, 0)), None);
    assert_eq!(fired_payload(b"just a note", &at(2024, 3, 5, 8, 0)), None);
}

#[test]
fn hour_resolution_rules() {
    // 12am and 12pm both stay 12; 1pm becomes 13; a 24-hour 13 passes
    // through.
    assert_eq!(resolve_hour(12, Some(false)), 12);
    assert_eq!(resolve_hour(12, Some(true)), 12);
    assert_eq!(resolve_hour(1, Some(true)), 13);
    assert_eq!(resolve_hour(13, None), 13);
    assert_eq!(resolve_hour(13, Some(true)), 13);
    assert_eq!(resolve_hour(0, Some(false)), 0);
}

#[test]
fn twelve_pm_matches_noon() {
    let line = b"/remind 12pm lunch";
    assert_eq!(fired_payload(line, &at(2024, 3, 5, 12, 0)), Some(b"lunch".to_vec()));
    assert_eq!(fired_payload(line, &at(2024, 3, 5, 0, 0)), None);
}

#[test]
fn matching_is_pure() {
    // The same inputs always give the same decision; nothing is consumed.
    let (sh, f) = extract(b"/remind 4/29/2020 1pm test3").expect("directive");
    let t = at(2020, 4, 29, 13, 0);
    let first = fires(sh, &f, &t);
    let second = fires(sh, &f, &t);
    assert_eq!(first, second);
    assert!(first);
    let t2 = at(2020, 4, 29, 13, 1);
    assert_eq!(fires(sh, &f, &t2), fires(sh, &f, &t2));
    assert!(!fires(sh, &f, &t2));
}

#[test]
fn scan_of_mixed_lines() {
    let text = "# notes\n\
                /remind daily stand up\n\
                just a plain line\n\
                - [ ] water plants /r wed 9:00\n\
                /remind buy milk\n\
                - [x] done thing /r daily\n";
    let t = at(2024, 4, 3, 9, 0);  // a Wednesday at 09:00
    let mut fired: Vec<Vec<u8>> = Vec::new();
    for line in text.lines() {
        if let FireDecision::Fire(p) = check_line(line.as_bytes(), &t) {
            fired.push(p);
        }
    }
    assert_eq!(fired, vec![b"water plants".to_vec()]);

    let t2 = at(2024, 4, 3, 8, 0);
    let mut fired2: Vec<Vec<u8>> = Vec::new();
    for line in text.lines() {
        if let FireDecision::Fire(p) = check_line(line.as_bytes(), &t2) {
            fired2.push(p);
        }
    }
    assert_eq!(fired2, vec![b"stand up".to_vec()]);
}

#[test]
fn instant_validation() {
    assert!(Instant::new(2024, 2, 29, 0, 0).is_some());
    assert!(Instant::new(2023, 2, 29, 0, 0).is_none());
    assert!(Instant::new(2024, 2, 30, 0, 0).is_none());
    assert!(Instant::new(2024, 4, 31, 0, 0).is_none());
    assert!(Instant::new(2024, 13, 1, 0, 0).is_none());
    assert!(Instant::new(2024, 1, 1, 24, 0).is_none());
    assert!(Instant::new(2024, 1, 1, 0, 60).is_none());
    assert!(Instant::new(0, 1, 1, 0, 0).is_none());
}
