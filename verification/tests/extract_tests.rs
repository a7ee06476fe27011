use reminders::extract::extract;
use reminders::rule::PatternShape;
use reminders::rule::RuleFields;
use reminders::rule::Weekday;

fn shape_of(line: &[u8]) -> Option<PatternShape> {
    extract(line).map(|(sh, _)| sh)
}

fn fields_of(line: &[u8]) -> RuleFields {
    extract(line).expect("expected a directive").1
}

#[test]
fn classify_absolute_date_time_exact() {
    assert_eq!(
        shape_of(b"/remind 4/29/2020 1:30pm pay rent"),
        Some(PatternShape::AbsoluteDateTimeExact)
    );
    let f = fields_of(b"/remind 4/29/2020 1:30pm pay rent");
    assert_eq!(f.month, Some(4));
    assert_eq!(f.day, Some(29));
    assert_eq!(f.year, Some(2020));
    assert_eq!(f.hour, Some(1));
    assert_eq!(f.minute, Some(30));
    assert_eq!(f.pm, Some(true));
    assert_eq!(f.weekday, None);
    assert_eq!(f.payload, b"pay rent".to_vec());
}

#[test]
fn classify_absolute_date_time_military() {
    assert_eq!(shape_of(b"/remind 4/29 13:30 x"), Some(PatternShape::AbsoluteDateTimeMilitary));
    let f = fields_of(b"/remind 4/29 13:30 x");
    assert_eq!(f.hour, Some(13));
    assert_eq!(f.minute, Some(30));
    assert_eq!(f.pm, None);
    assert_eq!(f.year, None);
}

#[test]
fn classify_absolute_date_hour_only() {
    assert_eq!(shape_of(b"/remind 4/29 1pm x"), Some(PatternShape::AbsoluteDateHourOnly));
    let f = fields_of(b"/remind 4/29 1pm x");
    assert_eq!(f.hour, Some(1));
    assert_eq!(f.minute, None);
    assert_eq!(f.pm, Some(true));
}

#[test]
fn classify_absolute_date_default_time() {
    assert_eq!(shape_of(b"/remind 4/29 dentist"), Some(PatternShape::AbsoluteDateDefaultTime));
    let f = fields_of(b"/remind 4/29 dentist");
    assert_eq!(f.hour, None);
    assert_eq!(f.minute, None);
    assert_eq!(f.payload, b"dentist".to_vec());
}

#[test]
fn classify_weekday_time_exact() {
    assert_eq!(shape_of(b"/remind wed 1:30pm x"), Some(PatternShape::WeekdayTimeExact));
    assert_eq!(fields_of(b"/remind wed 1:30pm x").weekday, Some(Weekday::Wed));
}

#[test]
fn classify_weekday_time_military() {
    assert_eq!(shape_of(b"/remind wed 13:00 x"), Some(PatternShape::WeekdayTimeMilitary));
}

#[test]
fn classify_weekday_hour_only() {
    assert_eq!(shape_of(b"/remind wed 1pm x"), Some(PatternShape::WeekdayHourOnly));
}

#[test]
fn classify_weekday_default_time() {
    assert_eq!(shape_of(b"/remind wed errands"), Some(PatternShape::WeekdayDefaultTime));
}

#[test]
fn classify_daily_time_exact() {
    assert_eq!(shape_of(b"/remind 1:30pm x"), Some(PatternShape::DailyTimeExact));
}

#[test]
fn classify_daily_time_military() {
    assert_eq!(shape_of(b"/remind 13:30 x"), Some(PatternShape::DailyTimeMilitary));
}

#[test]
fn classify_daily_hour_only() {
    assert_eq!(shape_of(b"/remind 1pm x"), Some(PatternShape::DailyHourOnly));
}

#[test]
fn classify_cadences() {
    assert_eq!(shape_of(b"/remind monthly x"), Some(PatternShape::Monthly));
    assert_eq!(shape_of(b"/remind biweekly x"), Some(PatternShape::Biweekly));
    assert_eq!(shape_of(b"/remind weekly x"), Some(PatternShape::Weekly));
    assert_eq!(shape_of(b"/remind daily x"), Some(PatternShape::Daily));
}

#[test]
fn monthly_keyword_is_not_a_weekday() {
    // "monthly" begins with "mon" but is not a prefix of "monday".
    assert_eq!(shape_of(b"/remind monthly test"), Some(PatternShape::Monthly));
    assert_eq!(shape_of(b"/remind monday test"), Some(PatternShape::WeekdayDefaultTime));
}

#[test]
fn trigger_aliases() {
    assert_eq!(shape_of(b"/rem 4/29 x"), Some(PatternShape::AbsoluteDateDefaultTime));
    assert_eq!(shape_of(b"/r 4/29 x"), Some(PatternShape::AbsoluteDateDefaultTime));
    assert_eq!(shape_of(b"/retest 4/29 x"), None);
    assert_eq!(shape_of(b"remind 4/29 x"), None);
}

#[test]
fn task_suffix_form() {
    let line = b"- [ ] pay rent /remind 4/29/20 1:30pm";
    assert_eq!(shape_of(line), Some(PatternShape::AbsoluteDateTimeExact));
    let f = fields_of(line);
    assert_eq!(f.year, Some(2020));
    assert_eq!(f.payload, b"pay rent".to_vec());
}

#[test]
fn task_suffix_requires_open_checkbox() {
    assert_eq!(shape_of(b"- [x] done /remind 4/29"), None);
    assert_eq!(shape_of(b"  - [ ] indented /r mon"), Some(PatternShape::WeekdayDefaultTime));
}

#[test]
fn task_suffix_greedy_text() {
    // With two triggers, the free text is greedy: the rightmost split that
    // matches the winning shape is taken.
    let line = b"- [ ] a /r mon /r 4/29";
    assert_eq!(shape_of(line), Some(PatternShape::AbsoluteDateDefaultTime));
    assert_eq!(fields_of(line).payload, b"a /r mon".to_vec());
}

#[test]
fn task_suffix_trailing_text_is_not_a_directive() {
    // In the suffix form the pattern must end the line.
    assert_eq!(shape_of(b"- [ ] a /r mon stuff"), None);
}

#[test]
fn task_suffix_all_families() {
    assert_eq!(
        shape_of(b"- [ ] a /rem 4/29 13:30"),
        Some(PatternShape::AbsoluteDateTimeMilitary)
    );
    assert_eq!(shape_of(b"- [ ] a /r fri 7am"), Some(PatternShape::WeekdayHourOnly));
    assert_eq!(shape_of(b"- [ ] a /remind 6:45am"), Some(PatternShape::DailyTimeExact));
    assert_eq!(shape_of(b"- [ ] a /rem daily"), Some(PatternShape::Daily));
    assert_eq!(shape_of(b"- [ ] a /r biweekly"), Some(PatternShape::Biweekly));
    // Trailing whitespace after the pattern is allowed in the suffix form.
    assert_eq!(shape_of(b"- [ ] a /r monthly  "), Some(PatternShape::Monthly));
    let f = fields_of(b"- [ ] water the garden /r sun 9:30am");
    assert_eq!(f.weekday, Some(Weekday::Sun));
    assert_eq!(f.hour, Some(9));
    assert_eq!(f.minute, Some(30));
    assert_eq!(f.pm, Some(false));
    assert_eq!(f.payload, b"water the garden".to_vec());
}

#[test]
fn priority_date_with_unseparated_time_is_payload() {
    // Without trailing whitespace after the time there is no payload slot,
    // so the line falls through to the date-only shape.
    let line = b"/remind 4/29 7:30pm";
    assert_eq!(shape_of(line), Some(PatternShape::AbsoluteDateDefaultTime));
    assert_eq!(fields_of(line).payload, b"7:30pm".to_vec());
}

#[test]
fn free_text_only_is_not_a_directive() {
    // A trigger followed by free text alone never matches any shape.
    assert_eq!(shape_of(b"/remind buy milk"), None);
    assert_eq!(shape_of(b"/remind"), None);
    assert_eq!(shape_of(b"buy milk"), None);
    assert_eq!(shape_of(b""), None);
}

#[test]
fn weekday_tokens_case_insensitive_prefixes() {
    assert_eq!(fields_of(b"/remind Wednesday x").weekday, Some(Weekday::Wed));
    assert_eq!(fields_of(b"/remind wed x").weekday, Some(Weekday::Wed));
    assert_eq!(fields_of(b"/remind WED x").weekday, Some(Weekday::Wed));
    assert_eq!(fields_of(b"/remind Tues x").weekday, Some(Weekday::Tue));
    assert_eq!(fields_of(b"/remind saturday x").weekday, Some(Weekday::Sat));
    // Two letters are not enough, and non-prefixes do not resolve.
    assert_eq!(shape_of(b"/remind we 13:00 x"), None);
    assert_eq!(shape_of(b"/remind wednesdays x"), None);
}

#[test]
fn year_digits_normalization() {
    assert_eq!(fields_of(b"/r 1/2/99 x").year, Some(2099));
    assert_eq!(fields_of(b"/r 1/2/00 x").year, Some(2000));
    assert_eq!(fields_of(b"/r 1/2/2020 x").year, Some(2020));
    // A four-digit year passes through unchanged, small as it may be.
    assert_eq!(fields_of(b"/r 1/2/0099 x").year, Some(99));
}

#[test]
fn malformed_tokens_do_not_match() {
    assert_eq!(shape_of(b"/remind 4/299 x"), None);
    assert_eq!(shape_of(b"/remind 4/29/201 x"), None);
    assert_eq!(shape_of(b"/remind 7:305am x"), None);
    assert_eq!(shape_of(b"/remind 123/4 x"), None);
}

#[test]
fn payload_is_trimmed() {
    assert_eq!(fields_of(b"/remind wed   spaced out  ").payload, b"spaced out".to_vec());
}
