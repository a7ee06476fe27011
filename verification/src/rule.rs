//! The data model of the rule language: the pattern shapes, the fields a
//! directive carries, and the resolution of partial fields (two-digit years,
//! am/pm hours, defaulted times) into concrete target values.
use vstd::prelude::*;

verus! {

/// Days of the week.
#[derive(Clone, Copy, PartialEq, Eq, Structural, Debug)]
pub enum Weekday {
    Mon,
    Tue,
    Wed,
    Thu,
    Fri,
    Sat,
    Sun,
}

/// Index of a weekday, 0 = Monday .. 6 = Sunday, matching
/// `calendar::weekday_index`.
pub open spec fn weekday_num(w: Weekday) -> int {
    match w {
        Weekday::Mon => 0,
        Weekday::Tue => 1,
        Weekday::Wed => 2,
        Weekday::Thu => 3,
        Weekday::Fri => 4,
        Weekday::Sat => 5,
        Weekday::Sun => 6,
    }
}

/// Exec mirror of `weekday_num`.
pub fn weekday_number(w: Weekday) -> (r: u32)
    ensures
        r == weekday_num(w),
{
    match w {
        Weekday::Mon => 0,
        Weekday::Tue => 1,
        Weekday::Wed => 2,
        Weekday::Thu => 3,
        Weekday::Fri => 4,
        Weekday::Sat => 5,
        Weekday::Sun => 6,
    }
}

/// The grammar variants a directive can match, most specific first.  The
/// extractor tries them in exactly this order and the first match wins.
#[derive(Clone, Copy, PartialEq, Eq, Structural, Debug)]
pub enum PatternShape {
    /// `M/D[/Y] H:MMam|pm`
    AbsoluteDateTimeExact,
    /// `M/D[/Y] H:MM`
    AbsoluteDateTimeMilitary,
    /// `M/D[/Y] Ham|pm`
    AbsoluteDateHourOnly,
    /// `M/D[/Y]`, time defaulting to 08:00
    AbsoluteDateDefaultTime,
    /// `<weekday> H:MMam|pm`
    WeekdayTimeExact,
    /// `<weekday> H:MM`
    WeekdayTimeMilitary,
    /// `<weekday> Ham|pm`
    WeekdayHourOnly,
    /// `<weekday>`, time defaulting to 08:00
    WeekdayDefaultTime,
    /// `H:MMam|pm`, every day
    DailyTimeExact,
    /// `H:MM`, every day
    DailyTimeMilitary,
    /// `Ham|pm`, every day
    DailyHourOnly,
    /// `monthly`: the 1st at 08:00
    Monthly,
    /// `biweekly`: Mondays of even ISO weeks at 08:00
    Biweekly,
    /// `weekly`: Mondays at 08:00
    Weekly,
    /// `daily`: every day at 08:00
    Daily,
}

/// Priority rank of a shape: lower ranks are tried first.
pub open spec fn priority(sh: PatternShape) -> int {
    match sh {
        PatternShape::AbsoluteDateTimeExact => 0,
        PatternShape::AbsoluteDateTimeMilitary => 1,
        PatternShape::AbsoluteDateHourOnly => 2,
        PatternShape::AbsoluteDateDefaultTime => 3,
        PatternShape::WeekdayTimeExact => 4,
        PatternShape::WeekdayTimeMilitary => 5,
        PatternShape::WeekdayHourOnly => 6,
        PatternShape::WeekdayDefaultTime => 7,
        PatternShape::DailyTimeExact => 8,
        PatternShape::DailyTimeMilitary => 9,
        PatternShape::DailyHourOnly => 10,
        PatternShape::Monthly => 11,
        PatternShape::Biweekly => 12,
        PatternShape::Weekly => 13,
        PatternShape::Daily => 14,
    }
}

/// The fields captured from a directive.  Which fields are present is fixed
/// by the shape; see `fields_wf`.
pub struct RuleFields {
    /// Month 1..12 as written (the grammar allows any one or two digits).
    pub month: Option<u32>,
    /// Day of month as written.
    pub day: Option<u32>,
    /// Explicit year, already normalized: two-digit years have 2000 added.
    pub year: Option<u32>,
    /// Hour as written; interpreted through `pm` when that is present.
    pub hour: Option<u32>,
    /// Minute as written.
    pub minute: Option<u32>,
    /// `Some(true)` for a `pm` suffix, `Some(false)` for `am`, `None` for
    /// 24-hour and defaulted forms.
    pub pm: Option<bool>,
    /// Resolved weekday for the weekday shapes.
    pub weekday: Option<Weekday>,
    /// Free text of the reminder, surrounding whitespace trimmed.
    pub payload: Vec<u8>,
}

/// Ghost mirror of `RuleFields`.
pub struct FieldsView {
    pub month: Option<u32>,
    pub day: Option<u32>,
    pub year: Option<u32>,
    pub hour: Option<u32>,
    pub minute: Option<u32>,
    pub pm: Option<bool>,
    pub weekday: Option<Weekday>,
    pub payload: Seq<u8>,
}

impl View for RuleFields {
    type V = FieldsView;

    open spec fn view(&self) -> FieldsView {
        FieldsView {
            month: self.month,
            day: self.day,
            year: self.year,
            hour: self.hour,
            minute: self.minute,
            pm: self.pm,
            weekday: self.weekday,
            payload: self.payload@,
        }
    }
}

/// Presence and range of each field, per shape.  Dates carry month and day
/// (and possibly a year); weekday shapes carry a weekday; exact times carry
/// hour and minute; hour-only forms carry an hour and an am/pm flag; the
/// cadence keywords carry nothing.
pub open spec fn fields_wf(sh: PatternShape, f: FieldsView) -> bool {
    &&& match sh {
        PatternShape::AbsoluteDateTimeExact
        | PatternShape::AbsoluteDateTimeMilitary
        | PatternShape::AbsoluteDateHourOnly
        | PatternShape::AbsoluteDateDefaultTime => {
            &&& f.month matches Some(m) && m <= 99
            &&& f.day matches Some(d) && d <= 99
            &&& (f.year matches Some(y) ==> y <= 9999)
            &&& f.weekday is None
        },
        PatternShape::WeekdayTimeExact
        | PatternShape::WeekdayTimeMilitary
        | PatternShape::WeekdayHourOnly
        | PatternShape::WeekdayDefaultTime => {
            &&& f.weekday is Some
            &&& f.month is None
            &&& f.day is None
            &&& f.year is None
        },
        _ => {
            &&& f.weekday is None
            &&& f.month is None
            &&& f.day is None
            &&& f.year is None
        },
    }
    &&& match sh {
        PatternShape::AbsoluteDateTimeExact
        | PatternShape::WeekdayTimeExact
        | PatternShape::DailyTimeExact => {
            &&& f.hour matches Some(h) && h <= 99
            &&& f.minute matches Some(mi) && mi <= 99
            &&& f.pm is Some
        },
        PatternShape::AbsoluteDateTimeMilitary
        | PatternShape::WeekdayTimeMilitary
        | PatternShape::DailyTimeMilitary => {
            &&& f.hour matches Some(h) && h <= 99
            &&& f.minute matches Some(mi) && mi <= 99
            &&& f.pm is None
        },
        PatternShape::AbsoluteDateHourOnly
        | PatternShape::WeekdayHourOnly
        | PatternShape::DailyHourOnly => {
            &&& f.hour matches Some(h) && h <= 99
            &&& f.minute is None
            &&& f.pm is Some
        },
        _ => {
            &&& f.hour is None
            &&& f.minute is None
            &&& f.pm is None
        },
    }
}

/// A two-digit year is moved into 2000..2099; longer years pass through.
pub open spec fn spec_normalize_year(v: int, digits: int) -> int {
    if digits == 2 {
        v + 2000
    } else {
        v
    }
}

/// Normalizes an explicit year field: `digits` is the number of digits the
/// year was written with (two or four), `v` their value.
pub fn normalize_year(v: u32, digits: u32) -> (r: u32)
    requires
        digits == 2 || digits == 4,
        digits == 2 ==> v <= 99,
        digits == 4 ==> v <= 9999,
    ensures
        r == spec_normalize_year(v as int, digits as int),
        digits == 2 ==> 2000 <= r <= 2099,
        digits == 4 ==> r == v,
        r <= 9999,
{
    if digits == 2 {
        v + 2000
    } else {
        v
    }
}

/// The hour a rule denotes: `pm` adds twelve to hours below twelve; `am`,
/// 24-hour forms, and hours of twelve and above pass through; an absent hour
/// defaults to 8.
pub open spec fn resolved_hour(f: FieldsView) -> int {
    match f.hour {
        None => 8,
        Some(h) => if f.pm == Some(true) && h < 12 {
            h + 12
        } else {
            h as int
        },
    }
}

/// The minute a rule denotes: absent minutes default to 0.
pub open spec fn resolved_minute(f: FieldsView) -> int {
    match f.minute {
        None => 0,
        Some(mi) => mi as int,
    }
}

/// The year an absolute date denotes: the explicit (already normalized)
/// year when present, else the reference year.
pub open spec fn resolved_year(f: FieldsView, reference_year: int) -> int {
    match f.year {
        None => reference_year,
        Some(y) => y as int,
    }
}

/// Exec mirror of `resolved_hour` for a present hour field.
pub fn resolve_hour(hour: u32, pm: Option<bool>) -> (r: u32)
    requires
        hour <= 99,
    ensures
        r == (if pm == Some(true) && hour < 12 {
            hour + 12
        } else {
            hour as int
        }),
        r <= 99,
{
    let is_pm = match pm {
        Some(b) => b,
        None => false,
    };
    if is_pm && hour < 12 {
        hour + 12
    } else {
        hour
    }
}

} // verus!
