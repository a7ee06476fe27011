//! The matcher: given an extracted shape and its fields, decides whether
//! the rule fires at a reference instant.  All comparisons are exact at
//! minute resolution; there is no tolerance window.
use vstd::prelude::*;

use crate::calendar::Instant;
use crate::calendar::iso_week;
use crate::calendar::week_of;
use crate::calendar::weekday_index;
use crate::calendar::weekday_of;
use crate::extract::spec_extract;
use crate::rule::FieldsView;
use crate::rule::PatternShape;
use crate::rule::RuleFields;
use crate::rule::fields_wf;
use crate::rule::resolve_hour;
use crate::rule::resolved_hour;
use crate::rule::resolved_minute;
use crate::rule::resolved_year;
use crate::rule::weekday_num;
use crate::rule::weekday_number;

verus! {

/// Whether a rule with shape `sh` and fields `f` fires at instant `t`.
///
/// Absolute dates fire on exact equality of year (explicit or defaulted to
/// the reference year), month, day, hour and minute.  Weekday shapes fire
/// when the reference weekday and time-of-day match.  Daily-time shapes fire
/// on the time-of-day alone.  The cadences fire at 08:00: `daily` every
/// day, `weekly` on Mondays, `biweekly` on Mondays of even ISO weeks, and
/// `monthly` on the first of the month.
pub open spec fn spec_fires(sh: PatternShape, f: FieldsView, t: Instant) -> bool {
    match sh {
        PatternShape::AbsoluteDateTimeExact
        | PatternShape::AbsoluteDateTimeMilitary
        | PatternShape::AbsoluteDateHourOnly
        | PatternShape::AbsoluteDateDefaultTime => {
            &&& t.year == resolved_year(f, t.year as int)
            &&& f.month == Some(t.month)
            &&& f.day == Some(t.day)
            &&& t.hour == resolved_hour(f)
            &&& t.minute == resolved_minute(f)
        },
        PatternShape::WeekdayTimeExact
        | PatternShape::WeekdayTimeMilitary
        | PatternShape::WeekdayHourOnly
        | PatternShape::WeekdayDefaultTime => {
            &&& f.weekday matches Some(w) && weekday_num(w) == weekday_index(
                t.year as int,
                t.month as int,
                t.day as int,
            )
            &&& t.hour == resolved_hour(f)
            &&& t.minute == resolved_minute(f)
        },
        PatternShape::DailyTimeExact
        | PatternShape::DailyTimeMilitary
        | PatternShape::DailyHourOnly => {
            &&& t.hour == resolved_hour(f)
            &&& t.minute == resolved_minute(f)
        },
        PatternShape::Monthly => t.day == 1 && t.hour == 8 && t.minute == 0,
        PatternShape::Biweekly => {
            &&& weekday_index(t.year as int, t.month as int, t.day as int) == 0
            &&& iso_week(t.year as int, t.month as int, t.day as int) % 2 == 0
            &&& t.hour == 8 && t.minute == 0
        },
        PatternShape::Weekly => {
            &&& weekday_index(t.year as int, t.month as int, t.day as int) == 0
            &&& t.hour == 8 && t.minute == 0
        },
        PatternShape::Daily => t.hour == 8 && t.minute == 0,
    }
}

/// Decides `spec_fires`: a pure function of shape, fields and reference
/// instant.
pub fn fires(sh: PatternShape, f: &RuleFields, t: &Instant) -> (r: bool)
    requires
        fields_wf(sh, f@),
        t.wf(),
    ensures
        r == spec_fires(sh, f@, *t),
{
    match sh {
        PatternShape::AbsoluteDateTimeExact
        | PatternShape::AbsoluteDateTimeMilitary
        | PatternShape::AbsoluteDateHourOnly
        | PatternShape::AbsoluteDateDefaultTime => {
            let year_match = match f.year {
                None => true,
                Some(y) => t.year >= 0 && y == t.year as u32,
            };
            let hour = match f.hour {
                None => 8,
                Some(h) => resolve_hour(h, f.pm),
            };
            let minute = match f.minute {
                None => 0,
                Some(mi) => mi,
            };
            let month_match = match f.month {
                None => false,
                Some(m) => m == t.month,
            };
            let day_match = match f.day {
                None => false,
                Some(d) => d == t.day,
            };
            year_match && month_match && day_match && t.hour == hour && t.minute == minute
        },
        PatternShape::WeekdayTimeExact
        | PatternShape::WeekdayTimeMilitary
        | PatternShape::WeekdayHourOnly
        | PatternShape::WeekdayDefaultTime => {
            let wd = weekday_of(t.year, t.month, t.day);
            let wd_match = match f.weekday {
                None => false,
                Some(w) => weekday_number(w) == wd,
            };
            let hour = match f.hour {
                None => 8,
                Some(h) => resolve_hour(h, f.pm),
            };
            let minute = match f.minute {
                None => 0,
                Some(mi) => mi,
            };
            wd_match && t.hour == hour && t.minute == minute
        },
        PatternShape::DailyTimeExact
        | PatternShape::DailyTimeMilitary
        | PatternShape::DailyHourOnly => {
            let hour = match f.hour {
                None => 8,
                Some(h) => resolve_hour(h, f.pm),
            };
            let minute = match f.minute {
                None => 0,
                Some(mi) => mi,
            };
            t.hour == hour && t.minute == minute
        },
        PatternShape::Monthly => t.day == 1 && t.hour == 8 && t.minute == 0,
        PatternShape::Biweekly => {
            weekday_of(t.year, t.month, t.day) == 0 && week_of(t.year, t.month, t.day) % 2 == 0
                && t.hour == 8 && t.minute == 0
        },
        PatternShape::Weekly => {
            weekday_of(t.year, t.month, t.day) == 0 && t.hour == 8 && t.minute == 0
        },
        PatternShape::Daily => t.hour == 8 && t.minute == 0,
    }
}

/// The outcome of checking one line against a reference instant.
pub enum FireDecision {
    /// The line is not a directive, or its rule does not fire at the
    /// reference instant.
    NoFire,
    /// The rule fires; the payload is the free text to deliver.
    Fire(Vec<u8>),
}

/// Checks one line of text against the reference instant: extracts a
/// directive if there is one, and decides whether it fires.
pub fn check_line(line: &[u8], t: &Instant) -> (r: FireDecision)
    requires
        t.wf(),
    ensures
        match spec_extract(line@) {
            None => r is NoFire,
            Some((sh, fv)) => if spec_fires(sh, fv, *t) {
                r matches FireDecision::Fire(p) && p@ == fv.payload
            } else {
                r is NoFire
            },
        },
{
    match crate::extract::extract(line) {
        None => FireDecision::NoFire,
        Some((sh, f)) => {
            if fires(sh, &f, t) {
                FireDecision::Fire(f.payload)
            } else {
                FireDecision::NoFire
            }
        },
    }
}

} // verus!
