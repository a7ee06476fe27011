//! The extractor: decides whether a line is a recurrence directive and, if
//! so, which pattern shape it matches and which fields it carries.
//!
//! A directive is either a line-start form - a trigger alias (`/remind`,
//! `/rem`, `/r`), the pattern tokens, whitespace, then free text - or a
//! checklist-suffix form - `- [ ]`, free text, the trigger, then the pattern
//! tokens running to the end of the line.  Shapes are tried most specific
//! first and the first whose grammar matches wins; in the suffix form the
//! free text is greedy, so of several candidate trigger positions for the
//! winning shape the rightmost is taken.
use vstd::prelude::*;

use crate::rule::FieldsView;
use crate::rule::PatternShape;
use crate::rule::RuleFields;
use crate::rule::fields_wf;
use crate::rule::priority;
use crate::scan::is_ws;
use crate::scan::find_token_end;
use crate::scan::find_trim_end;
use crate::scan::find_ws_end;
use crate::scan::token_end;
use crate::scan::trim_end;
use crate::scan::ws_end;
use crate::token::alias_end;
use crate::token::ampm_time_is_pm;
use crate::token::ampm_time_token;
use crate::token::ampm_time_tok;
use crate::token::biweekly_token;
use crate::token::checkbox_end;
use crate::token::date_day;
use crate::token::date_month;
use crate::token::date_tok;
use crate::token::date_token;
use crate::token::date_year;
use crate::token::daily_token;
use crate::token::find_alias_end;
use crate::token::find_checkbox_end;
use crate::token::hour_ampm_is_pm;
use crate::token::hour_ampm_tok;
use crate::token::hour_ampm_token;
use crate::token::lit_biweekly;
use crate::token::lit_daily;
use crate::token::lit_monthly;
use crate::token::lit_weekly;
use crate::token::mil_time_tok;
use crate::token::mil_time_token;
use crate::token::monthly_token;
use crate::token::read_ampm_time_pm;
use crate::token::read_date;
use crate::token::read_hour;
use crate::token::read_hour_ampm_pm;
use crate::token::read_time;
use crate::token::time_hour;
use crate::token::time_minute;
use crate::token::weekday_of_tok;
use crate::token::weekday_token;
use crate::token::weekly_token;

verus! {

/// The free text of a span: `s[i..j]` with surrounding whitespace trimmed.
pub open spec fn payload_of(s: Seq<u8>, i: int, j: int) -> Seq<u8> {
    let a = ws_end(s, i, j);
    s.subrange(a, trim_end(s, a, j))
}

/// Normalized year of a date token, as an optional field value.
pub open spec fn year_opt(s: Seq<u8>, i: int, j: int) -> Option<u32> {
    match date_year(s, i, j) {
        None => None,
        Some(y) => Some(y as u32),
    }
}

/// The token structure a shape needs at pattern position `p`: its first
/// token (and, for the exact date and weekday shapes, its second).
pub open spec fn tokens_ok(s: Seq<u8>, p: int, sh: PatternShape) -> bool {
    let n = s.len() as int;
    let t1e = token_end(s, p, n);
    let p2 = ws_end(s, t1e, n);
    let t2e = token_end(s, p2, n);
    &&& 0 <= p <= n
    &&& match sh {
        PatternShape::AbsoluteDateTimeExact => date_tok(s, p, t1e) && ampm_time_tok(s, p2, t2e),
        PatternShape::AbsoluteDateTimeMilitary => date_tok(s, p, t1e) && mil_time_tok(s, p2, t2e),
        PatternShape::AbsoluteDateHourOnly => date_tok(s, p, t1e) && hour_ampm_tok(s, p2, t2e),
        PatternShape::AbsoluteDateDefaultTime => date_tok(s, p, t1e),
        PatternShape::WeekdayTimeExact => weekday_of_tok(s, p, t1e) is Some && ampm_time_tok(
            s,
            p2,
            t2e,
        ),
        PatternShape::WeekdayTimeMilitary => weekday_of_tok(s, p, t1e) is Some && mil_time_tok(
            s,
            p2,
            t2e,
        ),
        PatternShape::WeekdayHourOnly => weekday_of_tok(s, p, t1e) is Some && hour_ampm_tok(
            s,
            p2,
            t2e,
        ),
        PatternShape::WeekdayDefaultTime => weekday_of_tok(s, p, t1e) is Some,
        PatternShape::DailyTimeExact => ampm_time_tok(s, p, t1e),
        PatternShape::DailyTimeMilitary => mil_time_tok(s, p, t1e),
        PatternShape::DailyHourOnly => hour_ampm_tok(s, p, t1e),
        PatternShape::Monthly => true,
        PatternShape::Biweekly => true,
        PatternShape::Weekly => true,
        PatternShape::Daily => true,
    }
}

/// The fields a shape captures from the tokens at `p`, with `pay` as the
/// payload.
pub open spec fn fields_at(s: Seq<u8>, p: int, sh: PatternShape, pay: Seq<u8>) -> FieldsView {
    let n = s.len() as int;
    let t1e = token_end(s, p, n);
    let p2 = ws_end(s, t1e, n);
    let t2e = token_end(s, p2, n);
    let none_fields = FieldsView {
        month: None,
        day: None,
        year: None,
        hour: None,
        minute: None,
        pm: None,
        weekday: None,
        payload: pay,
    };
    match sh {
        PatternShape::AbsoluteDateTimeExact => FieldsView {
            month: Some(date_month(s, p, t1e) as u32),
            day: Some(date_day(s, p, t1e) as u32),
            year: year_opt(s, p, t1e),
            hour: Some(time_hour(s, p2, t2e) as u32),
            minute: Some(time_minute(s, p2, t2e) as u32),
            pm: Some(ampm_time_is_pm(s, p2, t2e)),
            ..none_fields
        },
        PatternShape::AbsoluteDateTimeMilitary => FieldsView {
            month: Some(date_month(s, p, t1e) as u32),
            day: Some(date_day(s, p, t1e) as u32),
            year: year_opt(s, p, t1e),
            hour: Some(time_hour(s, p2, t2e) as u32),
            minute: Some(time_minute(s, p2, t2e) as u32),
            ..none_fields
        },
        PatternShape::AbsoluteDateHourOnly => FieldsView {
            month: Some(date_month(s, p, t1e) as u32),
            day: Some(date_day(s, p, t1e) as u32),
            year: year_opt(s, p, t1e),
            hour: Some(time_hour(s, p2, t2e) as u32),
            pm: Some(hour_ampm_is_pm(s, p2, t2e)),
            ..none_fields
        },
        PatternShape::AbsoluteDateDefaultTime => FieldsView {
            month: Some(date_month(s, p, t1e) as u32),
            day: Some(date_day(s, p, t1e) as u32),
            year: year_opt(s, p, t1e),
            ..none_fields
        },
        PatternShape::WeekdayTimeExact => FieldsView {
            weekday: weekday_of_tok(s, p, t1e),
            hour: Some(time_hour(s, p2, t2e) as u32),
            minute: Some(time_minute(s, p2, t2e) as u32),
            pm: Some(ampm_time_is_pm(s, p2, t2e)),
            ..none_fields
        },
        PatternShape::WeekdayTimeMilitary => FieldsView {
            weekday: weekday_of_tok(s, p, t1e),
            hour: Some(time_hour(s, p2, t2e) as u32),
            minute: Some(time_minute(s, p2, t2e) as u32),
            ..none_fields
        },
        PatternShape::WeekdayHourOnly => FieldsView {
            weekday: weekday_of_tok(s, p, t1e),
            hour: Some(time_hour(s, p2, t2e) as u32),
            pm: Some(hour_ampm_is_pm(s, p2, t2e)),
            ..none_fields
        },
        PatternShape::WeekdayDefaultTime => FieldsView {
            weekday: weekday_of_tok(s, p, t1e),
            ..none_fields
        },
        PatternShape::DailyTimeExact => FieldsView {
            hour: Some(time_hour(s, p, t1e) as u32),
            minute: Some(time_minute(s, p, t1e) as u32),
            pm: Some(ampm_time_is_pm(s, p, t1e)),
            ..none_fields
        },
        PatternShape::DailyTimeMilitary => FieldsView {
            hour: Some(time_hour(s, p, t1e) as u32),
            minute: Some(time_minute(s, p, t1e) as u32),
            ..none_fields
        },
        PatternShape::DailyHourOnly => FieldsView {
            hour: Some(time_hour(s, p, t1e) as u32),
            pm: Some(hour_ampm_is_pm(s, p, t1e)),
            ..none_fields
        },
        _ => none_fields,
    }
}

/// Classification of a line-start directive whose pattern text begins at
/// `p`: the first shape, in priority order, whose grammar matches.
pub open spec fn classify_start(s: Seq<u8>, p: int) -> Option<(PatternShape, FieldsView)> {
    let n = s.len() as int;
    let t1e = token_end(s, p, n);
    let p2 = ws_end(s, t1e, n);
    let t2e = token_end(s, p2, n);
    if p == n {
        None
    } else if date_tok(s, p, t1e) {
        if t1e == n {
            None
        } else if ampm_time_tok(s, p2, t2e) && t2e < n {
            Some(
                (
                    PatternShape::AbsoluteDateTimeExact,
                    fields_at(s, p, PatternShape::AbsoluteDateTimeExact, payload_of(s, t2e, n)),
                ),
            )
        } else if mil_time_tok(s, p2, t2e) && t2e < n {
            Some(
                (
                    PatternShape::AbsoluteDateTimeMilitary,
                    fields_at(s, p, PatternShape::AbsoluteDateTimeMilitary, payload_of(s, t2e, n)),
                ),
            )
        } else if hour_ampm_tok(s, p2, t2e) && t2e < n {
            Some(
                (
                    PatternShape::AbsoluteDateHourOnly,
                    fields_at(s, p, PatternShape::AbsoluteDateHourOnly, payload_of(s, t2e, n)),
                ),
            )
        } else {
            Some(
                (
                    PatternShape::AbsoluteDateDefaultTime,
                    fields_at(s, p, PatternShape::AbsoluteDateDefaultTime, payload_of(s, t1e, n)),
                ),
            )
        }
    } else if weekday_of_tok(s, p, t1e) is Some {
        if t1e == n {
            None
        } else if ampm_time_tok(s, p2, t2e) && t2e < n {
            Some(
                (
                    PatternShape::WeekdayTimeExact,
                    fields_at(s, p, PatternShape::WeekdayTimeExact, payload_of(s, t2e, n)),
                ),
            )
        } else if mil_time_tok(s, p2, t2e) && t2e < n {
            Some(
                (
                    PatternShape::WeekdayTimeMilitary,
                    fields_at(s, p, PatternShape::WeekdayTimeMilitary, payload_of(s, t2e, n)),
                ),
            )
        } else if hour_ampm_tok(s, p2, t2e) && t2e < n {
            Some(
                (
                    PatternShape::WeekdayHourOnly,
                    fields_at(s, p, PatternShape::WeekdayHourOnly, payload_of(s, t2e, n)),
                ),
            )
        } else {
            Some(
                (
                    PatternShape::WeekdayDefaultTime,
                    fields_at(s, p, PatternShape::WeekdayDefaultTime, payload_of(s, t1e, n)),
                ),
            )
        }
    } else if ampm_time_tok(s, p, t1e) && t1e < n {
        Some(
            (
                PatternShape::DailyTimeExact,
                fields_at(s, p, PatternShape::DailyTimeExact, payload_of(s, t1e, n)),
            ),
        )
    } else if mil_time_tok(s, p, t1e) && t1e < n {
        Some(
            (
                PatternShape::DailyTimeMilitary,
                fields_at(s, p, PatternShape::DailyTimeMilitary, payload_of(s, t1e, n)),
            ),
        )
    } else if hour_ampm_tok(s, p, t1e) && t1e < n {
        Some(
            (
                PatternShape::DailyHourOnly,
                fields_at(s, p, PatternShape::DailyHourOnly, payload_of(s, t1e, n)),
            ),
        )
    } else if lit_monthly(s, p, t1e) && t1e < n {
        Some((PatternShape::Monthly, fields_at(s, p, PatternShape::Monthly, payload_of(s, t1e, n))))
    } else if lit_biweekly(s, p, t1e) && t1e < n {
        Some(
            (
                PatternShape::Biweekly,
                fields_at(s, p, PatternShape::Biweekly, payload_of(s, t1e, n)),
            ),
        )
    } else if lit_weekly(s, p, t1e) && t1e < n {
        Some((PatternShape::Weekly, fields_at(s, p, PatternShape::Weekly, payload_of(s, t1e, n))))
    } else if lit_daily(s, p, t1e) && t1e < n {
        Some((PatternShape::Daily, fields_at(s, p, PatternShape::Daily, payload_of(s, t1e, n))))
    } else {
        None
    }
}

/// Classification of the pattern tokens of a suffix-form directive starting
/// at `p`: the tokens must run to the end of the line, up to trailing
/// whitespace.
pub open spec fn suffix_shape(s: Seq<u8>, p: int) -> Option<PatternShape> {
    let n = s.len() as int;
    let t1e = token_end(s, p, n);
    let p2 = ws_end(s, t1e, n);
    let t2e = token_end(s, p2, n);
    if p == n {
        None
    } else if date_tok(s, p, t1e) {
        if p2 == n {
            Some(PatternShape::AbsoluteDateDefaultTime)
        } else if ws_end(s, t2e, n) == n {
            if ampm_time_tok(s, p2, t2e) {
                Some(PatternShape::AbsoluteDateTimeExact)
            } else if mil_time_tok(s, p2, t2e) {
                Some(PatternShape::AbsoluteDateTimeMilitary)
            } else if hour_ampm_tok(s, p2, t2e) {
                Some(PatternShape::AbsoluteDateHourOnly)
            } else {
                None
            }
        } else {
            None
        }
    } else if weekday_of_tok(s, p, t1e) is Some {
        if p2 == n {
            Some(PatternShape::WeekdayDefaultTime)
        } else if ws_end(s, t2e, n) == n {
            if ampm_time_tok(s, p2, t2e) {
                Some(PatternShape::WeekdayTimeExact)
            } else if mil_time_tok(s, p2, t2e) {
                Some(PatternShape::WeekdayTimeMilitary)
            } else if hour_ampm_tok(s, p2, t2e) {
                Some(PatternShape::WeekdayHourOnly)
            } else {
                None
            }
        } else {
            None
        }
    } else if p2 == n && ampm_time_tok(s, p, t1e) {
        Some(PatternShape::DailyTimeExact)
    } else if p2 == n && mil_time_tok(s, p, t1e) {
        Some(PatternShape::DailyTimeMilitary)
    } else if p2 == n && hour_ampm_tok(s, p, t1e) {
        Some(PatternShape::DailyHourOnly)
    } else if p2 == n && lit_monthly(s, p, t1e) {
        Some(PatternShape::Monthly)
    } else if p2 == n && lit_biweekly(s, p, t1e) {
        Some(PatternShape::Biweekly)
    } else if p2 == n && lit_weekly(s, p, t1e) {
        Some(PatternShape::Weekly)
    } else if p2 == n && lit_daily(s, p, t1e) {
        Some(PatternShape::Daily)
    } else {
        None
    }
}

/// A valid suffix-form split at trigger position `q`: whitespace before the
/// trigger, at least one byte of free text possible after the checkbox at
/// `b`, and pattern tokens after the trigger that classify.
pub open spec fn split_shape(s: Seq<u8>, b: int, q: int) -> Option<PatternShape> {
    if b + 2 <= q && is_ws(s[q - 1]) {
        match alias_end(s, q) {
            Some(e) => suffix_shape(s, ws_end(s, e, s.len() as int)),
            None => None,
        }
    } else {
        None
    }
}

/// The best suffix-form split among trigger positions in `[b + 2, q]`: the
/// shape of highest priority, and for it the rightmost trigger position
/// (the free text is greedy).
pub open spec fn task_scan(s: Seq<u8>, b: int, q: int) -> Option<(PatternShape, int)>
    decreases q,
{
    if q < b + 2 || q <= 0 {
        None
    } else {
        let rest = task_scan(s, b, q - 1);
        match split_shape(s, b, q) {
            None => rest,
            Some(sh) => match rest {
                None => Some((sh, q)),
                Some((sh2, q2)) => if priority(sh) <= priority(sh2) {
                    Some((sh, q))
                } else {
                    Some((sh2, q2))
                },
            },
        }
    }
}

/// Classification of a suffix-form directive with checkbox end `b`.
pub open spec fn classify_task(s: Seq<u8>, b: int) -> Option<(PatternShape, FieldsView)> {
    let n = s.len() as int;
    match task_scan(s, b, n) {
        None => None,
        Some((sh, q)) => match alias_end(s, q) {
            Some(e) => Some((sh, fields_at(s, ws_end(s, e, n), sh, payload_of(s, b, q - 1)))),
            None => None,
        },
    }
}

/// Classification of a whole line.  `None` means the line is not a
/// directive: it carries no trigger, or nothing after the trigger that the
/// grammar recognizes.
pub open spec fn spec_extract(s: Seq<u8>) -> Option<(PatternShape, FieldsView)> {
    match alias_end(s, 0) {
        Some(e) => classify_start(s, ws_end(s, e, s.len() as int)),
        None => match checkbox_end(s) {
            Some(b) => classify_task(s, b),
            None => None,
        },
    }
}

/// Copies the trimmed free text of `s[i..j]`.
fn copy_payload(s: &[u8], i: usize, j: usize) -> (v: Vec<u8>)
    requires
        i <= j <= s@.len(),
    ensures
        v@ == payload_of(s@, i as int, j as int),
{
    let a = find_ws_end(s, i, j);
    let b = find_trim_end(s, a, j);
    let mut v: Vec<u8> = Vec::new();
    let mut k = a;
    while k < b
        invariant
            a <= k <= b <= s@.len(),
            v@ == s@.subrange(a as int, k as int),
        decreases b - k,
    {
        v.push(s[k]);
        k = k + 1;
        proof {
            assert(s@.subrange(a as int, k as int) =~= s@.subrange(a as int, k - 1).push(
                s@[k - 1],
            ));
        }
    }
    proof {
        assert(v@ =~= payload_of(s@, i as int, j as int));
    }
    v
}

/// Builds the field record of a shape from the tokens at `p`.
fn build_fields(s: &[u8], p: usize, sh: PatternShape, pay: Vec<u8>) -> (f: RuleFields)
    requires
        p <= s@.len(),
        tokens_ok(s@, p as int, sh),
    ensures
        f@ == fields_at(s@, p as int, sh, pay@),
        fields_wf(sh, f@),
{
    let n = s.len();
    let t1e = find_token_end(s, p, n);
    let p2 = find_ws_end(s, t1e, n);
    let t2e = find_token_end(s, p2, n);
    let mut f = RuleFields {
        month: None,
        day: None,
        year: None,
        hour: None,
        minute: None,
        pm: None,
        weekday: None,
        payload: pay,
    };
    match sh {
        PatternShape::AbsoluteDateTimeExact => {
            let (m, d, y) = read_date(s, p, t1e);
            let (h, mi) = read_time(s, p2, t2e);
            f.month = Some(m);
            f.day = Some(d);
            f.year = y;
            f.hour = Some(h);
            f.minute = Some(mi);
            f.pm = Some(read_ampm_time_pm(s, p2, t2e));
        },
        PatternShape::AbsoluteDateTimeMilitary => {
            let (m, d, y) = read_date(s, p, t1e);
            let (h, mi) = read_time(s, p2, t2e);
            f.month = Some(m);
            f.day = Some(d);
            f.year = y;
            f.hour = Some(h);
            f.minute = Some(mi);
        },
        PatternShape::AbsoluteDateHourOnly => {
            let (m, d, y) = read_date(s, p, t1e);
            f.month = Some(m);
            f.day = Some(d);
            f.year = y;
            f.hour = Some(read_hour(s, p2, t2e));
            f.pm = Some(read_hour_ampm_pm(s, p2, t2e));
        },
        PatternShape::AbsoluteDateDefaultTime => {
            let (m, d, y) = read_date(s, p, t1e);
            f.month = Some(m);
            f.day = Some(d);
            f.year = y;
        },
        PatternShape::WeekdayTimeExact => {
            f.weekday = weekday_token(s, p, t1e);
            let (h, mi) = read_time(s, p2, t2e);
            f.hour = Some(h);
            f.minute = Some(mi);
            f.pm = Some(read_ampm_time_pm(s, p2, t2e));
        },
        PatternShape::WeekdayTimeMilitary => {
            f.weekday = weekday_token(s, p, t1e);
            let (h, mi) = read_time(s, p2, t2e);
            f.hour = Some(h);
            f.minute = Some(mi);
        },
        PatternShape::WeekdayHourOnly => {
            f.weekday = weekday_token(s, p, t1e);
            f.hour = Some(read_hour(s, p2, t2e));
            f.pm = Some(read_hour_ampm_pm(s, p2, t2e));
        },
        PatternShape::WeekdayDefaultTime => {
            f.weekday = weekday_token(s, p, t1e);
        },
        PatternShape::DailyTimeExact => {
            let (h, mi) = read_time(s, p, t1e);
            f.hour = Some(h);
            f.minute = Some(mi);
            f.pm = Some(read_ampm_time_pm(s, p, t1e));
        },
        PatternShape::DailyTimeMilitary => {
            let (h, mi) = read_time(s, p, t1e);
            f.hour = Some(h);
            f.minute = Some(mi);
        },
        PatternShape::DailyHourOnly => {
            f.hour = Some(read_hour(s, p, t1e));
            f.pm = Some(read_hour_ampm_pm(s, p, t1e));
        },
        PatternShape::Monthly => {},
        PatternShape::Biweekly => {},
        PatternShape::Weekly => {},
        PatternShape::Daily => {},
    }
    f
}

/// Classification of a line-start directive: exec mirror of
/// `classify_start`.
fn extract_start(s: &[u8], p: usize) -> (r: Option<(PatternShape, RuleFields)>)
    requires
        p <= s@.len(),
    ensures
        match r {
            None => classify_start(s@, p as int) is None,
            Some((sh, f)) => classify_start(s@, p as int) == Some((sh, f@)) && fields_wf(sh, f@),
        },
{
    let n = s.len();
    let t1e = find_token_end(s, p, n);
    if p == n {
        return None;
    }
    let p2 = find_ws_end(s, t1e, n);
    let t2e = find_token_end(s, p2, n);
    if date_token(s, p, t1e) {
        if t1e == n {
            return None;
        }
        if ampm_time_token(s, p2, t2e) && t2e < n {
            let pay = copy_payload(s, t2e, n);
            let f = build_fields(s, p, PatternShape::AbsoluteDateTimeExact, pay);
            return Some((PatternShape::AbsoluteDateTimeExact, f));
        }
        if mil_time_token(s, p2, t2e) && t2e < n {
            let pay = copy_payload(s, t2e, n);
            let f = build_fields(s, p, PatternShape::AbsoluteDateTimeMilitary, pay);
            return Some((PatternShape::AbsoluteDateTimeMilitary, f));
        }
        if hour_ampm_token(s, p2, t2e) && t2e < n {
            let pay = copy_payload(s, t2e, n);
            let f = build_fields(s, p, PatternShape::AbsoluteDateHourOnly, pay);
            return Some((PatternShape::AbsoluteDateHourOnly, f));
        }
        let pay = copy_payload(s, t1e, n);
        let f = build_fields(s, p, PatternShape::AbsoluteDateDefaultTime, pay);
        return Some((PatternShape::AbsoluteDateDefaultTime, f));
    }
    if weekday_token(s, p, t1e).is_some() {
        if t1e == n {
            return None;
        }
        if ampm_time_token(s, p2, t2e) && t2e < n {
            let pay = copy_payload(s, t2e, n);
            let f = build_fields(s, p, PatternShape::WeekdayTimeExact, pay);
            return Some((PatternShape::WeekdayTimeExact, f));
        }
        if mil_time_token(s, p2, t2e) && t2e < n {
            let pay = copy_payload(s, t2e, n);
            let f = build_fields(s, p, PatternShape::WeekdayTimeMilitary, pay);
            return Some((PatternShape::WeekdayTimeMilitary, f));
        }
        if hour_ampm_token(s, p2, t2e) && t2e < n {
            let pay = copy_payload(s, t2e, n);
            let f = build_fields(s, p, PatternShape::WeekdayHourOnly, pay);
            return Some((PatternShape::WeekdayHourOnly, f));
        }
        let pay = copy_payload(s, t1e, n);
        let f = build_fields(s, p, PatternShape::WeekdayDefaultTime, pay);
        return Some((PatternShape::WeekdayDefaultTime, f));
    }
    if ampm_time_token(s, p, t1e) && t1e < n {
        let pay = copy_payload(s, t1e, n);
        let f = build_fields(s, p, PatternShape::DailyTimeExact, pay);
        return Some((PatternShape::DailyTimeExact, f));
    }
    if mil_time_token(s, p, t1e) && t1e < n {
        let pay = copy_payload(s, t1e, n);
        let f = build_fields(s, p, PatternShape::DailyTimeMilitary, pay);
        return Some((PatternShape::DailyTimeMilitary, f));
    }
    if hour_ampm_token(s, p, t1e) && t1e < n {
        let pay = copy_payload(s, t1e, n);
        let f = build_fields(s, p, PatternShape::DailyHourOnly, pay);
        return Some((PatternShape::DailyHourOnly, f));
    }
    if monthly_token(s, p, t1e) && t1e < n {
        let pay = copy_payload(s, t1e, n);
        let f = build_fields(s, p, PatternShape::Monthly, pay);
        return Some((PatternShape::Monthly, f));
    }
    if biweekly_token(s, p, t1e) && t1e < n {
        let pay = copy_payload(s, t1e, n);
        let f = build_fields(s, p, PatternShape::Biweekly, pay);
        return Some((PatternShape::Biweekly, f));
    }
    if weekly_token(s, p, t1e) && t1e < n {
        let pay = copy_payload(s, t1e, n);
        let f = build_fields(s, p, PatternShape::Weekly, pay);
        return Some((PatternShape::Weekly, f));
    }
    if daily_token(s, p, t1e) && t1e < n {
        let pay = copy_payload(s, t1e, n);
        let f = build_fields(s, p, PatternShape::Daily, pay);
        return Some((PatternShape::Daily, f));
    }
    None
}

/// Exec mirror of `suffix_shape`.
fn classify_suffix(s: &[u8], p: usize) -> (r: Option<PatternShape>)
    requires
        p <= s@.len(),
    ensures
        r == suffix_shape(s@, p as int),
{
    let n = s.len();
    let t1e = find_token_end(s, p, n);
    if p == n {
        return None;
    }
    let p2 = find_ws_end(s, t1e, n);
    let t2e = find_token_end(s, p2, n);
    if date_token(s, p, t1e) {
        if p2 == n {
            return Some(PatternShape::AbsoluteDateDefaultTime);
        }
        if find_ws_end(s, t2e, n) == n {
            if ampm_time_token(s, p2, t2e) {
                return Some(PatternShape::AbsoluteDateTimeExact);
            }
            if mil_time_token(s, p2, t2e) {
                return Some(PatternShape::AbsoluteDateTimeMilitary);
            }
            if hour_ampm_token(s, p2, t2e) {
                return Some(PatternShape::AbsoluteDateHourOnly);
            }
            return None;
        }
        return None;
    }
    if weekday_token(s, p, t1e).is_some() {
        if p2 == n {
            return Some(PatternShape::WeekdayDefaultTime);
        }
        if find_ws_end(s, t2e, n) == n {
            if ampm_time_token(s, p2, t2e) {
                return Some(PatternShape::WeekdayTimeExact);
            }
            if mil_time_token(s, p2, t2e) {
                return Some(PatternShape::WeekdayTimeMilitary);
            }
            if hour_ampm_token(s, p2, t2e) {
                return Some(PatternShape::WeekdayHourOnly);
            }
            return None;
        }
        return None;
    }
    if p2 == n && ampm_time_token(s, p, t1e) {
        return Some(PatternShape::DailyTimeExact);
    }
    if p2 == n && mil_time_token(s, p, t1e) {
        return Some(PatternShape::DailyTimeMilitary);
    }
    if p2 == n && hour_ampm_token(s, p, t1e) {
        return Some(PatternShape::DailyHourOnly);
    }
    if p2 == n && monthly_token(s, p, t1e) {
        return Some(PatternShape::Monthly);
    }
    if p2 == n && biweekly_token(s, p, t1e) {
        return Some(PatternShape::Biweekly);
    }
    if p2 == n && weekly_token(s, p, t1e) {
        return Some(PatternShape::Weekly);
    }
    if p2 == n && daily_token(s, p, t1e) {
        return Some(PatternShape::Daily);
    }
    None
}

/// Exec mirror of `priority`.
fn shape_priority(sh: PatternShape) -> (r: u32)
    ensures
        r == priority(sh),
{
    match sh {
        PatternShape::AbsoluteDateTimeExact => 0,
        PatternShape::AbsoluteDateTimeMilitary => 1,
        PatternShape::AbsoluteDateHourOnly => 2,
        PatternShape::AbsoluteDateDefaultTime => 3,
        PatternShape::WeekdayTimeExact => 4,
        PatternShape::WeekdayTimeMilitary => 5,
        PatternShape::WeekdayHourOnly => 6,
        PatternShape::WeekdayDefaultTime => 7,
        PatternShape::DailyTimeExact => 8,
        PatternShape::DailyTimeMilitary => 9,
        PatternShape::DailyHourOnly => 10,
        PatternShape::Monthly => 11,
        PatternShape::Biweekly => 12,
        PatternShape::Weekly => 13,
        PatternShape::Daily => 14,
    }
}

/// Exec mirror of `split_shape`.
fn split_at(s: &[u8], b: usize, q: usize) -> (r: Option<PatternShape>)
    requires
        q <= s@.len(),
    ensures
        r == split_shape(s@, b as int, q as int),
{
    if !(q >= 2 && q - 2 >= b) {
        return None;
    }
    if !crate::scan::ws_byte(s[q - 1]) {
        return None;
    }
    match find_alias_end(s, q) {
        Some(e) => {
            let p = find_ws_end(s, e, s.len());
            classify_suffix(s, p)
        },
        None => None,
    }
}

/// Classification of a suffix-form directive: exec mirror of
/// `classify_task`.
fn extract_task(s: &[u8], b: usize) -> (r: Option<(PatternShape, RuleFields)>)
    requires
        b < s@.len(),
    ensures
        match r {
            None => classify_task(s@, b as int) is None,
            Some((sh, f)) => classify_task(s@, b as int) == Some((sh, f@)) && fields_wf(sh, f@),
        },
{
    let n = s.len();
    let mut best: Option<(PatternShape, usize)> = None;
    let mut last = b + 1;
    proof {
        assert(task_scan(s@, b as int, b + 1) is None);
    }
    while last < n
        invariant
            b + 1 <= last <= n,
            n == s@.len(),
            match best {
                None => task_scan(s@, b as int, last as int) is None,
                Some((sh, qq)) => task_scan(s@, b as int, last as int) == Some((sh, qq as int))
                    && qq <= n,
            },
        decreases n - last,
    {
        let q = last + 1;
        let here = split_at(s, b, q);
        match here {
            None => {},
            Some(sh) => {
                let replace = match best {
                    None => true,
                    Some((sh2, _)) => shape_priority(sh) <= shape_priority(sh2),
                };
                if replace {
                    best = Some((sh, q));
                }
            },
        }
        last = q;
    }
    proof {
        lemma_task_scan_split(s@, b as int, n as int);
    }
    match best {
        None => None,
        Some((sh, qq)) => {
            match find_alias_end(s, qq) {
                Some(e) => {
                    let p = find_ws_end(s, e, n);
                    proof {
                        lemma_split_tokens(s@, b as int, qq as int, e as int, sh);
                    }
                    let pay = copy_payload(s, b, qq - 1);
                    let f = build_fields(s, p, sh, pay);
                    Some((sh, f))
                },
                None => {
                    proof {
                        assert(false);
                    }
                    None
                },
            }
        },
    }
}

/// A best split found by `task_scan` is a valid split.
proof fn lemma_task_scan_split(s: Seq<u8>, b: int, q: int)
    ensures
        match task_scan(s, b, q) {
            Some((sh, qq)) => b + 2 <= qq <= q && split_shape(s, b, qq) == Some(sh),
            None => true,
        },
    decreases q,
{
    if !(q < b + 2 || q <= 0) {
        lemma_task_scan_split(s, b, q - 1);
    }
}

/// A valid split's suffix has the token structure its shape needs.
proof fn lemma_split_tokens(s: Seq<u8>, b: int, q: int, e: int, sh: PatternShape)
    requires
        split_shape(s, b, q) == Some(sh),
        alias_end(s, q) == Some(e),
    ensures
        tokens_ok(s, ws_end(s, e, s.len() as int), sh),
{
    let p = ws_end(s, e, s.len() as int);
    crate::scan::lemma_ws_end(s, e, s.len() as int);
    assert(suffix_shape(s, p) == Some(sh));
}

/// Decides whether a line is a recurrence directive, and extracts its shape
/// and fields.  The result is exactly `spec_extract` of the line, and the
/// fields are well-formed for the shape.
pub fn extract(line: &[u8]) -> (r: Option<(PatternShape, RuleFields)>)
    ensures
        match r {
            None => spec_extract(line@) is None,
            Some((sh, f)) => spec_extract(line@) == Some((sh, f@)) && fields_wf(sh, f@),
        },
{
    match find_alias_end(line, 0) {
        Some(e) => {
            let p = find_ws_end(line, e, line.len());
            extract_start(line, p)
        },
        None => {
            match find_checkbox_end(line) {
                Some(b) => extract_task(line, b),
                None => None,
            }
        },
    }
}

} // verus!
