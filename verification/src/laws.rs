//! Properties of the library proved once and for all: every line is
//! classified with at most one shape, the highest-priority shape whose
//! grammar matches; year normalization stays in range; weekday tokens
//! resolve case-insensitively and by prefix.
use vstd::prelude::*;

use crate::extract::classify_start;
use crate::extract::classify_task;
use crate::extract::spec_extract;
use crate::extract::split_shape;
use crate::extract::task_scan;
use crate::rule::PatternShape;
use crate::rule::Weekday;
use crate::rule::priority;
use crate::rule::spec_normalize_year;
use crate::scan::is_digit;
use crate::scan::digit_run;
use crate::scan::lower;
use crate::scan::token_end;
use crate::scan::ws_end;
use crate::token::alias_end;
use crate::token::ampm_time_tok;
use crate::token::checkbox_end;
use crate::token::date_tok;
use crate::token::hour_ampm_tok;
use crate::token::lit_biweekly;
use crate::token::lit_daily;
use crate::token::lit_monthly;
use crate::token::lit_weekly;
use crate::token::mil_time_tok;
use crate::token::weekday_of_tok;

verus! {

// ------------------------------------------------------------------
// The grammar of each shape, stated on its own
// ------------------------------------------------------------------
/// The line-start grammar of shape `sh`: trigger alias at the start of the
/// line, then the shape's tokens, each followed by whitespace, then free
/// text.
pub open spec fn start_applies(sh: PatternShape, s: Seq<u8>) -> bool {
    match alias_end(s, 0) {
        None => false,
        Some(e) => {
            let n = s.len() as int;
            let p = ws_end(s, e, n);
            let t1e = token_end(s, p, n);
            let p2 = ws_end(s, t1e, n);
            let t2e = token_end(s, p2, n);
            match sh {
                PatternShape::AbsoluteDateTimeExact => date_tok(s, p, t1e) && t1e < n
                    && ampm_time_tok(s, p2, t2e) && t2e < n,
                PatternShape::AbsoluteDateTimeMilitary => date_tok(s, p, t1e) && t1e < n
                    && mil_time_tok(s, p2, t2e) && t2e < n,
                PatternShape::AbsoluteDateHourOnly => date_tok(s, p, t1e) && t1e < n
                    && hour_ampm_tok(s, p2, t2e) && t2e < n,
                PatternShape::AbsoluteDateDefaultTime => date_tok(s, p, t1e) && t1e < n,
                PatternShape::WeekdayTimeExact => weekday_of_tok(s, p, t1e) is Some && t1e < n
                    && ampm_time_tok(s, p2, t2e) && t2e < n,
                PatternShape::WeekdayTimeMilitary => weekday_of_tok(s, p, t1e) is Some && t1e < n
                    && mil_time_tok(s, p2, t2e) && t2e < n,
                PatternShape::WeekdayHourOnly => weekday_of_tok(s, p, t1e) is Some && t1e < n
                    && hour_ampm_tok(s, p2, t2e) && t2e < n,
                PatternShape::WeekdayDefaultTime => weekday_of_tok(s, p, t1e) is Some && t1e < n,
                PatternShape::DailyTimeExact => ampm_time_tok(s, p, t1e) && t1e < n,
                PatternShape::DailyTimeMilitary => mil_time_tok(s, p, t1e) && t1e < n,
                PatternShape::DailyHourOnly => hour_ampm_tok(s, p, t1e) && t1e < n,
                PatternShape::Monthly => lit_monthly(s, p, t1e) && t1e < n,
                PatternShape::Biweekly => lit_biweekly(s, p, t1e) && t1e < n,
                PatternShape::Weekly => lit_weekly(s, p, t1e) && t1e < n,
                PatternShape::Daily => lit_daily(s, p, t1e) && t1e < n,
            }
        },
    }
}

/// The checklist-suffix grammar of shape `sh`: a checkbox, free text, and
/// at some whitespace-preceded position a trigger whose suffix matches the
/// shape's tokens exactly.
pub open spec fn task_applies(sh: PatternShape, s: Seq<u8>) -> bool {
    match checkbox_end(s) {
        None => false,
        Some(b) => exists|q: int| (#[trigger] split_shape(s, b, q)) == Some(sh),
    }
}

/// The full grammar of shape `sh`.
pub open spec fn applies(sh: PatternShape, s: Seq<u8>) -> bool {
    start_applies(sh, s) || task_applies(sh, s)
}

/// The shape a line is classified with, if any.
pub open spec fn extracted_shape(s: Seq<u8>) -> Option<PatternShape> {
    match spec_extract(s) {
        None => None,
        Some((sh, f)) => Some(sh),
    }
}

// ------------------------------------------------------------------
// Helper lemmas
// ------------------------------------------------------------------
/// Distinct shapes have distinct priority ranks.
pub proof fn lemma_priority_injective(sh1: PatternShape, sh2: PatternShape)
    requires
        priority(sh1) == priority(sh2),
    ensures
        sh1 == sh2,
{
}

/// On one token span, the token kinds exclude each other: a date token is
/// neither a weekday, a time nor a cadence keyword, and so on.
proof fn lemma_token_kinds_exclusive(s: Seq<u8>, i: int, j: int)
    requires
        0 <= i <= j <= s.len(),
    ensures
        date_tok(s, i, j) ==> {
            &&& weekday_of_tok(s, i, j) is None
            &&& !ampm_time_tok(s, i, j)
            &&& !mil_time_tok(s, i, j)
            &&& !hour_ampm_tok(s, i, j)
            &&& !lit_monthly(s, i, j)
            &&& !lit_biweekly(s, i, j)
            &&& !lit_weekly(s, i, j)
            &&& !lit_daily(s, i, j)
        },
        weekday_of_tok(s, i, j) is Some ==> {
            &&& !ampm_time_tok(s, i, j)
            &&& !mil_time_tok(s, i, j)
            &&& !hour_ampm_tok(s, i, j)
            &&& !lit_monthly(s, i, j)
            &&& !lit_biweekly(s, i, j)
            &&& !lit_weekly(s, i, j)
            &&& !lit_daily(s, i, j)
        },
        ampm_time_tok(s, i, j) ==> !mil_time_tok(s, i, j) && !hour_ampm_tok(s, i, j) && !lit_monthly(
            s,
            i,
            j,
        ) && !lit_biweekly(s, i, j) && !lit_weekly(s, i, j) && !lit_daily(s, i, j),
        mil_time_tok(s, i, j) ==> !hour_ampm_tok(s, i, j) && !lit_monthly(s, i, j) && !lit_biweekly(
            s,
            i,
            j,
        ) && !lit_weekly(s, i, j) && !lit_daily(s, i, j),
        hour_ampm_tok(s, i, j) ==> !lit_monthly(s, i, j) && !lit_biweekly(s, i, j) && !lit_weekly(
            s,
            i,
            j,
        ) && !lit_daily(s, i, j),
        lit_monthly(s, i, j) ==> !lit_biweekly(s, i, j) && !lit_weekly(s, i, j) && !lit_daily(
            s,
            i,
            j,
        ),
        lit_biweekly(s, i, j) ==> !lit_weekly(s, i, j) && !lit_daily(s, i, j),
        lit_weekly(s, i, j) ==> !lit_daily(s, i, j),
{
    crate::scan::lemma_digit_run(s, i, j);
    if i < j && is_digit(s[i]) {
        assert(digit_run(s, i, j) > i);
    }
}

/// A valid split lies between the checkbox and the end of the line.
proof fn lemma_split_bounds(s: Seq<u8>, b: int, q: int)
    requires
        split_shape(s, b, q) is Some,
    ensures
        b + 2 <= q <= s.len(),
{
}

/// What `task_scan` finds is the best split: a valid one, of the highest
/// priority among all valid splits at or below `q`.
proof fn lemma_task_scan_correct(s: Seq<u8>, b: int, q: int)
    requires
        b >= 0,
    ensures
        task_scan(s, b, q) is None ==> forall|qq: int|
            qq <= q ==> (#[trigger] split_shape(s, b, qq)) is None,
        match task_scan(s, b, q) {
            None => true,
            Some((sh, qp)) => {
                &&& b + 2 <= qp <= q
                &&& split_shape(s, b, qp) == Some(sh)
                &&& forall|qq: int|
                    qq <= q ==> match #[trigger] split_shape(s, b, qq) {
                        Some(sh2) => priority(sh2) >= priority(sh),
                        None => true,
                    }
            },
        },
    decreases q,
{
    if !(q < b + 2 || q <= 0) {
        lemma_task_scan_correct(s, b, q - 1);
    }
}

// ------------------------------------------------------------------
// The classification theorem
// ------------------------------------------------------------------
/// A line-start directive is classified with the highest-priority shape
/// whose grammar matches, and with no other.
proof fn lemma_start_classification(s: Seq<u8>, e: int)
    requires
        alias_end(s, 0) == Some(e),
    ensures
        match classify_start(s, ws_end(s, e, s.len() as int)) {
            None => forall|sh: PatternShape| !(#[trigger] start_applies(sh, s)),
            Some((sh, f)) => start_applies(sh, s) && forall|sh2: PatternShape|
                #[trigger] start_applies(sh2, s) && sh2 != sh ==> priority(sh) < priority(sh2),
        },
{
    let n = s.len() as int;
    let p = ws_end(s, e, n);
    let t1e = token_end(s, p, n);
    let p2 = ws_end(s, t1e, n);
    let t2e = token_end(s, p2, n);
    lemma_token_kinds_exclusive(s, 0, 0);
    assert(0 <= e <= n);
    crate::scan::lemma_ws_end(s, e, n);
    crate::scan::lemma_token_end(s, p, n);
    crate::scan::lemma_ws_end(s, t1e, n);
    crate::scan::lemma_token_end(s, p2, n);
    lemma_token_kinds_exclusive(s, p, t1e);
    lemma_token_kinds_exclusive(s, p2, t2e);
}

/// A checklist-suffix directive is classified with the highest-priority
/// shape valid at any split, and with no other.
proof fn lemma_task_classification(s: Seq<u8>, b: int)
    requires
        checkbox_end(s) == Some(b),
        alias_end(s, 0) is None,
    ensures
        match classify_task(s, b) {
            None => forall|sh: PatternShape| !(#[trigger] task_applies(sh, s)),
            Some((sh, f)) => task_applies(sh, s) && forall|sh2: PatternShape|
                #[trigger] task_applies(sh2, s) && sh2 != sh ==> priority(sh) < priority(sh2),
        },
{
    let n = s.len() as int;
    crate::scan::lemma_ws_end(s, 0, n);
    assert(b >= 0);
    lemma_task_scan_correct(s, b, n);
    assert forall|q: int| (#[trigger] split_shape(s, b, q)) is Some implies b + 2 <= q <= n by {
        lemma_split_bounds(s, b, q);
    }
    match task_scan(s, b, n) {
        None => {
            assert forall|sh: PatternShape| !(#[trigger] task_applies(sh, s)) by {
                if task_applies(sh, s) {
                    let q = choose|q: int| (#[trigger] split_shape(s, b, q)) == Some(sh);
                    assert(split_shape(s, b, q) is None);
                }
            }
        },
        Some((sh, qp)) => {
            assert(task_applies(sh, s));
            assert forall|sh2: PatternShape|
                #[trigger] task_applies(sh2, s) && sh2 != sh implies priority(sh) < priority(
                sh2,
            ) by {
                let q2 = choose|q: int| (#[trigger] split_shape(s, b, q)) == Some(sh2);
                assert(b + 2 <= q2 <= n);
                assert(priority(sh2) >= priority(sh));
                if priority(sh2) == priority(sh) {
                    lemma_priority_injective(sh2, sh);
                }
            }
        },
    }
}

/// The classification theorem: a line is classified exactly when some
/// shape's grammar matches it, with the matching shape of highest priority;
/// no shape of equal or higher priority also matches, so shape assignment
/// is mutually exclusive.
pub proof fn lemma_shape_classification(s: Seq<u8>)
    ensures
        match extracted_shape(s) {
            None => forall|sh: PatternShape| !(#[trigger] applies(sh, s)),
            Some(sh) => applies(sh, s) && forall|sh2: PatternShape|
                #[trigger] applies(sh2, s) && sh2 != sh ==> priority(sh) < priority(sh2),
        },
{
    let n = s.len() as int;
    match alias_end(s, 0) {
        Some(e) => {
            assert(s[0] == 0x2f);
            assert(ws_end(s, 0, n) == 0);
            assert(checkbox_end(s) is None);
            assert(forall|sh: PatternShape| !(#[trigger] task_applies(sh, s)));
            lemma_start_classification(s, e);
        },
        None => {
            assert(forall|sh: PatternShape| !(#[trigger] start_applies(sh, s)));
            match checkbox_end(s) {
                Some(b) => {
                    lemma_task_classification(s, b);
                },
                None => {
                    assert(forall|sh: PatternShape| !(#[trigger] task_applies(sh, s)));
                },
            }
        },
    }
}

// ------------------------------------------------------------------
// Year normalization
// ------------------------------------------------------------------
/// Two-digit years always normalize into 2000..2099; four-digit years pass
/// through unchanged.
pub proof fn lemma_year_normalization(v: int, digits: int)
    requires
        digits == 2 || digits == 4,
        digits == 2 ==> 0 <= v <= 99,
    ensures
        digits == 2 ==> 2000 <= spec_normalize_year(v, digits) <= 2099,
        digits == 4 ==> spec_normalize_year(v, digits) == v,
{
}

// ------------------------------------------------------------------
// Weekday token laws
// ------------------------------------------------------------------
/// Length of the lower-case English name of a weekday.
pub open spec fn day_name_len(w: Weekday) -> int {
    match w {
        Weekday::Mon => 6,
        Weekday::Tue => 7,
        Weekday::Wed => 9,
        Weekday::Thu => 8,
        Weekday::Fri => 6,
        Weekday::Sat => 8,
        Weekday::Sun => 6,
    }
}

/// Byte `k` of the lower-case English name of a weekday.
pub open spec fn day_name_byte(w: Weekday, k: int) -> u8 {
    match w {
        Weekday::Mon => if k == 0 {
            0x6d
        } else if k == 1 {
            0x6f
        } else if k == 2 {
            0x6e
        } else if k == 3 {
            0x64
        } else if k == 4 {
            0x61
        } else {
            0x79
        },
        Weekday::Tue => if k == 0 {
            0x74
        } else if k == 1 {
            0x75
        } else if k == 2 {
            0x65
        } else if k == 3 {
            0x73
        } else if k == 4 {
            0x64
        } else if k == 5 {
            0x61
        } else {
            0x79
        },
        Weekday::Wed => if k == 0 {
            0x77
        } else if k == 1 {
            0x65
        } else if k == 2 {
            0x64
        } else if k == 3 {
            0x6e
        } else if k == 4 {
            0x65
        } else if k == 5 {
            0x73
        } else if k == 6 {
            0x64
        } else if k == 7 {
            0x61
        } else {
            0x79
        },
        Weekday::Thu => if k == 0 {
            0x74
        } else if k == 1 {
            0x68
        } else if k == 2 {
            0x75
        } else if k == 3 {
            0x72
        } else if k == 4 {
            0x73
        } else if k == 5 {
            0x64
        } else if k == 6 {
            0x61
        } else {
            0x79
        },
        Weekday::Fri => if k == 0 {
            0x66
        } else if k == 1 {
            0x72
        } else if k == 2 {
            0x69
        } else if k == 3 {
            0x64
        } else if k == 4 {
            0x61
        } else {
            0x79
        },
        Weekday::Sat => if k == 0 {
            0x73
        } else if k == 1 {
            0x61
        } else if k == 2 {
            0x74
        } else if k == 3 {
            0x75
        } else if k == 4 {
            0x72
        } else if k == 5 {
            0x64
        } else if k == 6 {
            0x61
        } else {
            0x79
        },
        Weekday::Sun => if k == 0 {
            0x73
        } else if k == 1 {
            0x75
        } else if k == 2 {
            0x6e
        } else if k == 3 {
            0x64
        } else if k == 4 {
            0x61
        } else {
            0x79
        },
    }
}

/// Prefix law: any token whose lower-cased bytes spell out the first three
/// or more letters of a day's name resolves to that day - whatever its
/// case, "Wednesday", "wed" and "WED" alike.
pub proof fn lemma_weekday_prefix(s: Seq<u8>, i: int, j: int, w: Weekday)
    requires
        0 <= i <= j <= s.len(),
        3 <= j - i <= day_name_len(w),
        forall|k: int| 0 <= k < j - i ==> lower(s[i + k]) == #[trigger] day_name_byte(w, k),
    ensures
        weekday_of_tok(s, i, j) == Some(w),
{
    assert(lower(s[i + 0]) == day_name_byte(w, 0));
    assert(lower(s[i + 1]) == day_name_byte(w, 1));
    assert(lower(s[i + 2]) == day_name_byte(w, 2));
    if j - i > 3 {
        assert(lower(s[i + 3]) == day_name_byte(w, 3));
    }
    if j - i > 4 {
        assert(lower(s[i + 4]) == day_name_byte(w, 4));
    }
    if j - i > 5 {
        assert(lower(s[i + 5]) == day_name_byte(w, 5));
    }
    if j - i > 6 {
        assert(lower(s[i + 6]) == day_name_byte(w, 6));
    }
    if j - i > 7 {
        assert(lower(s[i + 7]) == day_name_byte(w, 7));
    }
    if j - i > 8 {
        assert(lower(s[i + 8]) == day_name_byte(w, 8));
    }
}

/// Tokens of fewer than three letters never resolve to a weekday.
pub proof fn lemma_weekday_short(s: Seq<u8>, i: int, j: int)
    requires
        j - i < 3,
    ensures
        weekday_of_tok(s, i, j) is None,
{
}

/// Case-insensitivity: two tokens whose bytes agree after lower-casing
/// resolve to the same weekday.
pub proof fn lemma_weekday_case_insensitive(
    s1: Seq<u8>,
    i1: int,
    s2: Seq<u8>,
    i2: int,
    len: int,
)
    requires
        0 <= i1 && i1 + len <= s1.len(),
        0 <= i2 && i2 + len <= s2.len(),
        0 <= len,
        forall|k: int| 0 <= k < len ==> #[trigger] lower(s1[i1 + k]) == lower(s2[i2 + k]),
    ensures
        weekday_of_tok(s1, i1, i1 + len) == weekday_of_tok(s2, i2, i2 + len),
{
    if len >= 3 {
        assert(lower(s1[i1 + 0]) == lower(s2[i2 + 0]));
        assert(lower(s1[i1 + 1]) == lower(s2[i2 + 1]));
        assert(lower(s1[i1 + 2]) == lower(s2[i2 + 2]));
        if len > 3 {
            assert(lower(s1[i1 + 3]) == lower(s2[i2 + 3]));
        }
        if len > 4 {
            assert(lower(s1[i1 + 4]) == lower(s2[i2 + 4]));
        }
        if len > 5 {
            assert(lower(s1[i1 + 5]) == lower(s2[i2 + 5]));
        }
        if len > 6 {
            assert(lower(s1[i1 + 6]) == lower(s2[i2 + 6]));
        }
        if len > 7 {
            assert(lower(s1[i1 + 7]) == lower(s2[i2 + 7]));
        }
        if len > 8 {
            assert(lower(s1[i1 + 8]) == lower(s2[i2 + 8]));
        }
    }
}

} // verus!
