//! Token grammars of the rule language.  A token is a whitespace-free span
//! `s[i..j]`; each predicate below decides one token form exactly.
//!
//! Byte constants are ASCII: 0x2f `/`, 0x3a `:`, 0x2d `-`, 0x5b `[`,
//! 0x5d `]`, and lower-case letters for the keyword literals.
use vstd::prelude::*;

use crate::rule::Weekday;
use crate::rule::spec_normalize_year;
use crate::scan::digit_run;
use crate::scan::digits_val;
use crate::scan::find_digit_run;
use crate::scan::find_ws_end;
use crate::scan::is_ws;
use crate::scan::lemma_digit_run;
use crate::scan::lower;
use crate::scan::lower_byte;
use crate::scan::read_digits;
use crate::scan::ws_byte;
use crate::scan::ws_end;

verus! {

// ------------------------------------------------------------------
// Date tokens: M/D, M/D/YY, M/D/YYYY
// ------------------------------------------------------------------
/// `s[i..j]` is a date token: one or two month digits, `/`, one or two day
/// digits, and optionally `/` with exactly two or exactly four year digits.
pub open spec fn date_tok(s: Seq<u8>, i: int, j: int) -> bool {
    let me = digit_run(s, i, j);
    &&& 1 <= me - i <= 2
    &&& me < j && s[me] == 0x2f
    &&& {
        let de = digit_run(s, me + 1, j);
        &&& 1 <= de - (me + 1) <= 2
        &&& (de == j || {
            &&& de < j && s[de] == 0x2f
            &&& {
                let ye = digit_run(s, de + 1, j);
                ye == j && (ye - (de + 1) == 2 || ye - (de + 1) == 4)
            }
        })
    }
}

/// Month value of a date token.
pub open spec fn date_month(s: Seq<u8>, i: int, j: int) -> int {
    digits_val(s, i, digit_run(s, i, j))
}

/// Day value of a date token.
pub open spec fn date_day(s: Seq<u8>, i: int, j: int) -> int {
    let me = digit_run(s, i, j);
    digits_val(s, me + 1, digit_run(s, me + 1, j))
}

/// Normalized year value of a date token, when a year is written.
pub open spec fn date_year(s: Seq<u8>, i: int, j: int) -> Option<int> {
    let me = digit_run(s, i, j);
    let de = digit_run(s, me + 1, j);
    if de == j {
        None
    } else {
        let ye = digit_run(s, de + 1, j);
        Some(spec_normalize_year(digits_val(s, de + 1, ye), ye - (de + 1)))
    }
}

/// Decides `date_tok`.
pub fn date_token(s: &[u8], i: usize, j: usize) -> (r: bool)
    requires
        i <= j <= s@.len(),
    ensures
        r == date_tok(s@, i as int, j as int),
{
    proof {
        lemma_digit_run(s@, i as int, j as int);
    }
    let me = find_digit_run(s, i, j);
    if !(1 <= me - i && me - i <= 2 && me < j && s[me] == 0x2f) {
        return false;
    }
    proof {
        lemma_digit_run(s@, me + 1, j as int);
    }
    let de = find_digit_run(s, me + 1, j);
    if !(1 <= de - (me + 1) && de - (me + 1) <= 2) {
        return false;
    }
    if de == j {
        return true;
    }
    if !(s[de] == 0x2f) {
        return false;
    }
    proof {
        lemma_digit_run(s@, de + 1, j as int);
    }
    let ye = find_digit_run(s, de + 1, j);
    ye == j && (ye - (de + 1) == 2 || ye - (de + 1) == 4)
}

/// Reads (month, day, normalized year) from a date token.
pub fn read_date(s: &[u8], i: usize, j: usize) -> (r: (u32, u32, Option<u32>))
    requires
        i <= j <= s@.len(),
        date_tok(s@, i as int, j as int),
    ensures
        r.0 == date_month(s@, i as int, j as int),
        r.1 == date_day(s@, i as int, j as int),
        match r.2 {
            None => date_year(s@, i as int, j as int) is None,
            Some(y) => date_year(s@, i as int, j as int) == Some(y as int) && y <= 9999,
        },
        r.0 <= 99,
        r.1 <= 99,
{
    proof {
        lemma_digit_run(s@, i as int, j as int);
    }
    let me = find_digit_run(s, i, j);
    let month = read_digits(s, i, me);
    proof {
        lemma_digit_run(s@, me + 1, j as int);
    }
    let de = find_digit_run(s, me + 1, j);
    let day = read_digits(s, me + 1, de);
    if de == j {
        (month, day, None)
    } else {
        proof {
            lemma_digit_run(s@, de + 1, j as int);
        }
        let ye = find_digit_run(s, de + 1, j);
        let raw = read_digits(s, de + 1, ye);
        let year = crate::rule::normalize_year(raw, (ye - (de + 1)) as u32);
        (month, day, Some(year))
    }
}

// ------------------------------------------------------------------
// Time tokens: H:MMam|pm, H:MM, Ham|pm
// ------------------------------------------------------------------
/// `s[i..j]` is `H:MM` followed by `am` or `pm`.
pub open spec fn ampm_time_tok(s: Seq<u8>, i: int, j: int) -> bool {
    let he = digit_run(s, i, j);
    &&& 1 <= he - i <= 2
    &&& he < j && s[he] == 0x3a
    &&& digit_run(s, he + 1, j) == he + 3
    &&& j == he + 5
    &&& (s[he + 3] == 0x61 || s[he + 3] == 0x70)
    &&& s[he + 4] == 0x6d
}

/// `s[i..j]` is `H:MM` (24-hour form).
pub open spec fn mil_time_tok(s: Seq<u8>, i: int, j: int) -> bool {
    let he = digit_run(s, i, j);
    &&& 1 <= he - i <= 2
    &&& he < j && s[he] == 0x3a
    &&& digit_run(s, he + 1, j) == he + 3
    &&& j == he + 3
}

/// `s[i..j]` is `H` followed by `am` or `pm`.
pub open spec fn hour_ampm_tok(s: Seq<u8>, i: int, j: int) -> bool {
    let he = digit_run(s, i, j);
    &&& 1 <= he - i <= 2
    &&& j == he + 2
    &&& he < j && (s[he] == 0x61 || s[he] == 0x70)
    &&& s[he + 1] == 0x6d
}

/// Hour value of any of the three time token forms.
pub open spec fn time_hour(s: Seq<u8>, i: int, j: int) -> int {
    digits_val(s, i, digit_run(s, i, j))
}

/// Minute value of a `H:MM[am|pm]` token.
pub open spec fn time_minute(s: Seq<u8>, i: int, j: int) -> int {
    let he = digit_run(s, i, j);
    digits_val(s, he + 1, he + 3)
}

/// Whether an `am|pm` suffix reads `pm` (byte 0x70 `p`).
pub open spec fn ampm_time_is_pm(s: Seq<u8>, i: int, j: int) -> bool {
    s[digit_run(s, i, j) + 3] == 0x70
}

/// Whether the suffix of an `Ham|pm` token reads `pm`.
pub open spec fn hour_ampm_is_pm(s: Seq<u8>, i: int, j: int) -> bool {
    s[digit_run(s, i, j)] == 0x70
}

/// Decides `ampm_time_tok`.
pub fn ampm_time_token(s: &[u8], i: usize, j: usize) -> (r: bool)
    requires
        i <= j <= s@.len(),
    ensures
        r == ampm_time_tok(s@, i as int, j as int),
{
    proof {
        lemma_digit_run(s@, i as int, j as int);
    }
    let he = find_digit_run(s, i, j);
    if !(1 <= he - i && he - i <= 2 && he < j && s[he] == 0x3a) {
        return false;
    }
    proof {
        lemma_digit_run(s@, he + 1, j as int);
    }
    let mine = find_digit_run(s, he + 1, j);
    j - he == 5 && mine == he + 3 && (s[he + 3] == 0x61 || s[he + 3] == 0x70) && s[he + 4] == 0x6d
}

/// Decides `mil_time_tok`.
pub fn mil_time_token(s: &[u8], i: usize, j: usize) -> (r: bool)
    requires
        i <= j <= s@.len(),
    ensures
        r == mil_time_tok(s@, i as int, j as int),
{
    proof {
        lemma_digit_run(s@, i as int, j as int);
    }
    let he = find_digit_run(s, i, j);
    if !(1 <= he - i && he - i <= 2 && he < j && s[he] == 0x3a) {
        return false;
    }
    proof {
        lemma_digit_run(s@, he + 1, j as int);
    }
    let mine = find_digit_run(s, he + 1, j);
    j - he == 3 && mine == j
}

/// Decides `hour_ampm_tok`.
pub fn hour_ampm_token(s: &[u8], i: usize, j: usize) -> (r: bool)
    requires
        i <= j <= s@.len(),
    ensures
        r == hour_ampm_tok(s@, i as int, j as int),
{
    proof {
        lemma_digit_run(s@, i as int, j as int);
    }
    let he = find_digit_run(s, i, j);
    1 <= he - i && he - i <= 2 && j - he == 2 && (s[he] == 0x61 || s[he] == 0x70) && s[he + 1]
        == 0x6d
}

/// Reads (hour, minute) from a `H:MM[am|pm]` token.
pub fn read_time(s: &[u8], i: usize, j: usize) -> (r: (u32, u32))
    requires
        i <= j <= s@.len(),
        ampm_time_tok(s@, i as int, j as int) || mil_time_tok(s@, i as int, j as int),
    ensures
        r.0 == time_hour(s@, i as int, j as int),
        r.1 == time_minute(s@, i as int, j as int),
        r.0 <= 99,
        r.1 <= 99,
{
    proof {
        lemma_digit_run(s@, i as int, j as int);
    }
    let he = find_digit_run(s, i, j);
    let hour = read_digits(s, i, he);
    proof {
        lemma_digit_run(s@, he + 1, j as int);
    }
    let minute = read_digits(s, he + 1, he + 3);
    (hour, minute)
}

/// Reads the hour of an `Ham|pm` token.
pub fn read_hour(s: &[u8], i: usize, j: usize) -> (r: u32)
    requires
        i <= j <= s@.len(),
        hour_ampm_tok(s@, i as int, j as int),
    ensures
        r == time_hour(s@, i as int, j as int),
        r <= 99,
{
    proof {
        lemma_digit_run(s@, i as int, j as int);
    }
    let he = find_digit_run(s, i, j);
    read_digits(s, i, he)
}

/// Reads the am/pm flag of an `H:MMam|pm` token.
pub fn read_ampm_time_pm(s: &[u8], i: usize, j: usize) -> (r: bool)
    requires
        i <= j <= s@.len(),
        ampm_time_tok(s@, i as int, j as int),
    ensures
        r == ampm_time_is_pm(s@, i as int, j as int),
{
    proof {
        lemma_digit_run(s@, i as int, j as int);
    }
    let he = find_digit_run(s, i, j);
    s[he + 3] == 0x70
}

/// Reads the am/pm flag of an `Ham|pm` token.
pub fn read_hour_ampm_pm(s: &[u8], i: usize, j: usize) -> (r: bool)
    requires
        i <= j <= s@.len(),
        hour_ampm_tok(s@, i as int, j as int),
    ensures
        r == hour_ampm_is_pm(s@, i as int, j as int),
{
    proof {
        lemma_digit_run(s@, i as int, j as int);
    }
    let he = find_digit_run(s, i, j);
    s[he] == 0x70
}

// ------------------------------------------------------------------
// Weekday tokens: case-insensitive prefixes, three letters or more, of the
// English day names.
// ------------------------------------------------------------------
/// `s[i..j]`, lower-cased, is a prefix of "monday" of length three or more.
pub open spec fn wd_tok_mon(s: Seq<u8>, i: int, j: int) -> bool {
    let n = j - i;
    &&& 3 <= n <= 6
    &&& lower(s[i]) == 0x6d && lower(s[i + 1]) == 0x6f && lower(s[i + 2]) == 0x6e
    &&& (n <= 3 || lower(s[i + 3]) == 0x64)
    &&& (n <= 4 || lower(s[i + 4]) == 0x61)
    &&& (n <= 5 || lower(s[i + 5]) == 0x79)
}

/// `s[i..j]`, lower-cased, is a prefix of "tuesday" of length three or more.
pub open spec fn wd_tok_tue(s: Seq<u8>, i: int, j: int) -> bool {
    let n = j - i;
    &&& 3 <= n <= 7
    &&& lower(s[i]) == 0x74 && lower(s[i + 1]) == 0x75 && lower(s[i + 2]) == 0x65
    &&& (n <= 3 || lower(s[i + 3]) == 0x73)
    &&& (n <= 4 || lower(s[i + 4]) == 0x64)
    &&& (n <= 5 || lower(s[i + 5]) == 0x61)
    &&& (n <= 6 || lower(s[i + 6]) == 0x79)
}

/// `s[i..j]`, lower-cased, is a prefix of "wednesday" of length three or
/// more.
pub open spec fn wd_tok_wed(s: Seq<u8>, i: int, j: int) -> bool {
    let n = j - i;
    &&& 3 <= n <= 9
    &&& lower(s[i]) == 0x77 && lower(s[i + 1]) == 0x65 && lower(s[i + 2]) == 0x64
    &&& (n <= 3 || lower(s[i + 3]) == 0x6e)
    &&& (n <= 4 || lower(s[i + 4]) == 0x65)
    &&& (n <= 5 || lower(s[i + 5]) == 0x73)
    &&& (n <= 6 || lower(s[i + 6]) == 0x64)
    &&& (n <= 7 || lower(s[i + 7]) == 0x61)
    &&& (n <= 8 || lower(s[i + 8]) == 0x79)
}

/// `s[i..j]`, lower-cased, is a prefix of "thursday" of length three or
/// more.
pub open spec fn wd_tok_thu(s: Seq<u8>, i: int, j: int) -> bool {
    let n = j - i;
    &&& 3 <= n <= 8
    &&& lower(s[i]) == 0x74 && lower(s[i + 1]) == 0x68 && lower(s[i + 2]) == 0x75
    &&& (n <= 3 || lower(s[i + 3]) == 0x72)
    &&& (n <= 4 || lower(s[i + 4]) == 0x73)
    &&& (n <= 5 || lower(s[i + 5]) == 0x64)
    &&& (n <= 6 || lower(s[i + 6]) == 0x61)
    &&& (n <= 7 || lower(s[i + 7]) == 0x79)
}

/// `s[i..j]`, lower-cased, is a prefix of "friday" of length three or more.
pub open spec fn wd_tok_fri(s: Seq<u8>, i: int, j: int) -> bool {
    let n = j - i;
    &&& 3 <= n <= 6
    &&& lower(s[i]) == 0x66 && lower(s[i + 1]) == 0x72 && lower(s[i + 2]) == 0x69
    &&& (n <= 3 || lower(s[i + 3]) == 0x64)
    &&& (n <= 4 || lower(s[i + 4]) == 0x61)
    &&& (n <= 5 || lower(s[i + 5]) == 0x79)
}

/// `s[i..j]`, lower-cased, is a prefix of "saturday" of length three or
/// more.
pub open spec fn wd_tok_sat(s: Seq<u8>, i: int, j: int) -> bool {
    let n = j - i;
    &&& 3 <= n <= 8
    &&& lower(s[i]) == 0x73 && lower(s[i + 1]) == 0x61 && lower(s[i + 2]) == 0x74
    &&& (n <= 3 || lower(s[i + 3]) == 0x75)
    &&& (n <= 4 || lower(s[i + 4]) == 0x72)
    &&& (n <= 5 || lower(s[i + 5]) == 0x64)
    &&& (n <= 6 || lower(s[i + 6]) == 0x61)
    &&& (n <= 7 || lower(s[i + 7]) == 0x79)
}

/// `s[i..j]`, lower-cased, is a prefix of "sunday" of length three or more.
pub open spec fn wd_tok_sun(s: Seq<u8>, i: int, j: int) -> bool {
    let n = j - i;
    &&& 3 <= n <= 6
    &&& lower(s[i]) == 0x73 && lower(s[i + 1]) == 0x75 && lower(s[i + 2]) == 0x6e
    &&& (n <= 3 || lower(s[i + 3]) == 0x64)
    &&& (n <= 4 || lower(s[i + 4]) == 0x61)
    &&& (n <= 5 || lower(s[i + 5]) == 0x79)
}

/// The weekday a token resolves to, if any.  The day names have pairwise
/// distinct three-letter prefixes, so at most one case applies.
pub open spec fn weekday_of_tok(s: Seq<u8>, i: int, j: int) -> Option<Weekday> {
    if wd_tok_mon(s, i, j) {
        Some(Weekday::Mon)
    } else if wd_tok_tue(s, i, j) {
        Some(Weekday::Tue)
    } else if wd_tok_wed(s, i, j) {
        Some(Weekday::Wed)
    } else if wd_tok_thu(s, i, j) {
        Some(Weekday::Thu)
    } else if wd_tok_fri(s, i, j) {
        Some(Weekday::Fri)
    } else if wd_tok_sat(s, i, j) {
        Some(Weekday::Sat)
    } else if wd_tok_sun(s, i, j) {
        Some(Weekday::Sun)
    } else {
        None
    }
}

/// Decides `weekday_of_tok`.
pub fn weekday_token(s: &[u8], i: usize, j: usize) -> (r: Option<Weekday>)
    requires
        i <= j <= s@.len(),
    ensures
        r == weekday_of_tok(s@, i as int, j as int),
{
    let n = j - i;
    if n < 3 {
        return None;
    }
    let c0 = lower_byte(s[i]);
    let c1 = lower_byte(s[i + 1]);
    let c2 = lower_byte(s[i + 2]);
    let c3 = if n > 3 {
        lower_byte(s[i + 3])
    } else {
        0
    };
    let c4 = if n > 4 {
        lower_byte(s[i + 4])
    } else {
        0
    };
    let c5 = if n > 5 {
        lower_byte(s[i + 5])
    } else {
        0
    };
    let c6 = if n > 6 {
        lower_byte(s[i + 6])
    } else {
        0
    };
    let c7 = if n > 7 {
        lower_byte(s[i + 7])
    } else {
        0
    };
    let c8 = if n > 8 {
        lower_byte(s[i + 8])
    } else {
        0
    };
    if n <= 6 && c0 == 0x6d && c1 == 0x6f && c2 == 0x6e && (n <= 3 || c3 == 0x64) && (n <= 4 || c4
        == 0x61) && (n <= 5 || c5 == 0x79) {
        Some(Weekday::Mon)
    } else if n <= 7 && c0 == 0x74 && c1 == 0x75 && c2 == 0x65 && (n <= 3 || c3 == 0x73) && (n <= 4
        || c4 == 0x64) && (n <= 5 || c5 == 0x61) && (n <= 6 || c6 == 0x79) {
        Some(Weekday::Tue)
    } else if n <= 9 && c0 == 0x77 && c1 == 0x65 && c2 == 0x64 && (n <= 3 || c3 == 0x6e) && (n <= 4
        || c4 == 0x65) && (n <= 5 || c5 == 0x73) && (n <= 6 || c6 == 0x64) && (n <= 7 || c7 == 0x61)
        && (n <= 8 || c8 == 0x79) {
        Some(Weekday::Wed)
    } else if n <= 8 && c0 == 0x74 && c1 == 0x68 && c2 == 0x75 && (n <= 3 || c3 == 0x72) && (n <= 4
        || c4 == 0x73) && (n <= 5 || c5 == 0x64) && (n <= 6 || c6 == 0x61) && (n <= 7 || c7 == 0x79)
        {
        Some(Weekday::Thu)
    } else if n <= 6 && c0 == 0x66 && c1 == 0x72 && c2 == 0x69 && (n <= 3 || c3 == 0x64) && (n <= 4
        || c4 == 0x61) && (n <= 5 || c5 == 0x79) {
        Some(Weekday::Fri)
    } else if n <= 8 && c0 == 0x73 && c1 == 0x61 && c2 == 0x74 && (n <= 3 || c3 == 0x75) && (n <= 4
        || c4 == 0x72) && (n <= 5 || c5 == 0x64) && (n <= 6 || c6 == 0x61) && (n <= 7 || c7 == 0x79)
        {
        Some(Weekday::Sat)
    } else if n <= 6 && c0 == 0x73 && c1 == 0x75 && c2 == 0x6e && (n <= 3 || c3 == 0x64) && (n <= 4
        || c4 == 0x61) && (n <= 5 || c5 == 0x79) {
        Some(Weekday::Sun)
    } else {
        None
    }
}

// ------------------------------------------------------------------
// Cadence keyword tokens (exact lower-case literals)
// ------------------------------------------------------------------
/// `s[i..j]` is exactly "monthly".
pub open spec fn lit_monthly(s: Seq<u8>, i: int, j: int) -> bool {
    &&& j - i == 7
    &&& s[i] == 0x6d && s[i + 1] == 0x6f && s[i + 2] == 0x6e && s[i + 3] == 0x74
    &&& s[i + 4] == 0x68 && s[i + 5] == 0x6c && s[i + 6] == 0x79
}

/// `s[i..j]` is exactly "biweekly".
pub open spec fn lit_biweekly(s: Seq<u8>, i: int, j: int) -> bool {
    &&& j - i == 8
    &&& s[i] == 0x62 && s[i + 1] == 0x69 && s[i + 2] == 0x77 && s[i + 3] == 0x65
    &&& s[i + 4] == 0x65 && s[i + 5] == 0x6b && s[i + 6] == 0x6c && s[i + 7] == 0x79
}

/// `s[i..j]` is exactly "weekly".
pub open spec fn lit_weekly(s: Seq<u8>, i: int, j: int) -> bool {
    &&& j - i == 6
    &&& s[i] == 0x77 && s[i + 1] == 0x65 && s[i + 2] == 0x65 && s[i + 3] == 0x6b
    &&& s[i + 4] == 0x6c && s[i + 5] == 0x79
}

/// `s[i..j]` is exactly "daily".
pub open spec fn lit_daily(s: Seq<u8>, i: int, j: int) -> bool {
    &&& j - i == 5
    &&& s[i] == 0x64 && s[i + 1] == 0x61 && s[i + 2] == 0x69 && s[i + 3] == 0x6c
    &&& s[i + 4] == 0x79
}

/// Decides `lit_monthly`.
pub fn monthly_token(s: &[u8], i: usize, j: usize) -> (r: bool)
    requires
        i <= j <= s@.len(),
    ensures
        r == lit_monthly(s@, i as int, j as int),
{
    j - i == 7 && s[i] == 0x6d && s[i + 1] == 0x6f && s[i + 2] == 0x6e && s[i + 3] == 0x74 && s[i
        + 4] == 0x68 && s[i + 5] == 0x6c && s[i + 6] == 0x79
}

/// Decides `lit_biweekly`.
pub fn biweekly_token(s: &[u8], i: usize, j: usize) -> (r: bool)
    requires
        i <= j <= s@.len(),
    ensures
        r == lit_biweekly(s@, i as int, j as int),
{
    j - i == 8 && s[i] == 0x62 && s[i + 1] == 0x69 && s[i + 2] == 0x77 && s[i + 3] == 0x65 && s[i
        + 4] == 0x65 && s[i + 5] == 0x6b && s[i + 6] == 0x6c && s[i + 7] == 0x79
}

/// Decides `lit_weekly`.
pub fn weekly_token(s: &[u8], i: usize, j: usize) -> (r: bool)
    requires
        i <= j <= s@.len(),
    ensures
        r == lit_weekly(s@, i as int, j as int),
{
    j - i == 6 && s[i] == 0x77 && s[i + 1] == 0x65 && s[i + 2] == 0x65 && s[i + 3] == 0x6b && s[i
        + 4] == 0x6c && s[i + 5] == 0x79
}

/// Decides `lit_daily`.
pub fn daily_token(s: &[u8], i: usize, j: usize) -> (r: bool)
    requires
        i <= j <= s@.len(),
    ensures
        r == lit_daily(s@, i as int, j as int),
{
    j - i == 5 && s[i] == 0x64 && s[i + 1] == 0x61 && s[i + 2] == 0x69 && s[i + 3] == 0x6c && s[i
        + 4] == 0x79
}

// ------------------------------------------------------------------
// Trigger aliases and the checklist-item prefix
// ------------------------------------------------------------------
/// `/remind` at `i`, followed by a whitespace byte.
pub open spec fn trig_remind_at(s: Seq<u8>, i: int) -> bool {
    &&& 0 <= i && i + 7 < s.len()
    &&& s[i] == 0x2f && s[i + 1] == 0x72 && s[i + 2] == 0x65 && s[i + 3] == 0x6d
    &&& s[i + 4] == 0x69 && s[i + 5] == 0x6e && s[i + 6] == 0x64
    &&& is_ws(s[i + 7])
}

/// `/rem` at `i`, followed by a whitespace byte.
pub open spec fn trig_rem_at(s: Seq<u8>, i: int) -> bool {
    &&& 0 <= i && i + 4 < s.len()
    &&& s[i] == 0x2f && s[i + 1] == 0x72 && s[i + 2] == 0x65 && s[i + 3] == 0x6d
    &&& is_ws(s[i + 4])
}

/// `/r` at `i`, followed by a whitespace byte.
pub open spec fn trig_r_at(s: Seq<u8>, i: int) -> bool {
    &&& 0 <= i && i + 2 < s.len()
    &&& s[i] == 0x2f && s[i + 1] == 0x72
    &&& is_ws(s[i + 2])
}

/// Index of the whitespace byte that follows a trigger alias at `i`, if one
/// of `/remind`, `/rem`, `/r` stands there.  At most one alias can be
/// followed by whitespace, the aliases being prefixes of one another.
pub open spec fn alias_end(s: Seq<u8>, i: int) -> Option<int> {
    if trig_remind_at(s, i) {
        Some(i + 7)
    } else if trig_rem_at(s, i) {
        Some(i + 4)
    } else if trig_r_at(s, i) {
        Some(i + 2)
    } else {
        None
    }
}

/// Decides `alias_end`.
pub fn find_alias_end(s: &[u8], i: usize) -> (r: Option<usize>)
    requires
        i <= s@.len(),
    ensures
        match r {
            Some(e) => alias_end(s@, i as int) == Some(e as int) && i < e < s@.len(),
            None => alias_end(s@, i as int) is None,
        },
{
    let n = s.len();
    if n - i > 7 && s[i] == 0x2f && s[i + 1] == 0x72 && s[i + 2] == 0x65 && s[i + 3] == 0x6d && s[i
        + 4] == 0x69 && s[i + 5] == 0x6e && s[i + 6] == 0x64 && ws_byte(s[i + 7]) {
        Some(i + 7)
    } else if n - i > 4 && s[i] == 0x2f && s[i + 1] == 0x72 && s[i + 2] == 0x65 && s[i + 3] == 0x6d
        && ws_byte(s[i + 4]) {
        Some(i + 4)
    } else if n - i > 2 && s[i] == 0x2f && s[i + 1] == 0x72 && ws_byte(s[i + 2]) {
        Some(i + 2)
    } else {
        None
    }
}

/// An unchecked checklist-item prefix: optional whitespace, `-`, one
/// whitespace byte, `[`, one whitespace byte, `]`, then a required
/// whitespace byte whose index is returned.
pub open spec fn checkbox_end(s: Seq<u8>) -> Option<int> {
    let w0 = ws_end(s, 0, s.len() as int);
    if w0 + 5 < s.len() && s[w0] == 0x2d && is_ws(s[w0 + 1]) && s[w0 + 2] == 0x5b && is_ws(
        s[w0 + 3],
    ) && s[w0 + 4] == 0x5d && is_ws(s[w0 + 5]) {
        Some(w0 + 5)
    } else {
        None
    }
}

/// Decides `checkbox_end`.
pub fn find_checkbox_end(s: &[u8]) -> (r: Option<usize>)
    ensures
        match r {
            Some(b) => checkbox_end(s@) == Some(b as int) && b < s@.len(),
            None => checkbox_end(s@) is None,
        },
{
    let n = s.len();
    let w0 = find_ws_end(s, 0, n);
    if n - w0 > 5 && s[w0] == 0x2d && ws_byte(s[w0 + 1]) && s[w0 + 2] == 0x5b && ws_byte(s[w0 + 3])
        && s[w0 + 4] == 0x5d && ws_byte(s[w0 + 5]) {
        Some(w0 + 5)
    } else {
        None
    }
}

} // verus!
