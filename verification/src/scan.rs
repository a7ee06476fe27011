//! Byte-level scanning primitives for the line grammar: character classes,
//! token and whitespace runs, digit runs and their numeric values.
use vstd::prelude::*;

verus! {

/// ASCII whitespace, the separator class of the rule grammar.
pub open spec fn is_ws(c: u8) -> bool {
    c == 0x20 || c == 0x09 || c == 0x0a || c == 0x0b || c == 0x0c || c == 0x0d
}

/// ASCII decimal digits.
pub open spec fn is_digit(c: u8) -> bool {
    0x30 <= c <= 0x39
}

/// Numeric value of a digit byte.
pub open spec fn digit_val(c: u8) -> int {
    c - 0x30
}

/// ASCII lower-casing of a single byte; bytes outside `A`..`Z` are unchanged.
pub open spec fn lower(c: u8) -> u8 {
    if 0x41 <= c <= 0x5a {
        (c + 0x20) as u8
    } else {
        c
    }
}

/// First index in `[i, j)` holding whitespace, or `j` if there is none:
/// the end of the token that starts at `i`.
pub open spec fn token_end(s: Seq<u8>, i: int, j: int) -> int
    decreases j - i,
{
    if i < 0 || j > s.len() || i >= j {
        j
    } else if is_ws(s[i]) {
        i
    } else {
        token_end(s, i + 1, j)
    }
}

/// First index in `[i, j)` holding a non-whitespace byte, or `j` if there is
/// none: the end of the whitespace run that starts at `i`.
pub open spec fn ws_end(s: Seq<u8>, i: int, j: int) -> int
    decreases j - i,
{
    if i < 0 || j > s.len() || i >= j {
        j
    } else if !is_ws(s[i]) {
        i
    } else {
        ws_end(s, i + 1, j)
    }
}

/// First index in `[i, j)` holding a non-digit byte, or `j` if there is none.
pub open spec fn digit_run(s: Seq<u8>, i: int, j: int) -> int
    decreases j - i,
{
    if i < 0 || j > s.len() || i >= j {
        j
    } else if !is_digit(s[i]) {
        i
    } else {
        digit_run(s, i + 1, j)
    }
}

/// Largest `k` in `[i, j]` such that `s[k - 1]` is not whitespace (or `i` if
/// all of `[i, j)` is whitespace): the right edge of the trimmed span.
pub open spec fn trim_end(s: Seq<u8>, i: int, j: int) -> int
    decreases j - i,
{
    if i < 0 || j > s.len() || j <= i {
        i
    } else if is_ws(s[j - 1]) {
        trim_end(s, i, j - 1)
    } else {
        j
    }
}

/// The value of the digit string `s[i..j]`, most significant digit first.
pub open spec fn digits_val(s: Seq<u8>, i: int, j: int) -> int
    decreases j - i,
{
    if i < 0 || j > s.len() || j <= i {
        0
    } else {
        digits_val(s, i, j - 1) * 10 + digit_val(s[j - 1])
    }
}

pub proof fn lemma_token_end(s: Seq<u8>, i: int, j: int)
    requires
        0 <= i <= j <= s.len(),
    ensures
        i <= token_end(s, i, j) <= j,
        forall|k: int| i <= k < token_end(s, i, j) ==> !is_ws(s[k]),
        token_end(s, i, j) < j ==> is_ws(s[token_end(s, i, j)]),
    decreases j - i,
{
    if i < j && !is_ws(s[i]) {
        lemma_token_end(s, i + 1, j);
    }
}

pub proof fn lemma_ws_end(s: Seq<u8>, i: int, j: int)
    requires
        0 <= i <= j <= s.len(),
    ensures
        i <= ws_end(s, i, j) <= j,
        forall|k: int| i <= k < ws_end(s, i, j) ==> is_ws(s[k]),
        ws_end(s, i, j) < j ==> !is_ws(s[ws_end(s, i, j)]),
    decreases j - i,
{
    if i < j && is_ws(s[i]) {
        lemma_ws_end(s, i + 1, j);
    }
}

pub proof fn lemma_digit_run(s: Seq<u8>, i: int, j: int)
    requires
        0 <= i <= j <= s.len(),
    ensures
        i <= digit_run(s, i, j) <= j,
        forall|k: int| i <= k < digit_run(s, i, j) ==> is_digit(s[k]),
        digit_run(s, i, j) < j ==> !is_digit(s[digit_run(s, i, j)]),
    decreases j - i,
{
    if i < j && is_digit(s[i]) {
        lemma_digit_run(s, i + 1, j);
    }
}

pub proof fn lemma_trim_end(s: Seq<u8>, i: int, j: int)
    requires
        0 <= i <= j <= s.len(),
    ensures
        i <= trim_end(s, i, j) <= j,
        forall|k: int| trim_end(s, i, j) <= k < j ==> is_ws(s[k]),
        trim_end(s, i, j) > i ==> !is_ws(s[trim_end(s, i, j) - 1]),
    decreases j - i,
{
    if i < j && is_ws(s[j - 1]) {
        lemma_trim_end(s, i, j - 1);
    }
}

/// A digit string of at most four digits is below 10000.
pub proof fn lemma_digits_val_bound(s: Seq<u8>, i: int, j: int)
    requires
        0 <= i <= j <= s.len(),
        j - i <= 4,
        forall|k: int| i <= k < j ==> is_digit(s[k]),
    ensures
        0 <= digits_val(s, i, j) <= 9999,
        j - i <= 1 ==> digits_val(s, i, j) <= 9,
        j - i <= 2 ==> digits_val(s, i, j) <= 99,
        j - i <= 3 ==> digits_val(s, i, j) <= 999,
    decreases j - i,
{
    if j > i {
        lemma_digits_val_bound(s, i, j - 1);
    }
}

/// Exec mirror of the whitespace class.
pub fn ws_byte(c: u8) -> (r: bool)
    ensures
        r == is_ws(c),
{
    c == 0x20 || c == 0x09 || c == 0x0a || c == 0x0b || c == 0x0c || c == 0x0d
}

/// Exec mirror of the digit class.
pub fn digit_byte(c: u8) -> (r: bool)
    ensures
        r == is_digit(c),
{
    0x30 <= c && c <= 0x39
}

/// Exec mirror of ASCII lower-casing.
pub fn lower_byte(c: u8) -> (r: u8)
    ensures
        r == lower(c),
{
    if 0x41 <= c && c <= 0x5a {
        c + 0x20
    } else {
        c
    }
}

/// Finds the end of the token that starts at `i` (first whitespace index).
pub fn find_token_end(s: &[u8], i: usize, j: usize) -> (r: usize)
    requires
        i <= j <= s@.len(),
    ensures
        r == token_end(s@, i as int, j as int),
        i <= r <= j,
{
    proof {
        lemma_token_end(s@, i as int, j as int);
    }
    let mut cur = i;
    while cur < j && !ws_byte(s[cur])
        invariant
            i <= cur <= j <= s@.len(),
            token_end(s@, i as int, j as int) == token_end(s@, cur as int, j as int),
            forall|k: int| i <= k < cur ==> !is_ws(s@[k]),
        decreases j - cur,
    {
        cur = cur + 1;
    }
    cur
}

/// Finds the end of the whitespace run that starts at `i`.
pub fn find_ws_end(s: &[u8], i: usize, j: usize) -> (r: usize)
    requires
        i <= j <= s@.len(),
    ensures
        r == ws_end(s@, i as int, j as int),
        i <= r <= j,
{
    proof {
        lemma_ws_end(s@, i as int, j as int);
    }
    let mut cur = i;
    while cur < j && ws_byte(s[cur])
        invariant
            i <= cur <= j <= s@.len(),
            ws_end(s@, i as int, j as int) == ws_end(s@, cur as int, j as int),
        decreases j - cur,
    {
        cur = cur + 1;
    }
    cur
}

/// Finds the end of the digit run that starts at `i`.
pub fn find_digit_run(s: &[u8], i: usize, j: usize) -> (r: usize)
    requires
        i <= j <= s@.len(),
    ensures
        r == digit_run(s@, i as int, j as int),
        i <= r <= j,
{
    proof {
        lemma_digit_run(s@, i as int, j as int);
    }
    let mut cur = i;
    while cur < j && digit_byte(s[cur])
        invariant
            i <= cur <= j <= s@.len(),
            digit_run(s@, i as int, j as int) == digit_run(s@, cur as int, j as int),
        decreases j - cur,
    {
        cur = cur + 1;
    }
    cur
}

/// Finds the right edge of the trimmed span of `[i, j)`.
pub fn find_trim_end(s: &[u8], i: usize, j: usize) -> (r: usize)
    requires
        i <= j <= s@.len(),
    ensures
        r == trim_end(s@, i as int, j as int),
        i <= r <= j,
{
    proof {
        lemma_trim_end(s@, i as int, j as int);
    }
    let mut cur = j;
    while cur > i && ws_byte(s[cur - 1])
        invariant
            i <= cur <= j <= s@.len(),
            trim_end(s@, i as int, j as int) == trim_end(s@, i as int, cur as int),
        decreases cur,
    {
        cur = cur - 1;
    }
    cur
}

/// Reads the value of the digit string `s[i..j]` (at most four digits).
pub fn read_digits(s: &[u8], i: usize, j: usize) -> (r: u32)
    requires
        i <= j <= s@.len(),
        j - i <= 4,
        forall|k: int| i <= k < j ==> is_digit(s@[k]),
    ensures
        r == digits_val(s@, i as int, j as int),
        r <= 9999,
        j - i <= 2 ==> r <= 99,
{
    proof {
        lemma_digits_val_bound(s@, i as int, j as int);
    }
    let mut cur = i;
    let mut val: u32 = 0;
    while cur < j
        invariant
            i <= cur <= j <= s@.len(),
            j - i <= 4,
            forall|k: int| i <= k < j ==> is_digit(s@[k]),
            val == digits_val(s@, i as int, cur as int),
            val <= 9999,
        decreases j - cur,
    {
        proof {
            lemma_digits_val_bound(s@, i as int, cur + 1);
        }
        val = val * 10 + (s[cur] - 0x30) as u32;
        cur = cur + 1;
    }
    val
}

} // verus!
