//! The markdown to-do list format: classification of its lines (tasks,
//! headers, blanks, tags), section lookup, tag filtering and task
//! toggling.  Rendering - colors, indentation, printing - is the caller's
//! business; everything here takes and returns plain values.
use vstd::prelude::*;

use crate::scan::is_ws;
use crate::scan::find_ws_end;
use crate::scan::lower;
use crate::scan::lower_byte;
use crate::scan::ws_byte;
use crate::scan::ws_end;

verus! {

// ------------------------------------------------------------------
// Line classification
// ------------------------------------------------------------------
/// A task line: optional indent, `-`, one whitespace byte, `[`, a mark
/// byte (space, `x`, or `|`), `]`, one whitespace byte, then the task
/// text.  Yields the indent width and the mark byte.
pub open spec fn spec_task_line(s: Seq<u8>) -> Option<(int, u8)> {
    let n = s.len() as int;
    let w0 = ws_end(s, 0, n);
    if w0 + 6 <= n && s[w0] == 0x2d && is_ws(s[w0 + 1]) && s[w0 + 2] == 0x5b && (s[w0 + 3] == 0x20
        || s[w0 + 3] == 0x7c || s[w0 + 3] == 0x78) && s[w0 + 4] == 0x5d && is_ws(s[w0 + 5]) {
        Some((w0, s[w0 + 3]))
    } else {
        None
    }
}

/// Decides `spec_task_line`.  The task text starts six bytes past the
/// indent.
pub fn task_line(s: &[u8]) -> (r: Option<(usize, u8)>)
    ensures
        match r {
            Some((w0, mark)) => spec_task_line(s@) == Some((w0 as int, mark)) && w0 + 6 <= s@.len(),
            None => spec_task_line(s@) is None,
        },
{
    let n = s.len();
    let w0 = find_ws_end(s, 0, n);
    if n - w0 >= 6 && s[w0] == 0x2d && ws_byte(s[w0 + 1]) && s[w0 + 2] == 0x5b && (s[w0 + 3] == 0x20
        || s[w0 + 3] == 0x7c || s[w0 + 3] == 0x78) && s[w0 + 4] == 0x5d && ws_byte(s[w0 + 5]) {
        Some((w0, s[w0 + 3]))
    } else {
        None
    }
}

/// First index in `[i, j)` that does not hold `#`, or `j`.
pub open spec fn hash_run(s: Seq<u8>, i: int, j: int) -> int
    decreases j - i,
{
    if i < 0 || j > s.len() || i >= j {
        j
    } else if s[i] != 0x23 {
        i
    } else {
        hash_run(s, i + 1, j)
    }
}

proof fn lemma_hash_run(s: Seq<u8>, i: int, j: int)
    requires
        0 <= i <= j <= s.len(),
    ensures
        i <= hash_run(s, i, j) <= j,
    decreases j - i,
{
    if i < j && s[i] == 0x23 {
        lemma_hash_run(s, i + 1, j);
    }
}

/// A header line: one or more `#`, a whitespace byte, then the title.
/// Yields the header level; the title starts one byte past the marks.
pub open spec fn spec_header_level(s: Seq<u8>) -> Option<int> {
    let n = s.len() as int;
    let h = hash_run(s, 0, n);
    if h >= 1 && h < n && is_ws(s[h]) {
        Some(h)
    } else {
        None
    }
}

/// Decides `spec_header_level`.
pub fn header_level(s: &[u8]) -> (r: Option<usize>)
    ensures
        match r {
            Some(h) => spec_header_level(s@) == Some(h as int) && 1 <= h < s@.len(),
            None => spec_header_level(s@) is None,
        },
{
    proof {
        lemma_hash_run(s@, 0, s@.len() as int);
    }
    let n = s.len();
    let mut h: usize = 0;
    while h < n && s[h] == 0x23
        invariant
            0 <= h <= n == s@.len(),
            hash_run(s@, 0, n as int) == hash_run(s@, h as int, n as int),
        decreases n - h,
    {
        h = h + 1;
    }
    if h >= 1 && h < n && ws_byte(s[h]) {
        Some(h)
    } else {
        None
    }
}

/// A blank line: whitespace only.
pub fn blank_line(s: &[u8]) -> (r: bool)
    ensures
        r == (ws_end(s@, 0, s@.len() as int) == s@.len()),
{
    let n = s.len();
    find_ws_end(s, 0, n) == n
}

/// A tag word: `#` followed by at least one byte, none of it whitespace.
pub open spec fn spec_tag_word(s: Seq<u8>, i: int, j: int) -> bool {
    &&& j - i >= 2
    &&& s[i] == 0x23
    &&& forall|k: int| i < k < j ==> !is_ws(#[trigger] s[k])
}

/// Decides `spec_tag_word`.
pub fn tag_word(s: &[u8], i: usize, j: usize) -> (r: bool)
    requires
        i <= j <= s@.len(),
    ensures
        r == spec_tag_word(s@, i as int, j as int),
{
    if j - i < 2 || s[i] != 0x23 {
        return false;
    }
    let mut k = i + 1;
    while k < j && !ws_byte(s[k])
        invariant
            i < k <= j <= s@.len(),
            forall|k2: int| i < k2 < k ==> !is_ws(#[trigger] s@[k2]),
        decreases j - k,
    {
        k = k + 1;
    }
    k == j
}

/// The priority classes tags are rendered by.
#[derive(Clone, Copy, PartialEq, Eq, Structural, Debug)]
pub enum TagClass {
    High,
    Medium,
    Low,
    Other,
}

/// `s[i..j]` is exactly "#high".
pub open spec fn lit_tag_high(s: Seq<u8>, i: int, j: int) -> bool {
    j - i == 5 && s[i] == 0x23 && s[i + 1] == 0x68 && s[i + 2] == 0x69 && s[i + 3] == 0x67 && s[i
        + 4] == 0x68
}

/// `s[i..j]` is exactly "#medium".
pub open spec fn lit_tag_medium(s: Seq<u8>, i: int, j: int) -> bool {
    j - i == 7 && s[i] == 0x23 && s[i + 1] == 0x6d && s[i + 2] == 0x65 && s[i + 3] == 0x64 && s[i
        + 4] == 0x69 && s[i + 5] == 0x75 && s[i + 6] == 0x6d
}

/// `s[i..j]` is exactly "#low".
pub open spec fn lit_tag_low(s: Seq<u8>, i: int, j: int) -> bool {
    j - i == 4 && s[i] == 0x23 && s[i + 1] == 0x6c && s[i + 2] == 0x6f && s[i + 3] == 0x77
}

/// Classifies a tag word: `#high`, `#medium` and `#low` have classes of
/// their own; any other tag is `Other`.
pub fn tag_class(s: &[u8], i: usize, j: usize) -> (r: TagClass)
    requires
        i <= j <= s@.len(),
    ensures
        r == TagClass::High <==> lit_tag_high(s@, i as int, j as int),
        r == TagClass::Medium <==> lit_tag_medium(s@, i as int, j as int),
        r == TagClass::Low <==> lit_tag_low(s@, i as int, j as int),
{
    if j - i == 5 && s[i] == 0x23 && s[i + 1] == 0x68 && s[i + 2] == 0x69 && s[i + 3] == 0x67 && s[i
        + 4] == 0x68 {
        TagClass::High
    } else if j - i == 7 && s[i] == 0x23 && s[i + 1] == 0x6d && s[i + 2] == 0x65 && s[i + 3] == 0x64
        && s[i + 4] == 0x69 && s[i + 5] == 0x75 && s[i + 6] == 0x6d {
        TagClass::Medium
    } else if j - i == 4 && s[i] == 0x23 && s[i + 1] == 0x6c && s[i + 2] == 0x6f && s[i + 3] == 0x77
        {
        TagClass::Low
    } else {
        TagClass::Other
    }
}

// ------------------------------------------------------------------
// Case-insensitive search
// ------------------------------------------------------------------
/// The bytes of `pat` occur at `o` in `s`, compared after lower-casing.
pub open spec fn eq_ci_at(s: Seq<u8>, o: int, pat: Seq<u8>) -> bool {
    forall|k: int| 0 <= k < pat.len() ==> lower(s[o + k]) == lower(#[trigger] pat[k])
}

/// `pat` occurs somewhere in `s[i..j]`, compared after lower-casing.
pub open spec fn contains_ci(s: Seq<u8>, i: int, j: int, pat: Seq<u8>) -> bool {
    exists|o: int| i <= o && o + pat.len() <= j && #[trigger] eq_ci_at(s, o, pat)
}

/// Decides `contains_ci`.
pub fn find_ci(s: &[u8], i: usize, j: usize, pat: &[u8]) -> (r: bool)
    requires
        i <= j <= s@.len(),
    ensures
        r == contains_ci(s@, i as int, j as int, pat@),
{
    let m = pat.len();
    if j - i < m {
        return false;
    }
    let mut o = i;
    while o <= j - m
        invariant
            i <= o <= j <= s@.len(),
            m == pat@.len() <= j - i,
            forall|o2: int| i <= o2 < o ==> !(#[trigger] eq_ci_at(s@, o2, pat@)),
        decreases j - o,
    {
        let mut k: usize = 0;
        while k < m && lower_byte(s[o + k]) == lower_byte(pat[k])
            invariant
                0 <= k <= m == pat@.len(),
                i <= o <= j - m,
                j <= s@.len(),
                forall|k2: int| 0 <= k2 < k ==> lower(s@[o + k2]) == lower(#[trigger] pat@[k2]),
            decreases m - k,
        {
            k = k + 1;
        }
        if k == m {
            assert(eq_ci_at(s@, o as int, pat@));
            return true;
        }
        proof {
            assert(!eq_ci_at(s@, o as int, pat@));
        }
        o = o + 1;
    }
    false
}

// ------------------------------------------------------------------
// Section lookup
// ------------------------------------------------------------------
/// A header line whose title-bearing text contains `section`,
/// case-insensitively, with a single space after the marks.
pub open spec fn section_header_match(s: Seq<u8>, section: Seq<u8>) -> bool {
    let n = s.len() as int;
    let h = hash_run(s, 0, n);
    &&& h >= 1
    &&& h < n && s[h] == 0x20
    &&& contains_ci(s, h + 1, n, section)
}

/// Decides `section_header_match`.
pub fn header_matches_section(s: &[u8], section: &[u8]) -> (r: bool)
    ensures
        r == section_header_match(s@, section@),
{
    proof {
        lemma_hash_run(s@, 0, s@.len() as int);
    }
    let n = s.len();
    let mut h: usize = 0;
    while h < n && s[h] == 0x23
        invariant
            0 <= h <= n == s@.len(),
            hash_run(s@, 0, n as int) == hash_run(s@, h as int, n as int),
        decreases n - h,
    {
        h = h + 1;
    }
    if !(h >= 1 && h < n && s[h] == 0x20) {
        return false;
    }
    find_ci(s, h + 1, n, section)
}

/// Whether a line's header level equals the given one (`None` meaning not
/// a header).
fn level_equals(line: &[u8], level: Option<usize>) -> (r: bool)
    ensures
        r == (spec_header_level(line@) == match level {
            Some(h) => Some(h as int),
            None => None::<int>,
        }),
{
    let lb = header_level(line);
    match (lb, level) {
        (Some(x), Some(y)) => x == y,
        (None, None) => true,
        _ => false,
    }
}

/// The span of the named section, as a half-open line range.  An empty
/// section name selects all lines.  Otherwise the section starts at the
/// first header whose text contains the name case-insensitively, and runs
/// to the next header of exactly the same level, or to the end.
pub fn get_section(lines: &Vec<Vec<u8>>, section: &[u8]) -> (r: Option<(usize, usize)>)
    ensures
        section@.len() == 0 ==> r == Some((0usize, lines@.len() as usize)),
        section@.len() > 0 ==> match r {
            None => forall|k: int|
                0 <= k < lines@.len() ==> !section_header_match(#[trigger] lines@[k]@, section@),
            Some((a, b)) => {
                &&& a < b <= lines@.len()
                &&& section_header_match(lines@[a as int]@, section@)
                &&& forall|k: int|
                    0 <= k < a ==> !section_header_match(#[trigger] lines@[k]@, section@)
                &&& forall|k: int|
                    a < k < b ==> spec_header_level(#[trigger] lines@[k]@) != spec_header_level(
                        lines@[a as int]@,
                    )
                &&& b < lines@.len() ==> spec_header_level(lines@[b as int]@) == spec_header_level(
                    lines@[a as int]@,
                )
            },
        },
{
    let n = lines.len();
    if section.len() == 0 {
        return Some((0, n));
    }
    let mut a: usize = 0;
    while a < n && !header_matches_section(lines[a].as_slice(), section)
        invariant
            0 <= a <= n == lines@.len(),
            forall|k: int| 0 <= k < a ==> !section_header_match(#[trigger] lines@[k]@, section@),
        decreases n - a,
    {
        a = a + 1;
    }
    if a == n {
        return None;
    }
    let level = header_level(lines[a].as_slice());
    let mut b = a + 1;
    while b < n && !level_equals(lines[b].as_slice(), level)
        invariant
            a < b <= n == lines@.len(),
            match level {
                Some(h) => spec_header_level(lines@[a as int]@) == Some(h as int),
                None => spec_header_level(lines@[a as int]@) is None,
            },
            forall|k: int|
                a < k < b ==> spec_header_level(#[trigger] lines@[k]@) != spec_header_level(
                    lines@[a as int]@,
                ),
        decreases n - b,
    {
        b = b + 1;
    }
    Some((a, b))
}

// ------------------------------------------------------------------
// Tag filtering
// ------------------------------------------------------------------
/// The tag occurs at position `o` of the line: `#` at `o`, preceded by
/// whitespace, followed by the tag bytes case-insensitively, and then the
/// end of the line or whitespace.
pub open spec fn tag_at(s: Seq<u8>, tag: Seq<u8>, o: int) -> bool {
    let n = s.len() as int;
    &&& 1 <= o && o + 1 + tag.len() <= n
    &&& is_ws(s[o - 1])
    &&& s[o] == 0x23
    &&& eq_ci_at(s, o + 1, tag)
    &&& (o + 1 + tag.len() == n || is_ws(s[o + 1 + tag.len()]))
}

/// A task line whose text carries the tag: `- [m] ` with a single space on
/// each side of the mark, the mark a space (or, when completed tasks are
/// shown, `x` or `|`), and somewhere after it a whitespace-preceded `#`
/// followed by the tag, case-insensitively, ending the line or followed by
/// whitespace.
pub open spec fn task_tag_prefix(s: Seq<u8>, show_completed: bool) -> bool {
    let n = s.len() as int;
    let w0 = ws_end(s, 0, n);
    &&& w0 + 6 <= n
    &&& s[w0] == 0x2d && s[w0 + 1] == 0x20 && s[w0 + 2] == 0x5b
    &&& (s[w0 + 3] == 0x20 || (show_completed && (s[w0 + 3] == 0x7c || s[w0 + 3] == 0x78)))
    &&& s[w0 + 4] == 0x5d && s[w0 + 5] == 0x20
}

pub open spec fn spec_task_has_tag(
    s: Seq<u8>,
    tag: Seq<u8>,
    show_completed: bool,
) -> bool {
    let w0 = ws_end(s, 0, s.len() as int);
    &&& task_tag_prefix(s, show_completed)
    &&& exists|o: int| w0 + 7 <= o && #[trigger] tag_at(s, tag, o)
}

/// Decides `spec_task_has_tag`.
pub fn task_has_tag(s: &[u8], tag: &[u8], show_completed: bool) -> (r: bool)
    ensures
        r == spec_task_has_tag(s@, tag@, show_completed),
{
    let n = s.len();
    let w0 = find_ws_end(s, 0, n);
    if !(n - w0 >= 6 && s[w0] == 0x2d && s[w0 + 1] == 0x20 && s[w0 + 2] == 0x5b && (s[w0 + 3]
        == 0x20 || (show_completed && (s[w0 + 3] == 0x7c || s[w0 + 3] == 0x78))) && s[w0 + 4]
        == 0x5d && s[w0 + 5] == 0x20) {
        return false;
    }
    let m = tag.len();
    if n - w0 < 7 {
        return false;
    }
    let mut o = w0 + 7;
    while o < n
        invariant
            w0 + 7 <= o <= n == s@.len(),
            m == tag@.len(),
            w0 == ws_end(s@, 0, n as int),
            task_tag_prefix(s@, show_completed),
            forall|o2: int| w0 + 7 <= o2 < o ==> !(#[trigger] tag_at(s@, tag@, o2)),
        decreases n - o,
    {
        if ws_byte(s[o - 1]) && s[o] == 0x23 && m <= n - (o + 1) {
            let mut k: usize = 0;
            while k < m && lower_byte(s[o + 1 + k]) == lower_byte(tag[k])
                invariant
                    0 <= k <= m == tag@.len(),
                    w0 + 7 <= o < n == s@.len(),
                    o + 1 + m <= n,
                    forall|k2: int|
                        0 <= k2 < k ==> lower(s@[o + 1 + k2]) == lower(#[trigger] tag@[k2]),
                decreases m - k,
            {
                k = k + 1;
            }
            if k == m && (o + 1 + m == n || ws_byte(s[o + 1 + m])) {
                proof {
                    assert(eq_ci_at(s@, o + 1, tag@));
                    assert(tag_at(s@, tag@, o as int));
                }
                return true;
            }
            proof {
                if k < m {
                    assert(!eq_ci_at(s@, o + 1, tag@));
                }
                assert(!tag_at(s@, tag@, o as int));
            }
        } else {
            proof {
                assert(!tag_at(s@, tag@, o as int));
            }
        }
        o = o + 1;
    }
    false
}

// ------------------------------------------------------------------
// Task toggling
// ------------------------------------------------------------------
/// Flips the completion mark of a task line: the byte at index three
/// becomes `x` if it was a space, and a space otherwise.  Lines shorter
/// than four bytes are returned unchanged.
pub fn toggle_task(s: &[u8]) -> (r: Vec<u8>)
    ensures
        r@.len() == s@.len(),
        forall|k: int| 0 <= k < s@.len() && k != 3 ==> r@[k] == s@[k],
        s@.len() > 3 ==> r@[3] == (if s@[3] == 0x20 {
            0x78u8
        } else {
            0x20u8
        }),
{
    let n = s.len();
    let mut v: Vec<u8> = Vec::new();
    let mut k: usize = 0;
    while k < n
        invariant
            0 <= k <= n == s@.len(),
            v@.len() == k,
            forall|k2: int| 0 <= k2 < k && k2 != 3 ==> v@[k2] == s@[k2],
            k > 3 ==> v@[3] == (if s@[3] == 0x20 {
                0x78u8
            } else {
                0x20u8
            }),
        decreases n - k,
    {
        if k == 3 {
            if s[k] == 0x20 {
                v.push(0x78);
            } else {
                v.push(0x20);
            }
        } else {
            v.push(s[k]);
        }
        k = k + 1;
    }
    v
}

} // verus!
