//! Removing the `main` function from a C or C++ source.
//!
//! The function is found as the first match of the pattern `int\s+main`; from the
//! end of that match the text is scanned for the brace that closes the first opened
//! brace, and everything from the start of the match up to that brace is cut out.
//!
//! Positions are counted in characters throughout; the match itself is found by the
//! `regex` crate, which reports it in bytes.
use vstd::prelude::*;
use crate::text::{chars_of, occurs_at, slice_chars, string_of};

verus! {

// ---------------------------------------------------------------------------
// Models
// ---------------------------------------------------------------------------

/// A character of Unicode's `White_Space` property (what `\s` matches).
pub open spec fn is_white_space(c: char) -> bool {
    let u = c as u32;
    ||| 0x9 <= u <= 0xD
    ||| u == 0x20 || u == 0x85 || u == 0xA0 || u == 0x1680
    ||| 0x2000 <= u <= 0x200A
    ||| u == 0x2028 || u == 0x2029 || u == 0x202F || u == 0x205F || u == 0x3000
}

/// The number of bytes that encode `c` in UTF-8.
pub open spec fn utf8_width(c: char) -> int {
    let u = c as u32;
    if u < 0x80 {
        1
    } else if u < 0x800 {
        2
    } else if u < 0x10000 {
        3
    } else {
        4
    }
}

/// The number of bytes that encode the first `k` characters of `s` in UTF-8.
pub open spec fn byte_offset(s: Seq<char>, k: int) -> int
    decreases k,
{
    if k <= 0 {
        0
    } else {
        byte_offset(s, k - 1) + utf8_width(s[k - 1])
    }
}

/// The number of bytes that encode `s` in UTF-8.
pub open spec fn utf8_len(s: Seq<char>) -> int {
    byte_offset(s, s.len() as int)
}

/// The length of the run of white space in `s` that starts at index `i`.
pub open spec fn space_run(s: Seq<char>, i: int) -> int
    decreases s.len() - i,
{
    if 0 <= i < s.len() && is_white_space(s[i]) {
        1 + space_run(s, i + 1)
    } else {
        0
    }
}

/// `int`, white space, then `main` start at index `p`: the pattern `int\s+main`
/// matches there (the white space run is always taken whole, as `main` does not
/// start with white space).
pub open spec fn main_at(s: Seq<char>, p: int) -> bool {
    &&& occurs_at(s, seq!['i', 'n', 't'], p)
    &&& space_run(s, p + 3) >= 1
    &&& occurs_at(s, seq!['m', 'a', 'i', 'n'], p + 3 + space_run(s, p + 3))
}

/// The first index from `i` on where the pattern matches, or `s.len()`.
pub open spec fn first_main_from(s: Seq<char>, i: int) -> int
    decreases s.len() - i,
{
    if i >= s.len() {
        s.len() as int
    } else if main_at(s, i) {
        i
    } else {
        first_main_from(s, i + 1)
    }
}

/// The first index where the pattern matches (its leftmost match), or `s.len()`.
pub open spec fn first_main(s: Seq<char>) -> int {
    first_main_from(s, 0)
}

/// The index just past the match that starts at `p`.
pub open spec fn match_end(s: Seq<char>, p: int) -> int {
    p + 3 + space_run(s, p + 3) + 4
}

/// Scans `s` from index `k` with `depth` open braces (`opened` once a `{` was seen):
/// the index just past the character at which a brace has been opened and the depth
/// is back to zero, if there is one.
pub open spec fn closing_scan(s: Seq<char>, k: int, depth: int, opened: bool) -> Option<int>
    decreases s.len() - k,
{
    if k < 0 || k >= s.len() {
        None
    } else {
        let c = s[k];
        let d = if c == '{' {
            depth + 1
        } else if c == '}' {
            depth - 1
        } else {
            depth
        };
        let o = opened || c == '{';
        if o && d == 0 {
            Some(k + 1)
        } else {
            closing_scan(s, k + 1, d, o)
        }
    }
}

/// Where the cut ends for the match at `p`: just past the brace that closes the first
/// brace opened after the match; 0 when no brace closes.
pub open spec fn cut_end(s: Seq<char>, p: int) -> int {
    match closing_scan(s, match_end(s, p), 0, false) {
        Some(x) => x,
        None => 0,
    }
}

/// The first index from `j` on whose byte offset is at least `b`, or `s.len()`.
pub open spec fn index_at_byte_from(s: Seq<char>, b: int, j: int) -> int
    decreases s.len() - j,
{
    if j >= s.len() || byte_offset(s, j) >= b {
        j
    } else {
        index_at_byte_from(s, b, j + 1)
    }
}

/// The index of the character that starts at byte offset `b`, if `b` is a character
/// boundary.
pub open spec fn index_at_byte(s: Seq<char>, b: int) -> int {
    index_at_byte_from(s, b, 0)
}

/// The cut does not end before it starts: after a match a brace is opened and
/// closed, unless the match starts the text (then nothing is cut). (Where neither
/// holds, the client cannot cut and stops.)
pub open spec fn main_removable(s: Seq<char>) -> bool {
    let p = first_main(s);
    p < s.len() ==> p <= cut_end(s, p)
}

/// `s` without its `main` function: unchanged when the pattern does not match,
/// else without the characters from the match up to the end of the cut.
pub open spec fn without_main(s: Seq<char>) -> Seq<char> {
    let p = first_main(s);
    if p >= s.len() {
        s
    } else {
        s.take(p) + s.skip(cut_end(s, p))
    }
}

// ---------------------------------------------------------------------------
// Lemmas
// ---------------------------------------------------------------------------

/// Byte offsets grow with the index, by at least one per character.
pub proof fn lemma_byte_offset_grows(s: Seq<char>, a: int, b: int)
    requires
        0 <= a <= b,
    ensures
        byte_offset(s, a) + (b - a) <= byte_offset(s, b),
    decreases b - a,
{
    if a < b {
        lemma_byte_offset_grows(s, a, b - 1);
    }
}

/// The leftmost match is a match, and comes no earlier than where the search began.
proof fn lemma_first_main_from(s: Seq<char>, i: int)
    requires
        0 <= i <= s.len(),
    ensures
        i <= first_main_from(s, i) <= s.len(),
        first_main_from(s, i) < s.len() ==> main_at(s, first_main_from(s, i)),
    decreases s.len() - i,
{
    if i < s.len() && !main_at(s, i) {
        lemma_first_main_from(s, i + 1);
    }
}

/// The character that starts at the byte offset of index `p` is the one at `p`.
proof fn lemma_index_at_offset(s: Seq<char>, p: int, j: int)
    requires
        0 <= j <= p <= s.len(),
    ensures
        index_at_byte_from(s, byte_offset(s, p), j) == p,
    decreases p - j,
{
    if j < p {
        lemma_byte_offset_grows(s, j + 1, p);
        lemma_index_at_offset(s, p, j + 1);
    }
}

/// A closing scan that succeeds ends past where it started and within the text.
proof fn lemma_closing_scan_bound(s: Seq<char>, k: int, depth: int, opened: bool)
    ensures
        closing_scan(s, k, depth, opened) matches Some(x) ==> k < x <= s.len(),
    decreases s.len() - k,
{
    if 0 <= k < s.len() {
        let c = s[k];
        let d = if c == '{' {
            depth + 1
        } else if c == '}' {
            depth - 1
        } else {
            depth
        };
        let o = opened || c == '{';
        if !(o && d == 0) {
            lemma_closing_scan_bound(s, k + 1, d, o);
        }
    }
}

/// Text without a match of `int\s+main` is kept as it is; otherwise exactly one
/// block of characters is cut out, from the start of the leftmost match through the
/// brace that closes the function's body, and the text before it and after it are
/// kept.
pub proof fn law_strip_main_cuts_one_block(s: Seq<char>)
    requires
        main_removable(s),
    ensures
        first_main(s) >= s.len() ==> without_main(s) == s,
        first_main(s) < s.len() ==> {
            let p = first_main(s);
            let j = cut_end(s, p);
            &&& p <= j <= s.len()
            &&& without_main(s) == s.take(p) + s.skip(j)
            &&& without_main(s).len() == s.len() - (j - p)
        },
{
    lemma_first_main_from(s, 0);
    let p = first_main(s);
    if p < s.len() {
        lemma_closing_scan_bound(s, match_end(s, p), 0, false);
    }
}

// ---------------------------------------------------------------------------
// Implementation
// ---------------------------------------------------------------------------

fn width(c: char) -> (r: usize)
    ensures
        r == utf8_width(c),
{
    let u = c as u32;
    if u < 0x80 {
        1
    } else if u < 0x800 {
        2
    } else if u < 0x10000 {
        3
    } else {
        4
    }
}

/// The pattern that finds the `main` function.
pub const MAIN_PATTERN: &'static str = "int\\s+main";

/// Calls `regex::Regex::find` with a regex made by `Regex::new` from `pattern`, which
/// is `int\s+main` (a pattern it accepts). The crate documents that `find` gives the
/// first match, that `\s` is Unicode's `White_Space` and that `+` is greedy; the
/// contract claims the byte offsets of that match: from the first index where
/// `main_at` holds to `match_end` there, or `None` when there is none.
#[verifier::external_body]
fn regex_find(pattern: &str, content: &str) -> (r: Option<(usize, usize)>)
    requires
        pattern@ == MAIN_PATTERN@,
    ensures
        first_main(content@) < content@.len() ==> r == Some(
            (
                byte_offset(content@, first_main(content@)) as usize,
                byte_offset(content@, match_end(content@, first_main(content@))) as usize,
            ),
        ),
        first_main(content@) >= content@.len() ==> r is None,
{
    regex::Regex::new(pattern).unwrap().find(content).map(|m| (m.start(), m.end()))
}

/// Where the leftmost match starts and ends, as character indices.
fn locate_main(s: &[char], content: &str) -> (r: Option<(usize, usize)>)
    requires
        s@ == content@,
        utf8_len(s@) <= isize::MAX,
    ensures
        first_main(s@) >= s@.len() ==> r is None,
        first_main(s@) < s@.len() ==> r == Some(
            (first_main(s@) as usize, match_end(s@, first_main(s@)) as usize),
        ),
        first_main(s@) < s@.len() ==> main_at(s@, first_main(s@)) && match_end(s@, first_main(s@))
            <= s@.len(),
{
    proof {
        lemma_first_main_from(s@, 0);
    }
    match regex_find(MAIN_PATTERN, content) {
        None => None,
        Some((start, end)) => {
            let ghost p = first_main(s@);
            proof {
                lemma_byte_offset_grows(s@, p, s.len() as int);
                lemma_byte_offset_grows(s@, match_end(s@, p), s.len() as int);
                lemma_byte_offset_grows(s@, 0, match_end(s@, p));
                lemma_index_at_offset(s@, p, 0);
                lemma_index_at_offset(s@, match_end(s@, p), 0);
            }
            let p_index = index_at_byte_offset(s, start);
            let end_index = index_at_byte_offset(s, end);
            Some((p_index, end_index))
        },
    }
}

/// The brace scan from index `start`.
fn closing_scan_from(s: &[char], start: usize) -> (r: Option<usize>)
    requires
        s.len() <= isize::MAX,
    ensures
        match r {
            Some(x) => closing_scan(s@, start as int, 0, false) == Some(x as int),
            None => closing_scan(s@, start as int, 0, false) is None,
        },
{
    if start >= s.len() {
        return None;
    }
    let mut k: usize = start;
    let mut depth: isize = 0;
    let mut opened = false;
    while k < s.len()
        invariant
            start <= k <= s.len(),
            s.len() <= isize::MAX,
            -(k - start) <= depth <= k - start,
            closing_scan(s@, start as int, 0, false) == closing_scan(
                s@,
                k as int,
                depth as int,
                opened,
            ),
        decreases s.len() - k,
    {
        let c = s[k];
        if c == '{' {
            depth = depth + 1;
            opened = true;
        } else if c == '}' {
            depth = depth - 1;
        }
        k += 1;
        if opened && depth == 0 {
            return Some(k);
        }
    }
    None
}

/// The first index whose byte offset is at least `b`, or `s.len()`.
fn index_at_byte_offset(s: &[char], b: usize) -> (r: usize)
    requires
        utf8_len(s@) <= isize::MAX,
    ensures
        r == index_at_byte(s@, b as int),
        r <= s.len(),
{
    let mut j: usize = 0;
    let mut acc: usize = 0;
    loop
        invariant
            j <= s.len(),
            utf8_len(s@) <= isize::MAX,
            acc == byte_offset(s@, j as int),
            index_at_byte(s@, b as int) == index_at_byte_from(s@, b as int, j as int),
        ensures
            j <= s.len(),
            index_at_byte(s@, b as int) == j,
        decreases s.len() - j,
    {
        if j >= s.len() || acc >= b {
            break;
        }
        proof {
            lemma_byte_offset_grows(s@, j + 1, s.len() as int);
        }
        acc = acc + width(s[j]);
        j += 1;
    }
    j
}

/// Whether `main` can be cut out of `content` (see `main_removable`).
pub fn is_main_removable(content: &str) -> (r: bool)
    requires
        utf8_len(content@) <= isize::MAX,
    ensures
        r == main_removable(content@),
{
    let s = chars_of(content);
    proof {
        lemma_byte_offset_grows(s@, 0, s.len() as int);
    }
    let (p, q) = match locate_main(s.as_slice(), content) {
        None => {
            return true;
        },
        Some(found) => found,
    };
    let end = match closing_scan_from(s.as_slice(), q) {
        Some(x) => x,
        None => 0,
    };
    p <= end
}

/// `content` without its `main` function: the text from the leftmost match of
/// `int\s+main` through the brace that closes the function's body is removed; text
/// without such a match comes back unchanged.
pub fn strip_main(content: &str) -> (r: String)
    requires
        utf8_len(content@) <= isize::MAX,
        main_removable(content@),
    ensures
        r@ == without_main(content@),
{
    let s = chars_of(content);
    proof {
        lemma_byte_offset_grows(s@, 0, s.len() as int);
    }
    let (p, q) = match locate_main(s.as_slice(), content) {
        None => {
            return string_of(s.as_slice());
        },
        Some(found) => found,
    };
    let j = match closing_scan_from(s.as_slice(), q) {
        Some(x) => x,
        None => 0,
    };
    proof {
        lemma_closing_scan_bound(s@, q as int, 0, false);
    }
    let mut kept = slice_chars(s.as_slice(), 0, p);
    let rest = slice_chars(s.as_slice(), j, s.len());
    let mut i: usize = 0;
    while i < rest.len()
        invariant
            i <= rest.len(),
            kept@ == s@.take(p as int) + rest@.take(i as int),
        decreases rest.len() - i,
    {
        kept.push(rest[i]);
        i += 1;
        assert(kept@ =~= s@.take(p as int) + rest@.take(i as int));
    }
    assert(rest@.take(rest.len() as int) =~= s@.skip(j as int));
    string_of(kept.as_slice())
}

} // verus!
