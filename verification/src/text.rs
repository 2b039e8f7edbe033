//! Character-level text utilities and their mathematical models.
//!
//! Strings are modelled by their view, a `Seq<char>`; the functions here work on
//! `Vec<char>` buffers and convert to and from `String` at the edges.
use vstd::prelude::*;

verus! {

broadcast use vstd::string::group_string_axioms;

// ---------------------------------------------------------------------------
// Models
// ---------------------------------------------------------------------------

/// `needle` occurs in `hay` starting at index `i`.
pub open spec fn occurs_at(hay: Seq<char>, needle: Seq<char>, i: int) -> bool {
    &&& 0 <= i
    &&& i + needle.len() <= hay.len()
    &&& hay.subrange(i, i + needle.len()) == needle
}

/// `needle` is a substring of `hay` (the empty needle is a substring of everything).
pub open spec fn seq_contains(hay: Seq<char>, needle: Seq<char>) -> bool {
    exists|i: int| occurs_at(hay, needle, i)
}

/// An ASCII decimal digit.
pub open spec fn is_digit(c: char) -> bool {
    '0' <= c <= '9'
}

/// Every character of `s` is an ASCII decimal digit (true of the empty sequence).
pub open spec fn all_digits(s: Seq<char>) -> bool {
    forall|i: int| 0 <= i < s.len() ==> is_digit(#[trigger] s[i])
}

/// The numeric value of a digit character.
pub open spec fn digit_value(c: char) -> nat {
    (c as nat - '0' as nat) as nat
}

/// The value of a string of decimal digits, most significant first.
pub open spec fn digits_value(s: Seq<char>) -> nat
    decreases s.len(),
{
    if s.len() == 0 {
        0
    } else {
        digits_value(s.drop_last()) * 10 + digit_value(s.last())
    }
}

/// `s` with every occurrence of `c` removed.
pub open spec fn without_char(s: Seq<char>, c: char) -> Seq<char> {
    s.filter(|x: char| x != c)
}

/// The index of the first element of `s` that satisfies `p`, or `s.len()` when none does.
pub open spec fn find_first<A>(s: Seq<A>, p: spec_fn(A) -> bool) -> nat
    decreases s.len(),
{
    if s.len() == 0 {
        0
    } else if p(s[0]) {
        0
    } else {
        1 + find_first(s.drop_first(), p)
    }
}

/// The pieces of `s` between the occurrences of `sep` (one piece more than there are separators).
pub open spec fn split_on(s: Seq<char>, sep: char) -> Seq<Seq<char>>
    decreases s.len(),
{
    if s.len() == 0 {
        seq![Seq::<char>::empty()]
    } else {
        let prev = split_on(s.drop_last(), sep);
        if s.last() == sep {
            prev.push(Seq::<char>::empty())
        } else {
            prev.update(prev.len() - 1, prev.last().push(s.last()))
        }
    }
}

/// The pieces of `s` between the occurrences of the two-character separator `a b`, where
/// `a != b` (so occurrences cannot overlap).
pub open spec fn split_on_pair(s: Seq<char>, a: char, b: char) -> Seq<Seq<char>>
    decreases s.len(),
{
    if s.len() == 0 {
        seq![Seq::<char>::empty()]
    } else if s.len() >= 2 && s[s.len() - 2] == a && s[s.len() - 1] == b {
        split_on_pair(s.subrange(0, s.len() - 2), a, b).push(Seq::<char>::empty())
    } else {
        let prev = split_on_pair(s.drop_last(), a, b);
        prev.update(prev.len() - 1, prev.last().push(s.last()))
    }
}

/// The pieces joined with `sep` between consecutive pieces.
pub open spec fn join_with(pieces: Seq<Seq<char>>, sep: char) -> Seq<char>
    decreases pieces.len(),
{
    if pieces.len() == 0 {
        Seq::<char>::empty()
    } else if pieces.len() == 1 {
        pieces[0]
    } else {
        join_with(pieces.drop_last(), sep).push(sep) + pieces.last()
    }
}

/// The contents of a sequence of character buffers.
pub open spec fn bufs(v: Seq<Vec<char>>) -> Seq<Seq<char>> {
    v.map_values(|p: Vec<char>| p@)
}

/// The views of a sequence of strings.
pub open spec fn views(v: Seq<String>) -> Seq<Seq<char>> {
    v.map_values(|s: String| s@)
}

// ---------------------------------------------------------------------------
// Lemmas
// ---------------------------------------------------------------------------

/// Splitting gives at least one piece.
pub proof fn lemma_split_on_nonempty(s: Seq<char>, sep: char)
    ensures
        split_on(s, sep).len() >= 1,
    decreases s.len(),
{
    if s.len() > 0 {
        lemma_split_on_nonempty(s.drop_last(), sep);
    }
}

/// Splitting at a two-character separator gives at least one piece.
pub proof fn lemma_split_on_pair_nonempty(s: Seq<char>, a: char, b: char)
    ensures
        split_on_pair(s, a, b).len() >= 1,
    decreases s.len(),
{
    if s.len() >= 2 && s[s.len() - 2] == a && s[s.len() - 1] == b {
        lemma_split_on_pair_nonempty(s.subrange(0, s.len() - 2), a, b);
    } else if s.len() > 0 {
        lemma_split_on_pair_nonempty(s.drop_last(), a, b);
    }
}

/// `find_first` is the first index satisfying `p` when all earlier ones fail.
pub proof fn lemma_find_first<A>(s: Seq<A>, p: spec_fn(A) -> bool, i: int)
    requires
        0 <= i <= s.len(),
        forall|j: int| 0 <= j < i ==> !p(#[trigger] s[j]),
        i == s.len() || p(s[i]),
    ensures
        find_first(s, p) == i,
    decreases i,
{
    if i > 0 {
        assert forall|j: int| 0 <= j < i - 1 implies !p(#[trigger] s.drop_first()[j]) by {
            assert(s.drop_first()[j] == s[j + 1]);
        }
        if i < s.len() {
            assert(s.drop_first()[i - 1] == s[i]);
        }
        assert(!p(s[0]));
        lemma_find_first(s.drop_first(), p, i - 1);
    }
}

/// `find_first` never exceeds the length, and every earlier index fails `p`.
pub proof fn lemma_find_first_bounds<A>(s: Seq<A>, p: spec_fn(A) -> bool)
    ensures
        find_first(s, p) <= s.len(),
        forall|j: int| 0 <= j < find_first(s, p) ==> !p(#[trigger] s[j]),
        find_first(s, p) < s.len() ==> p(s[find_first(s, p) as int]),
    decreases s.len(),
{
    if s.len() > 0 && !p(s[0]) {
        lemma_find_first_bounds(s.drop_first(), p);
        assert forall|j: int| 0 <= j < find_first(s, p) implies !p(#[trigger] s[j]) by {
            if j > 0 {
                assert(s[j] == s.drop_first()[j - 1]);
            }
        }
    }
}

// ---------------------------------------------------------------------------
// Conversions
// ---------------------------------------------------------------------------

/// Calls std's `String::push`; the contract claims what its documentation says:
/// afterwards the string holds its old characters followed by `c`.
#[verifier::external_body]
fn push_char(s: &mut String, c: char)
    ensures
        final(s)@ == old(s)@.push(c),
{
    s.push(c);
}

/// The characters of `s`, in order.
pub fn chars_of(s: &str) -> (v: Vec<char>)
    ensures
        v@ == s@,
{
    let mut v: Vec<char> = Vec::new();
    for c in it: s.chars()
        invariant
            it.seq() == s@,
            v@ == it.seq().take(it.index() as int),
    {
        v.push(c);
    }
    v
}

/// The string made of the characters of `v`, in order.
pub fn string_of(v: &[char]) -> (s: String)
    ensures
        s@ == v@,
{
    let mut s = String::new();
    let mut i: usize = 0;
    while i < v.len()
        invariant
            i <= v.len(),
            s@ == v@.take(i as int),
        decreases v.len() - i,
    {
        push_char(&mut s, v[i]);
        i += 1;
        assert(s@ =~= v@.take(i as int));
    }
    assert(v@.take(v.len() as int) =~= v@);
    s
}

// ---------------------------------------------------------------------------
// Searching
// ---------------------------------------------------------------------------

/// Whether `needle` occurs in `hay` at index `i`.
pub fn matches_at(hay: &[char], needle: &[char], i: usize) -> (r: bool)
    ensures
        r == occurs_at(hay@, needle@, i as int),
{
    if i > hay.len() || needle.len() > hay.len() - i {
        return false;
    }
    let mut k: usize = 0;
    while k < needle.len()
        invariant
            k <= needle.len(),
            i + needle.len() <= hay.len(),
            forall|j: int| 0 <= j < k ==> hay@[i + j] == needle@[j],
        decreases needle.len() - k,
    {
        if hay[i + k] != needle[k] {
            assert(hay@.subrange(i as int, i + needle.len())[k as int] != needle@[k as int]);
            return false;
        }
        k += 1;
    }
    assert(hay@.subrange(i as int, i + needle.len()) =~= needle@);
    true
}

/// Whether `needle` is a substring of `hay`.
pub fn contains(hay: &[char], needle: &[char]) -> (r: bool)
    ensures
        r == seq_contains(hay@, needle@),
{
    if needle.len() > hay.len() {
        return false;
    }
    let last = hay.len() - needle.len();
    let mut i: usize = 0;
    loop
        invariant
            needle.len() <= hay.len(),
            last == hay.len() - needle.len(),
            i <= last,
            forall|k: int| 0 <= k < i ==> !occurs_at(hay@, needle@, k),
        ensures
            forall|k: int| 0 <= k <= last ==> !occurs_at(hay@, needle@, k),
        decreases last - i,
    {
        if matches_at(hay, needle, i) {
            return true;
        }
        if i == last {
            break;
        }
        i += 1;
    }
    false
}

/// Whether the string `hay` contains the string `needle`.
pub fn str_contains(hay: &str, needle: &str) -> (r: bool)
    ensures
        r == seq_contains(hay@, needle@),
{
    let h = chars_of(hay);
    let n = chars_of(needle);
    contains(h.as_slice(), n.as_slice())
}

/// `s` with every `c` removed.
pub fn remove_char(s: &[char], c: char) -> (r: Vec<char>)
    ensures
        r@ == without_char(s@, c),
{
    let mut r: Vec<char> = Vec::new();
    let mut i: usize = 0;
    while i < s.len()
        invariant
            i <= s.len(),
            r@ == without_char(s@.take(i as int), c),
        decreases s.len() - i,
    {
        assert(s@.take(i + 1).drop_last() =~= s@.take(i as int));
        reveal(Seq::filter);
        if s[i] != c {
            r.push(s[i]);
        }
        i += 1;
    }
    assert(s@.take(s.len() as int) =~= s@);
    r
}

/// Whether every character of `s` is an ASCII digit.
pub fn is_all_digits(s: &[char]) -> (r: bool)
    ensures
        r == all_digits(s@),
{
    let mut i: usize = 0;
    while i < s.len()
        invariant
            i <= s.len(),
            forall|j: int| 0 <= j < i ==> is_digit(#[trigger] s@[j]),
        decreases s.len() - i,
    {
        if !('0' <= s[i] && s[i] <= '9') {
            return false;
        }
        i += 1;
    }
    true
}

// ---------------------------------------------------------------------------
// Splitting and joining
// ---------------------------------------------------------------------------

/// The pieces of `s` between occurrences of `sep`.
pub fn split_chars(s: &[char], sep: char) -> (r: Vec<Vec<char>>)
    ensures
        bufs(r@) == split_on(s@, sep),
{
    let mut done: Vec<Vec<char>> = Vec::new();
    let mut cur: Vec<char> = Vec::new();
    let mut i: usize = 0;
    while i < s.len()
        invariant
            i <= s.len(),
            bufs(done@).push(cur@) == split_on(s@.take(i as int), sep),
        decreases s.len() - i,
    {
        proof {
            lemma_split_on_nonempty(s@.take(i as int), sep);
            assert(s@.take(i + 1).drop_last() =~= s@.take(i as int));
        }
        if s[i] == sep {
            let piece = cur;
            done.push(piece);
            cur = Vec::new();
            assert(bufs(done@).push(cur@) =~= split_on(s@.take(i + 1), sep));
        } else {
            let ghost before = bufs(done@).push(cur@);
            cur.push(s[i]);
            assert(bufs(done@).push(cur@) =~= before.update(
                before.len() - 1,
                before.last().push(s@[i as int]),
            ));
        }
        i += 1;
    }
    assert(s@.take(s.len() as int) =~= s@);
    done.push(cur);
    assert(bufs(done@) =~= split_on(s@, sep));
    done
}


/// The pieces of `s` between occurrences of the separator `a b`, where `a != b`.
pub fn split_pair(s: &[char], a: char, b: char) -> (r: Vec<Vec<char>>)
    requires
        a != b,
    ensures
        bufs(r@) == split_on_pair(s@, a, b),
{
    let mut done: Vec<Vec<char>> = Vec::new();
    let mut cur: Vec<char> = Vec::new();
    let mut i: usize = 0;
    while i < s.len()
        invariant
            a != b,
            i <= s.len(),
            0 < i < s.len() ==> !(s@[i - 1] == a && s@[i as int] == b),
            bufs(done@).push(cur@) == split_on_pair(s@.take(i as int), a, b),
        decreases s.len() - i,
    {
        proof {
            lemma_split_on_pair_nonempty(s@.take(i as int), a, b);
        }
        if i + 1 < s.len() && s[i] == a && s[i + 1] == b {
            proof {
                let t = s@.take(i + 2);
                assert(t.subrange(0, t.len() - 2) =~= s@.take(i as int));
            }
            let piece = cur;
            done.push(piece);
            cur = Vec::new();
            assert(bufs(done@).push(cur@) =~= split_on_pair(s@.take(i + 2), a, b));
            i += 2;
        } else {
            proof {
                assert(s@.take(i + 1).drop_last() =~= s@.take(i as int));
            }
            let ghost before = bufs(done@).push(cur@);
            cur.push(s[i]);
            assert(bufs(done@).push(cur@) =~= before.update(
                before.len() - 1,
                before.last().push(s@[i as int]),
            ));
            i += 1;
        }
    }
    assert(s@.take(s.len() as int) =~= s@);
    done.push(cur);
    assert(bufs(done@) =~= split_on_pair(s@, a, b));
    done
}

/// The pieces joined with `sep` between consecutive pieces.
pub fn join_chars(pieces: &[Vec<char>], sep: char) -> (r: Vec<char>)
    ensures
        r@ == join_with(bufs(pieces@), sep),
{
    let ghost ps = bufs(pieces@);
    let mut r: Vec<char> = Vec::new();
    let mut i: usize = 0;
    while i < pieces.len()
        invariant
            i <= pieces.len(),
            ps == bufs(pieces@),
            r@ == join_with(ps.take(i as int), sep),
        decreases pieces.len() - i,
    {
        let ghost before = r@;
        if i > 0 {
            r.push(sep);
        }
        let piece = &pieces[i];
        let mut k: usize = 0;
        while k < piece.len()
            invariant
                k <= piece.len(),
                i > 0 ==> r@ == before.push(sep) + piece@.take(k as int),
                i == 0 ==> r@ == before + piece@.take(k as int),
            decreases piece.len() - k,
        {
            r.push(piece[k]);
            k += 1;
            proof {
                if i > 0 {
                    assert(r@ =~= before.push(sep) + piece@.take(k as int));
                } else {
                    assert(r@ =~= before + piece@.take(k as int));
                }
            }
        }
        proof {
            assert(piece@.take(piece.len() as int) =~= piece@);
            assert(ps.take(i + 1).drop_last() =~= ps.take(i as int));
            assert(ps.take(i + 1).last() == piece@);
            if i == 0 {
                assert(before =~= Seq::<char>::empty());
                assert(r@ =~= piece@);
            }
        }
        i += 1;
    }
    assert(ps.take(pieces.len() as int) =~= ps);
    r
}


/// Whether `a` and `b` hold the same characters.
pub fn same_chars(a: &[char], b: &[char]) -> (r: bool)
    ensures
        r == (a@ == b@),
{
    if a.len() != b.len() {
        return false;
    }
    let mut i: usize = 0;
    while i < a.len()
        invariant
            a.len() == b.len(),
            i <= a.len(),
            forall|j: int| 0 <= j < i ==> a@[j] == b@[j],
        decreases a.len() - i,
    {
        if a[i] != b[i] {
            return false;
        }
        i += 1;
    }
    assert(a@ =~= b@);
    true
}

/// Whether the string `a` equals the string `b`.
pub fn str_eq(a: &str, b: &str) -> (r: bool)
    ensures
        r == (a@ == b@),
{
    let x = chars_of(a);
    let y = chars_of(b);
    same_chars(x.as_slice(), y.as_slice())
}

/// Every character of `s` is ASCII.
pub open spec fn all_ascii(s: Seq<char>) -> bool {
    forall|i: int| 0 <= i < s.len() ==> (#[trigger] s[i] as u32) < 0x80
}

/// ASCII upper-case letters made lower-case; other characters unchanged.
pub open spec fn ascii_lower(c: char) -> char {
    if 'A' <= c <= 'Z' {
        ((c as u32) + 32) as char
    } else {
        c
    }
}

/// `s` with its ASCII letters made lower-case.
pub open spec fn ascii_lowercase(s: Seq<char>) -> Seq<char> {
    s.map_values(|c: char| ascii_lower(c))
}

/// `s` with its ASCII letters made lower-case.
pub fn to_ascii_lower(s: &[char]) -> (r: Vec<char>)
    ensures
        r@ == ascii_lowercase(s@),
{
    let mut r: Vec<char> = Vec::new();
    let mut i: usize = 0;
    while i < s.len()
        invariant
            i <= s.len(),
            r@ == ascii_lowercase(s@.take(i as int)),
        decreases s.len() - i,
    {
        let c = s[i];
        let l = if 'A' <= c && c <= 'Z' { ((c as u8) + 32) as char } else { c };
        r.push(l);
        i += 1;
        assert(r@ =~= ascii_lowercase(s@.take(i as int)));
    }
    assert(s@.take(s.len() as int) =~= s@);
    r
}

/// The index of the first `c` in `s`, or `s.len()`.
pub fn index_of(s: &[char], c: char) -> (r: usize)
    ensures
        r == find_first(s@, |x: char| x == c),
        r <= s.len(),
{
    let mut i: usize = 0;
    while i < s.len()
        invariant
            i <= s.len(),
            forall|j: int| 0 <= j < i ==> s@[j] != c,
        decreases s.len() - i,
    {
        if s[i] == c {
            proof {
                lemma_find_first(s@, |x: char| x == c, i as int);
            }
            return i;
        }
        i += 1;
    }
    proof {
        lemma_find_first(s@, |x: char| x == c, i as int);
    }
    i
}

/// The characters `s[from..to]`.
pub fn slice_chars(s: &[char], from: usize, to: usize) -> (r: Vec<char>)
    requires
        from <= to <= s.len(),
    ensures
        r@ == s@.subrange(from as int, to as int),
{
    let mut r: Vec<char> = Vec::new();
    let mut i: usize = from;
    while i < to
        invariant
            from <= i <= to <= s.len(),
            r@ == s@.subrange(from as int, i as int),
        decreases to - i,
    {
        r.push(s[i]);
        i += 1;
        assert(r@ =~= s@.subrange(from as int, i as int));
    }
    r
}


/// The strings made of each character buffer, in order.
pub fn strings_of(v: &[Vec<char>]) -> (r: Vec<String>)
    ensures
        views(r@) == bufs(v@),
{
    let mut r: Vec<String> = Vec::new();
    let mut i: usize = 0;
    while i < v.len()
        invariant
            i <= v.len(),
            r.len() == i,
            views(r@) == bufs(v@.take(i as int)),
        decreases v.len() - i,
    {
        let s = string_of(v[i].as_slice());
        let ghost old_r = r@;
        r.push(s);
        proof {
            assert forall|j: int| 0 <= j < i + 1 implies #[trigger] views(r@)[j] == bufs(v@.take(
                i + 1,
            ))[j] by {
                if j < i {
                    assert(r@[j] == old_r[j]);
                    assert(views(old_r)[j] == bufs(v@.take(i as int))[j]);
                }
            }
        }
        i += 1;
        assert(views(r@) =~= bufs(v@.take(i as int)));
    }
    assert(v@.take(v.len() as int) =~= v@);
    r
}

/// The character buffers of each string, in order.
pub fn buffers_of(v: &[String]) -> (r: Vec<Vec<char>>)
    ensures
        bufs(r@) == views(v@),
{
    let mut r: Vec<Vec<char>> = Vec::new();
    let mut i: usize = 0;
    while i < v.len()
        invariant
            i <= v.len(),
            r.len() == i,
            bufs(r@) == views(v@.take(i as int)),
        decreases v.len() - i,
    {
        let b = chars_of(v[i].as_str());
        let ghost old_r = r@;
        r.push(b);
        proof {
            assert forall|j: int| 0 <= j < i + 1 implies #[trigger] bufs(r@)[j] == views(v@.take(i + 1))[j] by {
                if j < i {
                    assert(r@[j] == old_r[j]);
                    assert(bufs(old_r)[j] == views(v@.take(i as int))[j]);
                }
            }
        }
        i += 1;
        assert(bufs(r@) =~= views(v@.take(i as int)));
    }
    assert(v@.take(v.len() as int) =~= v@);
    r
}


/// The concatenation of `a` and `b`.
pub fn concat(a: &str, b: &str) -> (r: String)
    ensures
        r@ == a@ + b@,
{
    let mut x = chars_of(a);
    let y = chars_of(b);
    let mut i: usize = 0;
    while i < y.len()
        invariant
            i <= y.len(),
            x@ == a@ + y@.take(i as int),
        decreases y.len() - i,
    {
        x.push(y[i]);
        i += 1;
        assert(x@ =~= a@ + y@.take(i as int));
    }
    assert(y@.take(y.len() as int) =~= y@);
    string_of(x.as_slice())
}

} // verus!
