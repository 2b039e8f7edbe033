//! Decimal numbers in text: the syntax std's integer and float parsers accept, and
//! the decimal rendering of integers.
use vstd::prelude::*;
use crate::text::{all_digits, digit_value, digits_value, find_first, is_digit};

verus! {

/// The digits after an optional leading `+`, which an unsigned parse reads.
pub open spec fn unsigned_body(s: Seq<char>) -> Seq<char> {
    if s.len() > 0 && s[0] == '+' {
        s.subrange(1, s.len() as int)
    } else {
        s
    }
}

/// The value of `s` read as an unsigned decimal (an optional `+`, then one or more
/// ASCII digits), or `None` when `s` has another shape.
pub open spec fn parse_unsigned(s: Seq<char>) -> Option<nat> {
    let body = unsigned_body(s);
    if body.len() > 0 && all_digits(body) {
        Some(digits_value(body))
    } else {
        None
    }
}

/// The value of `s` read as a signed decimal (an optional `+` or `-`, then one or more
/// ASCII digits), or `None` when `s` has another shape.
pub open spec fn parse_signed(s: Seq<char>) -> Option<int> {
    if s.len() > 0 && (s[0] == '+' || s[0] == '-') {
        let body = s.subrange(1, s.len() as int);
        if body.len() > 0 && all_digits(body) {
            if s[0] == '-' {
                Some(-(digits_value(body) as int))
            } else {
                Some(digits_value(body) as int)
            }
        } else {
            None
        }
    } else if s.len() > 0 && all_digits(s) {
        Some(digits_value(s) as int)
    } else {
        None
    }
}

/// What `str::parse::<usize>` returns for `s`, as an `Option`.
pub open spec fn usize_of(s: Seq<char>) -> Option<usize> {
    match parse_unsigned(s) {
        Some(v) => if v <= usize::MAX { Some(v as usize) } else { None },
        None => None,
    }
}

/// What `str::parse::<i32>` returns for `s`, as an `Option`.
pub open spec fn i32_of(s: Seq<char>) -> Option<i32> {
    match parse_signed(s) {
        Some(v) => if i32::MIN <= v <= i32::MAX { Some(v as i32) } else { None },
        None => None,
    }
}

proof fn lemma_digits_value_take(s: Seq<char>, i: int)
    requires
        0 <= i < s.len(),
    ensures
        digits_value(s.take(i + 1)) == digits_value(s.take(i)) * 10 + digit_value(s[i]),
{
    assert(s.take(i + 1).drop_last() =~= s.take(i));
}

proof fn lemma_digits_value_monotonic(s: Seq<char>, i: int, j: int)
    requires
        0 <= i <= j <= s.len(),
        all_digits(s),
    ensures
        digits_value(s.take(i)) <= digits_value(s.take(j)),
    decreases j - i,
{
    if i < j {
        lemma_digits_value_monotonic(s, i, j - 1);
        lemma_digits_value_take(s, j - 1);
    }
}

/// Reads the digits `s[start..]` as a number no larger than `cap`; `None` when one of
/// them is not a digit or the value exceeds `cap`.
fn read_digits(s: &[char], start: usize, cap: u64) -> (r: Option<u64>)
    requires
        start <= s.len(),
    ensures
        match r {
            Some(v) => all_digits(s@.subrange(start as int, s.len() as int)) && v == digits_value(
                s@.subrange(start as int, s.len() as int),
            ) && v <= cap,
            None => !all_digits(s@.subrange(start as int, s.len() as int)) || digits_value(
                s@.subrange(start as int, s.len() as int),
            ) > cap,
        },
{
    let ghost body = s@.subrange(start as int, s.len() as int);
    let mut v: u64 = 0;
    let mut i: usize = start;
    while i < s.len()
        invariant
            start <= i <= s.len(),
            body == s@.subrange(start as int, s.len() as int),
            all_digits(body.take(i - start)),
            v == digits_value(body.take(i - start)),
            v <= cap,
        decreases s.len() - i,
    {
        let c = s[i];
        if !('0' <= c && c <= '9') {
            assert(body[i - start] == c);
            return None;
        }
        let d = (c as u32 - '0' as u32) as u64;
        proof {
            lemma_digits_value_take(body, i - start);
            assert(body[i - start] == c);
            assert(all_digits(body.take(i - start + 1))) by {
                assert forall|k: int| 0 <= k < i - start + 1 implies is_digit(
                    #[trigger] body.take(i - start + 1)[k],
                ) by {
                    if k < i - start {
                        assert(body.take(i - start + 1)[k] == body.take(i - start)[k]);
                    }
                }
            }
        }
        if d > cap || v > (cap - d) / 10 {
            proof {
                if d <= cap {
                    assert(v * 10 + d > cap) by (nonlinear_arith)
                        requires
                            v > (cap - d) / 10,
                            d <= cap,
                    ;
                }
                assert(digits_value(body.take(i - start + 1)) > cap);
                if all_digits(body) {
                    lemma_digits_value_monotonic(body, i - start + 1, body.len() as int);
                    assert(body.take(body.len() as int) =~= body);
                }
            }
            return None;
        }
        proof {
            assert(v * 10 + d <= cap) by (nonlinear_arith)
                requires
                    v <= (cap - d) / 10,
                    d <= cap,
            ;
        }
        v = v * 10 + d;
        i += 1;
    }
    assert(body.take(s.len() - start) =~= body);
    Some(v)
}


/// `s` read as a `usize`, as `str::parse::<usize>` reads it (`None` where it fails).
pub fn parse_usize(s: &[char]) -> (r: Option<usize>)
    ensures
        r == usize_of(s@),
{
    let start: usize = if s.len() > 0 && s[0] == '+' { 1 } else { 0 };
    proof {
        if start == 0 {
            assert(s@.subrange(0, s.len() as int) =~= s@);
        }
    }
    if start == s.len() {
        return None;
    }
    match read_digits(s, start, usize::MAX as u64) {
        Some(v) => Some(v as usize),
        None => None,
    }
}

/// `s` read as an `i32`, as `str::parse::<i32>` reads it (`None` where it fails).
pub fn parse_i32(s: &[char]) -> (r: Option<i32>)
    ensures
        r == i32_of(s@),
{
    if s.len() == 0 {
        return None;
    }
    let negative = s[0] == '-';
    let start: usize = if s[0] == '+' || s[0] == '-' { 1 } else { 0 };
    proof {
        if start == 0 {
            assert(s@.subrange(0, s.len() as int) =~= s@);
        }
    }
    if start == s.len() {
        return None;
    }
    let cap: u64 = if negative { 2147483648 } else { 2147483647 };
    match read_digits(s, start, cap) {
        Some(v) => {
            if negative {
                if v == 2147483648 {
                    Some(i32::MIN)
                } else {
                    Some(-(v as i32))
                }
            } else {
                Some(v as i32)
            }
        },
        None => None,
    }
}

/// The decimal digits of `n`, most significant first, without a sign.
pub open spec fn decimal_digits(n: nat) -> Seq<char>
    decreases n,
{
    if n < 10 {
        seq![digit_char(n)]
    } else {
        decimal_digits(n / 10).push(digit_char(n % 10))
    }
}

/// The character of a digit value below ten.
pub open spec fn digit_char(d: nat) -> char {
    (d + '0' as nat) as char
}

/// How `{}` renders the integer `n`: a `-` for negative numbers, then its digits.
pub open spec fn decimal(n: int) -> Seq<char> {
    if n < 0 {
        seq!['-'] + decimal_digits((-n) as nat)
    } else {
        decimal_digits(n as nat)
    }
}

fn push_digits(out: &mut Vec<char>, n: u64)
    ensures
        final(out)@ == old(out)@ + decimal_digits(n as nat),
    decreases n,
{
    if n >= 10 {
        push_digits(out, n / 10);
    }
    let d = (n % 10) as u32;
    let c = char_from_digit(d);
    out.push(c);
    proof {
        if n < 10 {
            assert(decimal_digits(n as nat) =~= seq![digit_char(n as nat)]);
        }
    }
}

fn char_from_digit(d: u32) -> (c: char)
    requires
        d < 10,
    ensures
        c == digit_char(d as nat),
{
    match d {
        0 => '0',
        1 => '1',
        2 => '2',
        3 => '3',
        4 => '4',
        5 => '5',
        6 => '6',
        7 => '7',
        8 => '8',
        _ => '9',
    }
}

/// The characters of `n` rendered in decimal, as `format!("{}", n)` does.
pub fn decimal_chars(n: i64) -> (r: Vec<char>)
    ensures
        r@ == decimal(n as int),
{
    let mut out: Vec<char> = Vec::new();
    if n < 0 {
        out.push('-');
        let m: u64 = if n == i64::MIN { 9223372036854775808u64 } else { (-n) as u64 };
        push_digits(&mut out, m);
    } else {
        push_digits(&mut out, n as u64);
    }
    assert(out@ =~= decimal(n as int));
    out
}


/// `s` without one leading `+` or `-`.
pub open spec fn unsigned_part(s: Seq<char>) -> Seq<char> {
    if s.len() > 0 && (s[0] == '+' || s[0] == '-') {
        s.subrange(1, s.len() as int)
    } else {
        s
    }
}

/// The exponent of a float literal: an optional sign, then one or more digits.
pub open spec fn is_exponent(x: Seq<char>) -> bool {
    let y = unsigned_part(x);
    y.len() > 0 && all_digits(y)
}

/// The mantissa of a float literal: digits with at most one `.` and at least one digit.
pub open spec fn is_mantissa(m: Seq<char>) -> bool {
    let d = find_first(m, |c: char| c == '.') as int;
    if d == m.len() {
        m.len() > 0 && all_digits(m)
    } else {
        all_digits(m.subrange(0, d)) && all_digits(m.subrange(d + 1, m.len() as int)) && m.len() >= 2
    }
}

/// A decimal float literal without sign: a mantissa and an optional `e`/`E` exponent.
pub open spec fn is_float_number(b: Seq<char>) -> bool {
    let e = find_first(b, |c: char| c == 'e' || c == 'E') as int;
    is_mantissa(b.subrange(0, e)) && (e == b.len() || is_exponent(b.subrange(e + 1, b.len() as int)))
}

/// The text `str::parse::<f32>` accepts: an optional sign, then `inf`, `infinity` or
/// `nan` in any case, or a decimal literal.
pub open spec fn is_float_text(s: Seq<char>) -> bool {
    let b = unsigned_part(s);
    let l = crate::text::ascii_lowercase(b);
    l == "inf"@ || l == "infinity"@ || l == "nan"@ || is_float_number(b)
}

fn is_unsigned_digits(s: &[char]) -> (r: bool)
    ensures
        r == is_exponent(s@),
{
    let start: usize = if s.len() > 0 && (s[0] == '+' || s[0] == '-') { 1 } else { 0 };
    let y = crate::text::slice_chars(s, start, s.len());
    proof {
        if start == 0 {
            assert(y@ =~= s@);
        }
    }
    y.len() > 0 && crate::text::is_all_digits(y.as_slice())
}

fn check_mantissa(m: &[char]) -> (r: bool)
    ensures
        r == is_mantissa(m@),
{
    let d = crate::text::index_of(m, '.');
    if d == m.len() {
        m.len() > 0 && crate::text::is_all_digits(m)
    } else {
        let a = crate::text::slice_chars(m, 0, d);
        let b = crate::text::slice_chars(m, d + 1, m.len());
        crate::text::is_all_digits(a.as_slice()) && crate::text::is_all_digits(b.as_slice()) && m.len() >= 2
    }
}

/// Whether `str::parse::<f32>` accepts `s`.
pub fn is_float(s: &[char]) -> (r: bool)
    ensures
        r == is_float_text(s@),
{
    let start: usize = if s.len() > 0 && (s[0] == '+' || s[0] == '-') { 1 } else { 0 };
    let b = crate::text::slice_chars(s, start, s.len());
    proof {
        if start == 0 {
            assert(b@ =~= s@);
        }
    }
    let l = crate::text::to_ascii_lower(b.as_slice());
    let inf = crate::text::chars_of("inf");
    let infinity = crate::text::chars_of("infinity");
    let nan = crate::text::chars_of("nan");
    if crate::text::same_chars(l.as_slice(), inf.as_slice()) || crate::text::same_chars(
        l.as_slice(),
        infinity.as_slice(),
    ) || crate::text::same_chars(l.as_slice(), nan.as_slice()) {
        return true;
    }
    let e1 = crate::text::index_of(b.as_slice(), 'e');
    let e2 = crate::text::index_of(b.as_slice(), 'E');
    let e = if e1 < e2 { e1 } else { e2 };
    proof {
        let p = |c: char| c == 'e' || c == 'E';
        crate::text::lemma_find_first_bounds(b@, |x: char| x == 'e');
        crate::text::lemma_find_first_bounds(b@, |x: char| x == 'E');
        crate::text::lemma_find_first(b@, p, e as int);
    }
    let mant = crate::text::slice_chars(b.as_slice(), 0, e);
    if !check_mantissa(mant.as_slice()) {
        return false;
    }
    if e == b.len() {
        return true;
    }
    let x = crate::text::slice_chars(b.as_slice(), e + 1, b.len());
    is_unsigned_digits(x.as_slice())
}


proof fn lemma_digit_char(d: nat)
    requires
        d < 10,
    ensures
        is_digit(digit_char(d)),
        digit_value(digit_char(d)) == d,
{
}

/// The decimal digits of `n` are one or more digits worth `n`.
proof fn lemma_decimal_digits(n: nat)
    ensures
        decimal_digits(n).len() > 0,
        all_digits(decimal_digits(n)),
        digits_value(decimal_digits(n)) == n,
    decreases n,
{
    if n < 10 {
        lemma_digit_char(n);
        let s = decimal_digits(n);
        assert(s.drop_last() =~= Seq::<char>::empty());
        assert(digits_value(s) == digits_value(s.drop_last()) * 10 + digit_value(s.last()));
    } else {
        lemma_decimal_digits(n / 10);
        lemma_digit_char(n % 10);
        let s = decimal_digits(n);
        assert(s.drop_last() =~= decimal_digits(n / 10));
        assert(s.last() == digit_char(n % 10));
        assert(digits_value(s) == digits_value(decimal_digits(n / 10)) * 10 + digit_value(s.last()));
        assert((n / 10) * 10 + n % 10 == n);
        assert forall|i: int| 0 <= i < s.len() implies is_digit(#[trigger] s[i]) by {
            if i < s.len() - 1 {
                assert(s[i] == decimal_digits(n / 10)[i]);
            }
        }
    }
}

/// Reading back what is written: an unsigned number written in decimal reads as
/// itself.
pub proof fn law_decimal_round_trip(n: nat)
    ensures
        parse_unsigned(decimal_digits(n)) == Some(n),
{
    lemma_decimal_digits(n);
    assert(!(decimal_digits(n)[0] == '+'));
}

/// The amount of submits to show survives being written out and read back: for
/// every `u16` amount `a`, the text `decimal(a)` reads as `a`.
pub proof fn law_amount_round_trip(a: u16)
    ensures
        usize_of(decimal(a as int)) == Some(a as usize),
{
    law_decimal_round_trip(a as nat);
}

} // verus!
