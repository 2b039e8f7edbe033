//! Decoding of the server's GWT-RPC replies.
//!
//! A reply reads `//OK[k1,k2,...,["v1","v2",...],0,7]`: a run of decimal keys, then a
//! table of values. Each non-zero key `k` stands for the value `v_k` (counted from 1);
//! decoding lists the values that the keys name, in key order, without their quotes.
pub mod allowed_language;
pub mod from_baca_output;
pub mod submit;
pub mod submit_entry;
pub mod tasks;

use vstd::prelude::*;
use crate::number::usize_of;
use crate::text::{
    all_digits, bufs, buffers_of, chars_of, find_first, lemma_find_first, remove_char,
    split_chars, split_on, string_of, strings_of, views, without_char,
};

verus! {

broadcast use vstd::string::group_string_axioms;

/// The characters of a reply after its first five (`//OK[`), keeping `byte_len - 13`
/// of them, where `byte_len` is the reply's length in bytes.
pub open spec fn outer_layer(s: Seq<char>, byte_len: int) -> Seq<char> {
    let rest = if s.len() >= 5 {
        s.subrange(5, s.len() as int)
    } else {
        Seq::<char>::empty()
    };
    let n = byte_len - 13;
    if n < 0 {
        Seq::<char>::empty()
    } else if n < rest.len() {
        rest.take(n)
    } else {
        rest
    }
}

/// How many leading pieces consist of digits only: the keys.
pub open spec fn key_count(parts: Seq<Seq<char>>) -> nat {
    find_first(parts, |p: Seq<char>| !all_digits(p))
}

/// There are no more keys than pieces.
pub proof fn lemma_key_count_bound(parts: Seq<Seq<char>>)
    ensures
        key_count(parts) <= parts.len(),
{
    crate::text::lemma_find_first_bounds(parts, |p: Seq<char>| !all_digits(p));
}

/// The value table index that a key names (0 for "none").
pub open spec fn key_index(k: Seq<char>) -> int {
    match usize_of(k) {
        Some(v) => v as int,
        None => 0,
    }
}

/// Every key reads as a `usize` that names an entry of a table of `n` values (or 0).
pub open spec fn keys_valid(keys: Seq<Seq<char>>, n: int) -> bool {
    forall|i: int|
        0 <= i < keys.len() ==> usize_of(#[trigger] keys[i]) is Some && key_index(keys[i]) <= n
}

/// The non-zero keys.
pub open spec fn nonzero_keys(keys: Seq<Seq<char>>) -> Seq<Seq<char>> {
    keys.filter(|k: Seq<char>| key_index(k) != 0)
}

/// The values that the non-zero keys name, in key order, without `"`.
pub open spec fn mapped(keys: Seq<Seq<char>>, values: Seq<Seq<char>>) -> Seq<Seq<char>> {
    nonzero_keys(keys).map_values(|k: Seq<char>| without_char(values[key_index(k) - 1], '"'))
}

/// The pieces of a reply's inner text between its commas.
pub open spec fn reply_parts(s: Seq<char>, byte_len: int) -> Seq<Seq<char>> {
    split_on(outer_layer(s, byte_len), ',')
}

/// The keys of a reply.
pub open spec fn reply_keys(s: Seq<char>, byte_len: int) -> Seq<Seq<char>> {
    let parts = reply_parts(s, byte_len);
    parts.take(key_count(parts) as int)
}

/// The value table of a reply.
pub open spec fn reply_values(s: Seq<char>, byte_len: int) -> Seq<Seq<char>> {
    let parts = reply_parts(s, byte_len);
    parts.skip(key_count(parts) as int)
}

/// A reply that decodes without failing: shorter than 18 bytes, or every key names an
/// entry of the value table.
pub open spec fn decodable(s: Seq<char>, byte_len: int) -> bool {
    byte_len < 18 || keys_valid(reply_keys(s, byte_len), reply_values(s, byte_len).len() as int)
}

/// The decoded reply: nothing for replies shorter than 18 bytes, else the values named
/// by the keys.
pub open spec fn decoded(s: Seq<char>, byte_len: int) -> Seq<Seq<char>> {
    if byte_len < 18 {
        Seq::<Seq<char>>::empty()
    } else {
        mapped(reply_keys(s, byte_len), reply_values(s, byte_len))
    }
}

/// The length of `s` in bytes.
pub open spec fn byte_len(s: &str) -> int {
    s.len() as int
}

/// Decodes a reply into the values its keys name.
pub fn deserialize(data: &str) -> (r: Vec<String>)
    requires
        decodable(data@, byte_len(data)),
    ensures
        views(r@) == decoded(data@, byte_len(data)),
{
    if data.len() < 18 {
        let r: Vec<String> = Vec::new();
        assert(views(r@) =~= decoded(data@, byte_len(data)));
        return r;
    }
    let inner = remove_outer_layer(data);
    let parts = split_raw(inner);
    let keys = get_keys(&parts);
    proof {
        crate::text::lemma_find_first_bounds(views(parts@), |p: Seq<char>| !all_digits(p));
    }
    let values = get_values(&parts, keys.len());
    assert(views(keys@) == reply_keys(data@, byte_len(data)));
    assert(views(values@) == reply_values(data@, byte_len(data)));
    map_serialized(&keys, &values)
}

/// The values that `keys` name in `values`, without `"`.
pub fn map_serialized(keys: &[String], values: &[String]) -> (r: Vec<String>)
    requires
        keys_valid(views(keys@), values@.len() as int),
    ensures
        views(r@) == mapped(views(keys@), views(values@)),
{
    let ghost ks = views(keys@);
    let ghost vs = views(values@);
    let mut r: Vec<String> = Vec::new();
    let mut i: usize = 0;
    while i < keys.len()
        invariant
            i <= keys.len(),
            ks == views(keys@),
            vs == views(values@),
            keys_valid(ks, values@.len() as int),
            views(r@) == mapped(ks.take(i as int), vs),
        decreases keys.len() - i,
    {
        let k = chars_of(keys[i].as_str());
        let v = crate::number::parse_usize(k.as_slice());
        proof {
            assert(ks[i as int] == keys@[i as int]@);
            assert(ks.take(i + 1).drop_last() =~= ks.take(i as int));
            assert(ks.take(i + 1).last() == ks[i as int]);
            reveal(Seq::filter);
        }
        let x = v.unwrap();
        let ghost before = r@;
        if x != 0 {
            let val = chars_of(values[x - 1].as_str());
            let val = remove_char(val.as_slice(), '"');
            let val = string_of(val.as_slice());
            r.push(val);
            proof {
                assert(vs[x - 1] == values@[x - 1]@);
                assert(views(r@) =~= views(before).push(without_char(vs[x - 1], '"')));
                assert(mapped(ks.take(i + 1), vs) =~= mapped(ks.take(i as int), vs).push(
                    without_char(vs[key_index(ks[i as int]) - 1], '"'),
                ));
            }
        } else {
            assert(mapped(ks.take(i + 1), vs) =~= mapped(ks.take(i as int), vs));
        }
        i += 1;
    }
    assert(ks.take(keys.len() as int) =~= ks);
    r
}

/// The values of a split reply: the pieces after the first `keys_len`.
pub fn get_values(data: &[String], keys_len: usize) -> (r: Vec<String>)
    ensures
        views(r@) == if keys_len <= data@.len() {
            views(data@).skip(keys_len as int)
        } else {
            Seq::<Seq<char>>::empty()
        },
{
    let mut r: Vec<String> = Vec::new();
    let mut i: usize = keys_len;
    while i < data.len()
        invariant
            keys_len <= i,
            i <= data.len() || i == keys_len,
            keys_len <= data.len() ==> views(r@) == views(data@).subrange(
                keys_len as int,
                i as int,
            ),
            keys_len > data.len() ==> r@.len() == 0,
        decreases data.len() - i,
    {
        let s = string_of(chars_of(data[i].as_str()).as_slice());
        r.push(s);
        i += 1;
        assert(views(r@) =~= views(data@).subrange(keys_len as int, i as int));
    }
    assert(views(r@) =~= if keys_len <= data@.len() {
        views(data@).skip(keys_len as int)
    } else {
        Seq::<Seq<char>>::empty()
    });
    r
}

/// The characters of a reply after `//OK[`, keeping its length in bytes less 13.
pub fn remove_outer_layer(data: &str) -> (r: String)
    requires
        byte_len(data) >= 13,
    ensures
        r@ == outer_layer(data@, byte_len(data)),
{
    let chars = chars_of(data);
    let n = data.len() - 13;
    let start: usize = if chars.len() >= 5 { 5 } else { chars.len() };
    let end: usize = if n < chars.len() - start { start + n } else { chars.len() };
    let r = string_of(crate::text::slice_chars(chars.as_slice(), start, end).as_slice());
    assert(r@ =~= outer_layer(data@, byte_len(data)));
    r
}

/// The pieces of `data` between its commas.
pub fn split_raw(data: String) -> (r: Vec<String>)
    ensures
        views(r@) == split_on(data@, ','),
{
    let chars = chars_of(data.as_str());
    let pieces = split_chars(chars.as_slice(), ',');
    strings_of(pieces.as_slice())
}

/// The leading pieces that consist of digits only.
pub fn get_keys(data: &[String]) -> (r: Vec<String>)
    ensures
        views(r@) == views(data@).take(key_count(views(data@)) as int),
{
    let ghost ps = views(data@);
    let mut r: Vec<String> = Vec::new();
    let mut i: usize = 0;
    while i < data.len()
        invariant
            i <= data.len(),
            ps == views(data@),
            forall|j: int| 0 <= j < i ==> all_digits(#[trigger] ps[j]),
            r.len() == i,
            views(r@) == ps.take(i as int),
        decreases data.len() - i,
    {
        let c = chars_of(data[i].as_str());
        if !crate::text::is_all_digits(c.as_slice()) {
            proof {
                lemma_find_first(ps, |p: Seq<char>| !all_digits(p), i as int);
            }
            return r;
        }
        let s = string_of(c.as_slice());
        let ghost old_r = r@;
        r.push(s);
        proof {
            assert forall|j: int| 0 <= j < i + 1 implies #[trigger] views(r@)[j] == ps.take(
                i + 1,
            )[j] by {
                if j < i {
                    assert(r@[j] == old_r[j]);
                    assert(views(old_r)[j] == ps.take(i as int)[j]);
                }
            }
        }
        i += 1;
        assert(views(r@) =~= ps.take(i as int));
    }
    proof {
        lemma_find_first(ps, |p: Seq<char>| !all_digits(p), i as int);
        assert(ps.take(i as int) =~= ps);
    }
    r
}


/// Whether every key reads as a `usize` that is at most `n`.
pub fn keys_all_valid(keys: &[String], n: usize) -> (r: bool)
    ensures
        r == keys_valid(views(keys@), n as int),
{
    let ghost ks = views(keys@);
    let mut i: usize = 0;
    while i < keys.len()
        invariant
            i <= keys.len(),
            ks == views(keys@),
            forall|j: int|
                0 <= j < i ==> usize_of(#[trigger] ks[j]) is Some && key_index(ks[j]) <= n,
        decreases keys.len() - i,
    {
        let k = chars_of(keys[i].as_str());
        assert(ks[i as int] == keys@[i as int]@);
        match crate::number::parse_usize(k.as_slice()) {
            None => {
                return false;
            },
            Some(v) => {
                if v > n {
                    return false;
                }
            },
        }
        i += 1;
    }
    true
}

/// Whether a reply decodes without failing (see `decodable`).
pub fn is_decodable(data: &str) -> (r: bool)
    ensures
        r == decodable(data@, byte_len(data)),
{
    if data.len() < 18 {
        return true;
    }
    let inner = remove_outer_layer(data);
    let parts = split_raw(inner);
    let keys = get_keys(&parts);
    proof {
        crate::text::lemma_find_first_bounds(views(parts@), |p: Seq<char>| !all_digits(p));
    }
    let values = get_values(&parts, keys.len());
    assert(views(keys@) == reply_keys(data@, byte_len(data)));
    assert(views(values@) == reply_values(data@, byte_len(data)));
    keys_all_valid(keys.as_slice(), values.len())
}

} // verus!
