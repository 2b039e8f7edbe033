//! The details of one submit, as a reply describes them.
use vstd::prelude::*;
use crate::model::submit::{tests_view, SubmitView, TestView};
use crate::model::submit_status::status_of;
use crate::model::{Submit, SubmitStatus, TestResults};
use crate::number::{i32_of, is_float_text};
use crate::parse::{
    byte_len, get_keys, get_values, key_count, key_index, keys_valid, nonzero_keys, outer_layer,
    remove_outer_layer, split_raw,
};
use crate::text::{
    bufs, buffers_of, chars_of, find_first, join_with, lemma_find_first, remove_char, seq_contains,
    split_on, split_on_pair, str_contains, string_of, strings_of, views, without_char,
};
use crate::workspace::{course_url, ConnectionConfig};

verus! {

broadcast use vstd::string::group_string_axioms;

// ---------------------------------------------------------------------------
// Decoding a submit reply
// ---------------------------------------------------------------------------

/// The pieces of a submit reply between its commas.
pub open spec fn submit_parts(s: Seq<char>, blen: int) -> Seq<Seq<char>> {
    split_on(outer_layer(s, blen), ',')
}

/// The keys of a submit reply.
pub open spec fn submit_keys(s: Seq<char>, blen: int) -> Seq<Seq<char>> {
    let parts = submit_parts(s, blen);
    parts.take(key_count(parts) as int)
}

/// The value table of a submit reply: the text after the keys, cut at every `,"`.
pub open spec fn submit_codes(s: Seq<char>, blen: int) -> Seq<Seq<char>> {
    let parts = submit_parts(s, blen);
    split_on_pair(join_with(parts.skip(key_count(parts) as int), ','), ',', '"')
}

/// A submit reply decodes without failing: it is at least 13 bytes long and every key
/// names an entry of its value table.
pub open spec fn submit_decodable(s: Seq<char>, blen: int) -> bool {
    blen >= 13 && keys_valid(submit_keys(s, blen), submit_codes(s, blen).len() as int)
}

/// The values that the keys of a submit reply name, in key order.
pub open spec fn submit_decoded(s: Seq<char>, blen: int) -> Seq<Seq<char>> {
    let codes = submit_codes(s, blen);
    nonzero_keys(submit_keys(s, blen)).map_values(|k: Seq<char>| codes[key_index(k) - 1])
}

// ---------------------------------------------------------------------------
// Reading the submit
// ---------------------------------------------------------------------------

/// The values with their `"` removed.
pub open spec fn unquoted(v: Seq<Seq<char>>) -> Seq<Seq<char>> {
    v.map_values(|x: Seq<char>| without_char(x, '"'))
}

/// Where the submit's own fields start: at the first value naming the status column.
pub open spec fn info_start(d: Seq<Seq<char>>) -> int {
    find_first(d, |x: Seq<char>| seq_contains(x, "nazwa statusu"@)) as int
}

/// The submit's own fields, without quotes.
pub open spec fn info_fields(d: Seq<Seq<char>>) -> Seq<Seq<char>> {
    unquoted(d.skip(info_start(d)))
}

/// The values that describe the tests, without quotes.
pub open spec fn test_fields(d: Seq<Seq<char>>) -> Seq<Seq<char>> {
    unquoted(d.take(info_start(d)))
}

/// The submit's fields can be read: there are enough of them, the points are a float
/// and the numbers are `i32`s.
pub open spec fn info_readable(st: Seq<Seq<char>>) -> bool {
    &&& st.len() >= 44
    &&& is_float_text(st[11])
    &&& i32_of(st[12]) is Some
    &&& i32_of(st[13]) is Some
    &&& i32_of(st[14]) is Some
    &&& i32_of(st[42]) is Some
}

/// The length of the header of the test table: the values up to the first one that
/// names a string type and neither the test nor the status column.
pub open spec fn test_row_len(raw: Seq<Seq<char>>) -> int {
    find_first(
        raw,
        |x: Seq<char>|
            !seq_contains(x, "test"@) && !seq_contains(x, "status"@) && seq_contains(
                x,
                "java.lang.String"@,
            ),
    ) as int
}

/// The position of the test-name column in a row: the first header value that
/// mentions "test" (`usize::MAX` when none does).
pub open spec fn test_name_column(raw: Seq<Seq<char>>) -> int {
    let i = find_first(raw.take(test_row_len(raw)), |x: Seq<char>| seq_contains(x, "test"@)) as int;
    if i == test_row_len(raw) {
        usize::MAX as int
    } else {
        i
    }
}

/// The position of the status column in a row: the first header value that mentions
/// "status" but not "test" (`usize::MAX` when none does).
pub open spec fn test_status_column(raw: Seq<Seq<char>>) -> int {
    let i = find_first(
        raw.take(test_row_len(raw)),
        |x: Seq<char>| !seq_contains(x, "test"@) && seq_contains(x, "status"@),
    ) as int;
    if i == test_row_len(raw) {
        usize::MAX as int
    } else {
        i
    }
}

/// The test values without the type names.
pub open spec fn test_cells(raw: Seq<Seq<char>>) -> Seq<Seq<char>> {
    raw.filter(|x: Seq<char>| !seq_contains(x, "lang.String"@))
}

/// How many tests are listed: the cells form rows of the header's length; the first
/// full row is the header, and each further full row is a test.
pub open spec fn listed_test_count(raw: Seq<Seq<char>>) -> int {
    let rows = test_cells(raw).len() as int / test_row_len(raw);
    if rows > 0 {
        rows - 1
    } else {
        0
    }
}

/// The test table can be read: its rows are not empty, and when it lists a test, both
/// columns lie within a row.
pub open spec fn tests_readable(raw: Seq<Seq<char>>) -> bool {
    &&& test_row_len(raw) > 0
    &&& listed_test_count(raw) > 0 ==> test_name_column(raw) < test_row_len(raw)
        && test_status_column(raw) < test_row_len(raw)
}

/// The `j`-th listed test: the rows are listed last first.
pub open spec fn listed_test(raw: Seq<Seq<char>>, j: int) -> TestView {
    let row = listed_test_count(raw) - j;
    let cells = test_cells(raw);
    let base = row * test_row_len(raw);
    (cells[base + test_name_column(raw)], status_of(cells[base + test_status_column(raw)]))
}

/// The listed tests, or `None` when the table lists none.
pub open spec fn listed_test_results(raw: Seq<Seq<char>>) -> Option<Seq<TestView>> {
    if listed_test_count(raw) == 0 {
        None
    } else {
        Some(Seq::new(listed_test_count(raw) as nat, |j: int| listed_test(raw, j)))
    }
}

/// The submit that a decoded reply describes, for the course `host`.
pub open spec fn submit_of(host: Seq<char>, d: Seq<Seq<char>>) -> SubmitView {
    let st = info_fields(d);
    SubmitView {
        status: status_of(st[10]),
        points: st[11],
        lateness: i32_of(st[12]),
        accepted: i32_of(st[13])->0,
        size: i32_of(st[14])->0,
        timestamp: st[15],
        language: st[16],
        id: st[17],
        max_points: i32_of(st[42]),
        problem_name: st[43],
        link: course_url(host) + "/#SubmitDetails/"@ + st[17],
        test_results: listed_test_results(test_fields(d)),
    }
}

/// A submit reply that can be read without failing.
pub open spec fn submit_readable(data: &str) -> bool {
    let d = submit_decoded(data@, byte_len(data));
    &&& submit_decodable(data@, byte_len(data))
    &&& info_readable(info_fields(d))
    &&& tests_readable(test_fields(d))
}


// ---------------------------------------------------------------------------
// Implementation
// ---------------------------------------------------------------------------

/// The keys and the value table of a submit reply.
fn keys_and_codes(data: &str) -> (r: (Vec<String>, Vec<String>))
    requires
        byte_len(data) >= 13,
    ensures
        views(r.0@) == submit_keys(data@, byte_len(data)),
        views(r.1@) == submit_codes(data@, byte_len(data)),
{
    let inner = remove_outer_layer(data);
    let parts = split_raw(inner);
    let keys = get_keys(&parts);
    proof {
        crate::parse::lemma_key_count_bound(views(parts@));
    }
    let rest = get_values(&parts, keys.len());
    let rest_bufs = buffers_of(rest.as_slice());
    let joined = crate::text::join_chars(rest_bufs.as_slice(), ',');
    let code_bufs = crate::text::split_pair(joined.as_slice(), ',', '"');
    let codes = strings_of(code_bufs.as_slice());
    proof {
        let parts_v = submit_parts(data@, byte_len(data));
        assert(views(parts@) == parts_v);
        assert(views(keys@) == parts_v.take(key_count(parts_v) as int));
        assert(key_count(parts_v) <= parts_v.len());
        assert(views(keys@).len() == keys@.len());
        assert(keys.len() == key_count(parts_v));
        assert(views(rest@) == parts_v.skip(key_count(parts_v) as int));
        assert(bufs(rest_bufs@) == views(rest@));
        assert(joined@ == join_with(parts_v.skip(key_count(parts_v) as int), ','));
    }
    (keys, codes)
}

/// The values of `codes` that the non-zero `keys` name, in key order.
fn pick_values(keys: &[String], codes: &[String]) -> (r: Vec<String>)
    requires
        keys_valid(views(keys@), codes@.len() as int),
    ensures
        views(r@) == nonzero_keys(views(keys@)).map_values(
            |k: Seq<char>| views(codes@)[key_index(k) - 1],
        ),
{
    let ghost ks = views(keys@);
    let ghost cs = views(codes@);
    let mut r: Vec<String> = Vec::new();
    let mut i: usize = 0;
    while i < keys.len()
        invariant
            i <= keys.len(),
            ks == views(keys@),
            cs == views(codes@),
            keys_valid(ks, codes@.len() as int),
            views(r@) == nonzero_keys(ks.take(i as int)).map_values(
                |k: Seq<char>| cs[key_index(k) - 1],
            ),
        decreases keys.len() - i,
    {
        let k = chars_of(keys[i].as_str());
        let v = crate::number::parse_usize(k.as_slice());
        proof {
            assert(ks[i as int] == keys@[i as int]@);
            assert(ks.take(i + 1).drop_last() =~= ks.take(i as int));
            assert(ks.take(i + 1).last() == ks[i as int]);
            reveal(Seq::filter);
        }
        let x = v.unwrap();
        let ghost before = r@;
        if x != 0 {
            let val = codes[x - 1].clone();
            r.push(val);
            proof {
                assert(cs[x - 1] == codes@[x - 1]@);
                assert(views(r@) =~= views(before).push(cs[x - 1]));
                assert(nonzero_keys(ks.take(i + 1)).map_values(|k: Seq<char>| cs[key_index(k) - 1])
                    =~= nonzero_keys(ks.take(i as int)).map_values(
                    |k: Seq<char>| cs[key_index(k) - 1],
                ).push(cs[key_index(ks[i as int]) - 1]));
            }
        } else {
            assert(nonzero_keys(ks.take(i + 1)) =~= nonzero_keys(ks.take(i as int)));
        }
        i += 1;
    }
    assert(ks.take(keys.len() as int) =~= ks);
    r
}

/// The values `data[from..to]`, each without its `"`.
fn unquote_range(data: &[String], from: usize, to: usize) -> (r: Vec<String>)
    requires
        from <= to <= data.len(),
    ensures
        views(r@) == unquoted(views(data@).subrange(from as int, to as int)),
{
    let mut r: Vec<String> = Vec::new();
    let mut i: usize = from;
    while i < to
        invariant
            from <= i <= to <= data.len(),
            r.len() == i - from,
            views(r@) == unquoted(views(data@).subrange(from as int, i as int)),
        decreases to - i,
    {
        let c = remove_char(chars_of(data[i].as_str()).as_slice(), '"');
        let ghost old_r = r@;
        r.push(string_of(c.as_slice()));
        proof {
            assert forall|j: int| 0 <= j < i + 1 - from implies #[trigger] views(r@)[j] == unquoted(
                views(data@).subrange(from as int, i + 1),
            )[j] by {
                if j < i - from {
                    assert(r@[j] == old_r[j]);
                    assert(views(old_r)[j] == unquoted(views(data@).subrange(from as int, i as int))[j]);
                }
            }
        }
        i += 1;
        assert(views(r@) =~= unquoted(views(data@).subrange(from as int, i as int)));
    }
    r
}

/// Where the submit's own fields start among the decoded values.
fn info_start_of(data: &[String]) -> (r: usize)
    ensures
        r == info_start(views(data@)),
        r <= data.len(),
{
    let ghost d = views(data@);
    let mut i: usize = 0;
    while i < data.len()
        invariant
            i <= data.len(),
            d == views(data@),
            forall|j: int| 0 <= j < i ==> !seq_contains(#[trigger] d[j], "nazwa statusu"@),
        decreases data.len() - i,
    {
        if str_contains(data[i].as_str(), "nazwa statusu") {
            proof {
                lemma_find_first(d, |x: Seq<char>| seq_contains(x, "nazwa statusu"@), i as int);
            }
            return i;
        }
        i += 1;
    }
    proof {
        lemma_find_first(d, |x: Seq<char>| seq_contains(x, "nazwa statusu"@), i as int);
    }
    i
}

/// The cells of the test table that are not type names.
fn filter_cells(raw: &[String]) -> (r: Vec<String>)
    ensures
        views(r@) == test_cells(views(raw@)),
{
    let ghost rv = views(raw@);
    let mut r: Vec<String> = Vec::new();
    let mut i: usize = 0;
    while i < raw.len()
        invariant
            i <= raw.len(),
            rv == views(raw@),
            views(r@) == test_cells(rv.take(i as int)),
        decreases raw.len() - i,
    {
        proof {
            reveal(Seq::filter);
            assert(rv.take(i + 1).drop_last() =~= rv.take(i as int));
            assert(rv.take(i + 1).last() == raw@[i as int]@);
        }
        if !str_contains(raw[i].as_str(), "lang.String") {
            let ghost old_r = r@;
            r.push(raw[i].clone());
            assert(views(r@) =~= views(old_r).push(raw@[i as int]@));
        }
        i += 1;
    }
    assert(rv.take(raw.len() as int) =~= rv);
    r
}

impl Submit {
    /// Decodes a submit reply into the values its keys name.
    pub fn deserialize(data: &str) -> (r: Vec<String>)
        requires
            submit_decodable(data@, byte_len(data)),
        ensures
            views(r@) == submit_decoded(data@, byte_len(data)),
    {
        let (keys, codes) = keys_and_codes(data);
        pick_values(keys.as_slice(), codes.as_slice())
    }

    /// Whether a submit reply can be read without failing (see `submit_readable`).
    pub fn is_readable(data: &str) -> (r: bool)
        ensures
            r == submit_readable(data),
    {
        if data.len() < 13 {
            return false;
        }
        let (keys, codes) = keys_and_codes(data);
        if !crate::parse::keys_all_valid(keys.as_slice(), codes.len()) {
            return false;
        }
        let d = pick_values(keys.as_slice(), codes.as_slice());
        let ghost dv = views(d@);
        assert(dv == submit_decoded(data@, byte_len(data)));
        let p = info_start_of(d.as_slice());
        let st = unquote_range(d.as_slice(), p, d.len());
        assert(views(d@).subrange(p as int, d.len() as int) =~= views(d@).skip(p as int));
        let ghost sv = info_fields(dv);
        assert(views(st@) == sv);
        assert(forall|i: int| 0 <= i < st@.len() ==> #[trigger] sv[i] == st@[i]@);
        if st.len() < 44 {
            return false;
        }
        if !crate::number::is_float(chars_of(st[11].as_str()).as_slice()) {
            return false;
        }
        if crate::number::parse_i32(chars_of(st[12].as_str()).as_slice()).is_none()
            || crate::number::parse_i32(chars_of(st[13].as_str()).as_slice()).is_none()
            || crate::number::parse_i32(chars_of(st[14].as_str()).as_slice()).is_none()
            || crate::number::parse_i32(chars_of(st[42].as_str()).as_slice()).is_none() {
            return false;
        }
        assert(info_readable(sv));
        let raw_test_data = Submit::collect_tests_data(d.as_slice());
        let ghost raw = views(raw_test_data@);
        let (offset, name_idx, status_idx) = Submit::find_name_and_status_indices(
            raw_test_data.as_slice(),
        );
        if offset == 0 {
            return false;
        }
        let cells = filter_cells(raw_test_data.as_slice());
        let rows = cells.len() / offset;
        let count: usize = if rows > 0 { rows - 1 } else { 0 };
        assert(count == listed_test_count(raw));
        count == 0 || (name_idx < offset && status_idx < offset)
    }

    /// The values that describe the tests, without quotes.
    pub fn collect_tests_data(data: &[String]) -> (r: Vec<String>)
        ensures
            views(r@) == test_fields(views(data@)),
    {
        let p = info_start_of(data);
        let r = unquote_range(data, 0, p);
        assert(views(data@).subrange(0, p as int) =~= views(data@).take(p as int));
        r
    }

    /// The length of a row of the test table, and the positions of the name and the
    /// status columns in it (`usize::MAX` for a column that is missing).
    pub fn find_name_and_status_indices(raw_test_data: &[String]) -> (r: (usize, usize, usize))
        ensures
            r.0 == test_row_len(views(raw_test_data@)),
            r.1 == test_name_column(views(raw_test_data@)),
            r.2 == test_status_column(views(raw_test_data@)),
    {
        let ghost rv = views(raw_test_data@);
        let ghost is_end = |x: Seq<char>|
            !seq_contains(x, "test"@) && !seq_contains(x, "status"@) && seq_contains(
                x,
                "java.lang.String"@,
            );
        let ghost is_name = |x: Seq<char>| seq_contains(x, "test"@);
        let ghost is_status = |x: Seq<char>| !seq_contains(x, "test"@) && seq_contains(x, "status"@);
        let mut offset: usize = 0;
        let mut test_name_idx: usize = usize::MAX;
        let mut test_status_idx: usize = usize::MAX;
        loop
            invariant
                offset <= raw_test_data.len(),
                rv == views(raw_test_data@),
                forall|j: int|
                    0 <= j < offset ==> !(!seq_contains(#[trigger] rv[j], "test"@) && !seq_contains(
                        rv[j],
                        "status"@,
                    ) && seq_contains(rv[j], "java.lang.String"@)),
                test_name_idx == usize::MAX ==> forall|j: int|
                    0 <= j < offset ==> !seq_contains(#[trigger] rv[j], "test"@),
                test_name_idx != usize::MAX ==> test_name_idx < offset && seq_contains(
                    rv[test_name_idx as int],
                    "test"@,
                ) && forall|j: int| 0 <= j < test_name_idx ==> !seq_contains(#[trigger] rv[j], "test"@),
                test_status_idx == usize::MAX ==> forall|j: int|
                    0 <= j < offset ==> !(!seq_contains(#[trigger] rv[j], "test"@) && seq_contains(
                        rv[j],
                        "status"@,
                    )),
                test_status_idx != usize::MAX ==> test_status_idx < offset && !seq_contains(
                    rv[test_status_idx as int],
                    "test"@,
                ) && seq_contains(rv[test_status_idx as int], "status"@) && forall|j: int|
                    0 <= j < test_status_idx ==> !(!seq_contains(#[trigger] rv[j], "test"@)
                        && seq_contains(rv[j], "status"@)),
            ensures
                offset == raw_test_data.len() || (!seq_contains(rv[offset as int], "test"@)
                    && !seq_contains(rv[offset as int], "status"@) && seq_contains(
                    rv[offset as int],
                    "java.lang.String"@,
                )),
            decreases raw_test_data.len() - offset,
        {
            if offset == raw_test_data.len() {
                break;
            }
            let x = raw_test_data[offset].as_str();
            assert(rv[offset as int] == x@);
            if str_contains(x, "test") {
                if offset < test_name_idx {
                    test_name_idx = offset;
                }
            } else if str_contains(x, "status") {
                if offset < test_status_idx {
                    test_status_idx = offset;
                }
            } else if str_contains(x, "java.lang.String") {
                break;
            }
            offset += 1;
        }
        proof {
            lemma_find_first(rv, is_end, offset as int);
            let head = rv.take(offset as int);
            assert forall|j: int| 0 <= j < offset implies #[trigger] head[j] == rv[j] by {}
            if test_name_idx == usize::MAX {
                lemma_find_first(head, is_name, offset as int);
            } else {
                lemma_find_first(head, is_name, test_name_idx as int);
            }
            if test_status_idx == usize::MAX {
                lemma_find_first(head, is_status, offset as int);
            } else {
                lemma_find_first(head, is_status, test_status_idx as int);
            }
        }
        (offset, test_name_idx, test_status_idx)
    }
}


impl Submit {
    /// The tests a decoded submit reply lists, last row first; `None` when it lists none.
    pub fn parse_test_statuses(data: &[String]) -> (r: Option<Vec<TestResults>>)
        requires
            tests_readable(test_fields(views(data@))),
        ensures
            match r {
                None => listed_test_results(test_fields(views(data@))) is None,
                Some(v) => listed_test_results(test_fields(views(data@))) == Some(tests_view(v@)),
            },
    {
        let raw_test_data = Submit::collect_tests_data(data);
        let ghost raw = views(raw_test_data@);
        let (offset, test_name_idx, test_status_idx) = Submit::find_name_and_status_indices(
            raw_test_data.as_slice(),
        );
        let cells = filter_cells(raw_test_data.as_slice());
        let rows = cells.len() / offset;
        let count: usize = if rows > 0 { rows - 1 } else { 0 };
        assert(count == listed_test_count(raw));
        if count == 0 {
            return None;
        }
        let mut ans: Vec<TestResults> = Vec::new();
        let mut j: usize = 0;
        while j < count
            invariant
                j <= count,
                count == listed_test_count(raw),
                count > 0,
                raw == views(raw_test_data@),
                views(cells@) == test_cells(raw),
                offset == test_row_len(raw),
                offset > 0,
                rows == cells.len() / offset,
                count == rows - 1,
                test_name_idx == test_name_column(raw),
                test_status_idx == test_status_column(raw),
                test_name_idx < offset,
                test_status_idx < offset,
                ans@.len() == j,
                forall|k: int| 0 <= k < j ==> (#[trigger] ans@[k])@ == listed_test(raw, k),
            decreases count - j,
        {
            let row = count - j;
            assert(row * offset + offset <= cells.len()) by (nonlinear_arith)
                requires
                    row <= count,
                    count == rows - 1,
                    rows == cells.len() / offset,
                    offset > 0,
            ;
            let base = row * offset;
            let name = cells[base + test_name_idx].clone();
            let status = SubmitStatus::from_str(cells[base + test_status_idx].as_str()).unwrap();
            proof {
                assert(views(cells@)[base + test_name_idx] == cells@[base + test_name_idx as int]@);
                assert(views(cells@)[base + test_status_idx] == cells@[base
                    + test_status_idx as int]@);
            }
            ans.push(TestResults { name, status });
            j += 1;
        }
        assert(Seq::new(count as nat, |k: int| listed_test(raw, k)) =~= tests_view(ans@));
        Some(ans)
    }

    /// The submit's own fields, read from the decoded reply, for the course of
    /// `connection_config`; its tests are left out.
    pub fn parse_submit_info(connection_config: &ConnectionConfig, data: Vec<String>) -> (r: Submit)
        requires
            info_readable(info_fields(views(data@))),
        ensures
            ({
                let m = submit_of(connection_config.host@, views(data@));
                &&& r@.status == m.status
                &&& r@.points == m.points
                &&& r@.lateness == m.lateness
                &&& r@.accepted == m.accepted
                &&& r@.size == m.size
                &&& r@.timestamp == m.timestamp
                &&& r@.language == m.language
                &&& r@.id == m.id
                &&& r@.max_points == m.max_points
                &&& r@.problem_name == m.problem_name
                &&& r@.link == m.link
                &&& r.test_results is None
            }),
    {
        let p = info_start_of(data.as_slice());
        let st = unquote_range(data.as_slice(), p, data.len());
        assert(views(data@).subrange(p as int, data.len() as int) =~= views(data@).skip(p as int));
        let ghost sv = info_fields(views(data@));
        assert(views(st@) == sv);
        assert(forall|i: int| 0 <= i < st@.len() ==> #[trigger] sv[i] == st@[i]@);
        let status = SubmitStatus::from_str(st[10].as_str()).unwrap();
        let lateness = crate::number::parse_i32(chars_of(st[12].as_str()).as_slice()).unwrap();
        let accepted = crate::number::parse_i32(chars_of(st[13].as_str()).as_slice()).unwrap();
        let size = crate::number::parse_i32(chars_of(st[14].as_str()).as_slice()).unwrap();
        let max_points = crate::number::parse_i32(chars_of(st[42].as_str()).as_slice()).unwrap();
        let url = connection_config.make_url();
        let link = crate::text::concat(url.as_str(), "/#SubmitDetails/");
        let link = crate::text::concat(link.as_str(), st[17].as_str());
        Submit {
            status,
            points: st[11].clone(),
            lateness: Some(lateness),
            accepted,
            size,
            timestamp: st[15].clone(),
            language: st[16].clone(),
            id: st[17].clone(),
            max_points: Some(max_points),
            problem_name: st[43].clone(),
            link,
            test_results: None,
        }
    }

    /// The submit a reply describes, for the course of `connection_config`.
    pub fn parse(connection_config: &ConnectionConfig, data: &str) -> (r: Submit)
        requires
            submit_readable(data),
        ensures
            r@ == submit_of(connection_config.host@, submit_decoded(data@, byte_len(data))),
    {
        let data = Submit::deserialize(data);
        let test_data = Submit::parse_test_statuses(data.as_slice());
        let mut submit = Submit::parse_submit_info(connection_config, data);
        submit.test_results = test_data;
        submit
    }
}

} // verus!
