//! Reading one submit's entry out of a details reply by regular expressions.
//!
//! The entry is the record `"<id>","<language>","<date>","<size>","<score>"`, possibly
//! followed by `,"<lateness>","<points>"`; the problem's name follows the
//! `"czas","status",` header. The searches are made by the `regex` crate.
use vstd::prelude::*;
use crate::model::{Submit, SubmitStatus};
use crate::number::{i32_of, parse_i32};
use crate::text::{chars_of, concat, find_first, index_of, slice_chars, string_of};
use crate::workspace::{course_url, ConnectionConfig};

verus! {

broadcast use vstd::string::group_string_axioms;

/// What a search with the `regex` crate gives: `None` when `pattern` is not a regular
/// expression it accepts; else `None` when nothing matches, else the matched text of
/// each group (the whole match first), `None` for a group that took no part.
pub uninterp spec fn regex_search_result(pattern: Seq<char>, haystack: Seq<char>) -> Option<
    Option<Seq<Option<Seq<char>>>>,
>;

/// The texts of a list of groups.
pub open spec fn group_views(v: Seq<Option<String>>) -> Seq<Option<Seq<char>>> {
    v.map_values(
        |g: Option<String>|
            match g {
                Some(x) => Some(x@),
                None => None,
            },
    )
}

/// Calls `regex::Regex::new` on `pattern` and, when it accepts it, `Regex::captures`
/// on `haystack`, handing back every group's text in order (`Captures::iter`). The
/// result is named `regex_search_result` of the two texts: the crate's matching
/// rules are not restated here.
#[verifier::external_body]
fn regex_search(pattern: &str, haystack: &str) -> (r: Option<Option<Vec<Option<String>>>>)
    ensures
        match r {
            None => regex_search_result(pattern@, haystack@) is None,
            Some(None) => regex_search_result(pattern@, haystack@) == Some(
                None::<Seq<Option<Seq<char>>>>,
            ),
            Some(Some(v)) => regex_search_result(pattern@, haystack@) == Some(
                Some(group_views(v@)),
            ),
        },
{
    regex::Regex::new(pattern).ok().map(
        |re|
            re.captures(haystack).map(
                |c| c.iter().map(|m| m.map(|m| m.as_str().to_string())).collect(),
            ),
    )
}

/// What follows the id in the pattern of an entry with lateness and points.
pub const FULL_ENTRY_TAIL: &'static str = "\",\"(?P<lang>.*)\",\"(?P<date>.*)\",\"(?P<bytes>\\d*)\",\"(?P<score>\\d*)\",\"\\d*\",\"(?P<points>[\\d\\.]*)\"";

/// What follows the id in the pattern of an entry without them.
pub const SHORT_ENTRY_TAIL: &'static str = "\",\"(?P<lang>.*)\",\"(?P<date>.*)\",\"(?P<bytes>\\d*)\",\"(?P<score>\\d*)\"";

/// The pattern that finds the problem's name.
pub const NAME_PATTERN: &'static str = "\"czas\",\"status\",\"(?P<name>.*)\"";

/// The pattern of the entry of submit `id`, with lateness and points.
pub open spec fn full_pattern(id: Seq<char>) -> Seq<char> {
    "\""@ + id + FULL_ENTRY_TAIL@
}

/// The pattern of the entry of submit `id`, without them.
pub open spec fn short_pattern(id: Seq<char>) -> Seq<char> {
    "\""@ + id + SHORT_ENTRY_TAIL@
}

/// The groups of the entry of submit `id`: those of the fuller pattern when it
/// matches, else those of the shorter one; `None` when neither matches.
pub open spec fn entry_groups(id: Seq<char>, data: Seq<char>) -> Option<Seq<Option<Seq<char>>>> {
    match regex_search_result(full_pattern(id), data) {
        Some(Some(g)) => Some(g),
        _ => match regex_search_result(short_pattern(id), data) {
            Some(Some(g)) => Some(g),
            _ => None,
        },
    }
}

/// The text of group `i`, or nothing when it took no part.
pub open spec fn group_text(g: Seq<Option<Seq<char>>>, i: int) -> Seq<char> {
    match g[i] {
        Some(x) => x,
        None => Seq::<char>::empty(),
    }
}

/// The text up to the first `"`.
pub open spec fn before_quote(x: Seq<char>) -> Seq<char> {
    x.take(find_first(x, |c: char| c == '"') as int)
}

/// The problem's name: what the name pattern's group holds, up to its first `"`.
pub open spec fn entry_name(data: Seq<char>) -> Seq<char> {
    before_quote(group_text(regex_search_result(NAME_PATTERN@, data)->0->0, 1))
}

/// The entry of submit `id` in `data` as its score and the problem's name; `None`
/// when no entry of that id is found.
pub open spec fn submit_entry(id: Seq<char>, data: Seq<char>) -> Option<(i32, Seq<char>)> {
    match entry_groups(id, data) {
        Some(g) => Some((i32_of(g[4]->0)->0, entry_name(data))),
        None => None,
    }
}

/// The entry can be read without failing: both entry patterns are accepted, and when
/// an entry is found its score is an `i32` and the problem's name is found.
pub open spec fn entry_readable(id: Seq<char>, data: Seq<char>) -> bool {
    &&& regex_search_result(full_pattern(id), data) is Some
    &&& regex_search_result(short_pattern(id), data) is Some
    &&& entry_groups(id, data) matches Some(g) ==> {
        &&& g.len() > 4
        &&& g[4] is Some
        &&& i32_of(g[4]->0) is Some
        &&& regex_search_result(NAME_PATTERN@, data) matches Some(Some(n))
        &&& n.len() > 1
        &&& n[1] is Some
    }
}

/// The submit that an entry describes, for the course `host`: its id, the problem's
/// name, the score as the accepted percentage, the link to its page, the language and
/// the date; the entry carries no verdict, points, lateness, size or tests.
pub open spec fn entry_submit(
    host: Seq<char>,
    id: Seq<char>,
    data: Seq<char>,
    s: crate::model::submit::SubmitView,
) -> bool {
    let g = entry_groups(id, data)->0;
    let (score, name) = submit_entry(id, data)->0;
    &&& s.id == id
    &&& s.problem_name == name
    &&& s.accepted == score
    &&& s.link == course_url(host) + "/#SubmitDetails/"@ + id
    &&& s.language == group_text(g, 1)
    &&& s.timestamp == group_text(g, 2)
    &&& s.status == SubmitStatus::Processing
    &&& s.points == "0"@
    &&& s.lateness is None
    &&& s.size == 0
    &&& s.max_points is None
    &&& s.test_results is None
}

fn text_of(g: &Option<String>) -> (r: String)
    ensures
        r@ == match g {
            Some(x) => x@,
            None => Seq::<char>::empty(),
        },
{
    match g {
        Some(x) => x.clone(),
        None => String::new(),
    }
}

/// The submit that the entry of submit `id` in the details reply `data` describes,
/// for the course of `connection_config`; `None` when the reply holds no entry of
/// that id.
pub fn parse_submit_entry(id: &str, connection_config: &ConnectionConfig, data: &str) -> (r:
    Option<Submit>)
    requires
        entry_readable(id@, data@),
    ensures
        r is None <==> submit_entry(id@, data@) is None,
        r matches Some(s) ==> entry_submit(connection_config.host@, id@, data@, s@),
{
    let start = concat("\"", id);
    let full_pattern = concat(start.as_str(), FULL_ENTRY_TAIL);
    let short_pattern = concat(start.as_str(), SHORT_ENTRY_TAIL);
    let full = regex_search(full_pattern.as_str(), data);
    let short = regex_search(short_pattern.as_str(), data);
    let groups = match full {
        Some(Some(g)) => g,
        _ => match short {
            Some(Some(g)) => g,
            _ => {
                return None;
            },
        },
    };
    let ghost gv = group_views(groups@);
    assert(entry_groups(id@, data@) == Some(gv));
    assert(gv[4] == match groups@[4] {
        Some(x) => Some(x@),
        None => None::<Seq<char>>,
    });
    let score_text = text_of(&groups[4]);
    let score = parse_i32(chars_of(score_text.as_str()).as_slice()).unwrap();
    assert(gv[1] == match groups@[1] {
        Some(x) => Some(x@),
        None => None::<Seq<char>>,
    });
    assert(gv[2] == match groups@[2] {
        Some(x) => Some(x@),
        None => None::<Seq<char>>,
    });
    let language = text_of(&groups[1]);
    let timestamp = text_of(&groups[2]);
    let name_groups = regex_search(NAME_PATTERN, data);
    let name_field = match &name_groups {
        Some(Some(n)) => {
            assert(group_views(n@)[1] == match n@[1] {
                Some(x) => Some(x@),
                None => None::<Seq<char>>,
            });
            text_of(&n[1])
        },
        _ => String::new(),
    };
    let chars = chars_of(name_field.as_str());
    let cut = index_of(chars.as_slice(), '"');
    let name = string_of(slice_chars(chars.as_slice(), 0, cut).as_slice());
    assert(name@ =~= entry_name(data@));
    let url = connection_config.make_url();
    let link = concat(url.as_str(), "/#SubmitDetails/");
    let link = concat(link.as_str(), id);
    Some(
        Submit {
            status: SubmitStatus::Processing,
            points: "0".to_owned(),
            lateness: None,
            accepted: score,
            size: 0,
            timestamp,
            language,
            id: id.to_owned(),
            max_points: None,
            problem_name: name,
            link,
            test_results: None,
        },
    )
}

/// Whether the entry of submit `id` in `data` can be read (see `entry_readable`); it
/// makes the searches that `parse_submit_entry` makes.
pub fn is_entry_readable(id: &str, data: &str) -> (r: bool)
    ensures
        r == entry_readable(id@, data@),
{
    let start = concat("\"", id);
    let full_pattern = concat(start.as_str(), FULL_ENTRY_TAIL);
    let short_pattern = concat(start.as_str(), SHORT_ENTRY_TAIL);
    let full = regex_search(full_pattern.as_str(), data);
    let short = regex_search(short_pattern.as_str(), data);
    if full.is_none() || short.is_none() {
        return false;
    }
    let groups = match full {
        Some(Some(g)) => g,
        _ => match short {
            Some(Some(g)) => g,
            _ => {
                return true;
            },
        },
    };
    let ghost gv = group_views(groups@);
    assert(entry_groups(id@, data@) == Some(gv));
    if groups.len() <= 4 {
        return false;
    }
    assert(gv[4] == match groups@[4] {
        Some(x) => Some(x@),
        None => None::<Seq<char>>,
    });
    let score_ok = match &groups[4] {
        Some(x) => parse_i32(chars_of(x.as_str()).as_slice()).is_some(),
        None => false,
    };
    if !score_ok {
        return false;
    }
    match regex_search(NAME_PATTERN, data) {
        Some(Some(n)) => {
            if n.len() <= 1 {
                return false;
            }
            assert(group_views(n@)[1] == match n@[1] {
                Some(x) => Some(x@),
                None => None::<Seq<char>>,
            });
            n[1].is_some()
        },
        _ => false,
    }
}

/// Reads a submit's entry out of a details reply.
pub struct SubmitParser {}

impl SubmitParser {
    /// The submit that the entry of submit `id` in `data` describes: `None` when the
    /// reply cannot be read (an entry pattern is refused, or a found entry lacks a
    /// numeric score or a problem name), else what `parse_submit_entry` gives.
    pub fn parse(id: &str, connection_config: &ConnectionConfig, data: &str) -> (r: Option<
        Option<Submit>,
    >)
        ensures
            !entry_readable(id@, data@) ==> r is None,
            entry_readable(id@, data@) ==> (r matches Some(e) && (e is None <==> submit_entry(
                id@,
                data@,
            ) is None) && (e matches Some(s) ==> entry_submit(
                connection_config.host@,
                id@,
                data@,
                s@,
            ))),
    {
        if !is_entry_readable(id, data) {
            return None;
        }
        Some(parse_submit_entry(id, connection_config, data))
    }
}

} // verus!
