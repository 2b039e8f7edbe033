//! Replacing the Polish (and any other non-ASCII) letters of a source by ASCII.
use vstd::prelude::*;
use crate::text::all_ascii;

verus! {

/// What `deunicode::deunicode` turns the text `s` into.
pub uninterp spec fn transliteration(s: Seq<char>) -> Seq<char>;

/// Calls `deunicode::deunicode`. Its documentation guarantees that the result is
/// ASCII and that every ASCII character is kept as it is, so an ASCII text comes
/// back unchanged; what it makes of other characters is the crate's table and is
/// only named here.
#[verifier::external_body]
fn deunicode_text(s: &str) -> (r: String)
    ensures
        r@ == transliteration(s@),
        all_ascii(r@),
        all_ascii(s@) ==> r@ == s@,
{
    deunicode::deunicode(s)
}

/// `content` with every non-ASCII character replaced by its closest ASCII spelling
/// (`ą` by `a`, `ł` by `l`, ...); ASCII text is kept as it is.
pub fn remove_polish(content: &str) -> (r: String)
    ensures
        r@ == transliteration(content@),
        all_ascii(r@),
        all_ascii(content@) ==> r@ == content@,
{
    deunicode_text(content)
}

} // verus!
