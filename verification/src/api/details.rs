//! Fixed facts about the server.
use vstd::prelude::*;

verus! {

/// The server's host name.
pub const SERVER_URL: &'static str = "baca.ii.uj.edu.pl";

/// The GWT permutation the client presents.
pub const PERMUTATION: &'static str = "5A4AE95C27260DF45F17F9BF027335F6";

/// The reply the server sends when the session is no longer valid.
pub const EMPTY_RESPONSE: &'static str = "//OK[0,[],0,7]";

/// The GWT permutation the client presents, as an owned string.
pub fn permutation() -> (r: String)
    ensures
        r@ == PERMUTATION@,
{
    PERMUTATION.to_owned()
}

} // verus!
