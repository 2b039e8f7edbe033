//! The language a task accepts, as a reply describes it.
use vstd::prelude::*;
use crate::model::language::{language_of_lowercase, unicode_lowercase};
use crate::model::Language;
use crate::parse::from_baca_output::FromBacaOutput;
use crate::parse::{byte_len, decodable, decoded, deserialize};
use crate::text::{all_ascii, ascii_lowercase, chars_of, remove_char, string_of, without_char};
use crate::workspace::ConnectionConfig;

verus! {

/// The language that the name `name` (with its backslashes removed) stands for, if
/// it is a known one.
pub open spec fn allowed_language_of(name: Seq<char>) -> Option<Language> {
    let l = language_of_lowercase(unicode_lowercase(without_char(name, '\\')));
    if l == Language::Unsupported {
        None
    } else {
        Some(l)
    }
}

/// The language that an ASCII name (with its backslashes removed) stands for, read
/// in any letter case, if it is a known one.
pub open spec fn ascii_allowed_language_of(name: Seq<char>) -> Option<Language> {
    let l = language_of_lowercase(ascii_lowercase(without_char(name, '\\')));
    if l == Language::Unsupported {
        None
    } else {
        Some(l)
    }
}

/// A reply about a task's languages decodes and holds a name at position 4.
pub open spec fn languages_reply_readable(data: &str) -> bool {
    decodable(data@, byte_len(data)) && decoded(data@, byte_len(data)).len() > 4
}

impl FromBacaOutput for Option<Language> {
    open spec fn readable(data: &str) -> bool {
        languages_reply_readable(data)
    }

    /// The language a task accepts: the known language named by the fifth decoded
    /// value, or `None` (the task accepts none, or one the client does not know).
    fn from_baca_output(connection_config: &ConnectionConfig, data: &str) -> (r: Self)
        ensures
            r == allowed_language_of(decoded(data@, byte_len(data))[4]),
            all_ascii(without_char(decoded(data@, byte_len(data))[4], '\\')) ==> r
                == ascii_allowed_language_of(decoded(data@, byte_len(data))[4]),
    {
        let data = deserialize(data);
        let name = remove_char(chars_of(data[4].as_str()).as_slice(), '\\');
        let name = string_of(name.as_slice());
        match Language::from_str(name.as_str()) {
            Ok(Language::Unsupported) => None,
            Ok(language) => Some(language),
            Err(_) => None,
        }
    }
}


/// Whether a reply about a task's languages can be read (see
/// `languages_reply_readable`).
pub fn is_languages_reply_readable(data: &str) -> (r: bool)
    ensures
        r == languages_reply_readable(data),
{
    if !crate::parse::is_decodable(data) {
        return false;
    }
    let d = deserialize(data);
    d.len() > 4
}

} // verus!
