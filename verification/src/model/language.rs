//! The programming languages a task can be submitted in.
use vstd::prelude::*;
use crate::text::{all_ascii, ascii_lowercase, str_eq};

verus! {

/// A submission language, as the server knows it.
#[derive(Debug, Clone, Copy, PartialEq, Eq, Structural)]
pub enum Language {
    Unsupported,
    Cpp,
    Java,
    Bash,
    CppWithFileSupport,
}

/// The number the server uses for a language.
pub open spec fn language_code(l: Language) -> Seq<char> {
    match l {
        Language::Unsupported => "0"@,
        Language::Cpp => "1"@,
        Language::Java => "4"@,
        Language::Bash => "10"@,
        Language::CppWithFileSupport => "12"@,
    }
}

/// The name shown to the user for a language.
pub open spec fn language_name(l: Language) -> Seq<char> {
    match l {
        Language::Cpp => "C++"@,
        Language::Java => "Java"@,
        Language::Bash => "Bash"@,
        Language::CppWithFileSupport => "C++ with file support"@,
        Language::Unsupported => "Unsupported language"@,
    }
}

/// The language that a lower-case name stands for; `Unsupported` for unknown names.
pub open spec fn language_of_lowercase(s: Seq<char>) -> Language {
    if s == "c++"@ {
        Language::Cpp
    } else if s == "java"@ {
        Language::Java
    } else if s == "bash"@ {
        Language::Bash
    } else if s == "c++ z obsluga plikow"@ {
        Language::CppWithFileSupport
    } else {
        Language::Unsupported
    }
}

/// What std's `str::to_lowercase` returns for a string: its Unicode lower-case
/// mapping, which takes the Unicode tables to state.
pub uninterp spec fn unicode_lowercase(s: Seq<char>) -> Seq<char>;

/// Calls std's `str::to_lowercase`; its result is named `unicode_lowercase` of the
/// argument. Of the Unicode mapping only its ASCII part is stated: on ASCII text it
/// turns `A`-`Z` into `a`-`z` and keeps every other character.
#[verifier::external_body]
fn lowercase(s: &str) -> (r: String)
    ensures
        r@ == unicode_lowercase(s@),
        all_ascii(s@) ==> r@ == ascii_lowercase(s@),
{
    s.to_lowercase()
}

impl Language {
    /// The number the server uses for this language.
    pub fn code(&self) -> (r: String)
        ensures
            r@ == language_code(*self),
    {
        match self {
            Language::Unsupported => "0".to_owned(),
            Language::Cpp => "1".to_owned(),
            Language::Java => "4".to_owned(),
            Language::Bash => "10".to_owned(),
            Language::CppWithFileSupport => "12".to_owned(),
        }
    }

    /// The name shown to the user for this language.
    pub fn to_string(&self) -> (r: String)
        ensures
            r@ == language_name(*self),
    {
        match self {
            Language::Cpp => "C++".to_owned(),
            Language::Java => "Java".to_owned(),
            Language::Bash => "Bash".to_owned(),
            Language::CppWithFileSupport => "C++ with file support".to_owned(),
            Language::Unsupported => "Unsupported language".to_owned(),
        }
    }

    /// The language that the lower-case name `s` stands for.
    pub fn from_lowercase(s: &str) -> (r: Language)
        ensures
            r == language_of_lowercase(s@),
    {
        if str_eq(s, "c++") {
            Language::Cpp
        } else if str_eq(s, "java") {
            Language::Java
        } else if str_eq(s, "bash") {
            Language::Bash
        } else if str_eq(s, "c++ z obsluga plikow") {
            Language::CppWithFileSupport
        } else {
            Language::Unsupported
        }
    }

    /// The language named by `s`, in any letter case; unknown names give `Unsupported`.
    pub fn from_str(s: &str) -> (r: core::result::Result<Language, ()>)
        ensures
            r == Ok::<Language, ()>(language_of_lowercase(unicode_lowercase(s@))),
            all_ascii(s@) ==> r == Ok::<Language, ()>(language_of_lowercase(ascii_lowercase(s@))),
    {
        let lower = lowercase(s);
        Ok(Language::from_lowercase(lower.as_str()))
    }
}


/// Different languages are sent to the server as different numbers.
pub proof fn law_language_codes_distinct(a: Language, b: Language)
    requires
        a != b,
    ensures
        language_code(a) != language_code(b),
{
    reveal_strlit("0");
    reveal_strlit("1");
    reveal_strlit("4");
    reveal_strlit("10");
    reveal_strlit("12");
    assert(language_code(a).len() != language_code(b).len() || language_code(a)[0] != language_code(b)[0]
        || language_code(a)[1] != language_code(b)[1]);
}


/// The name shown for a language reads back as that language, whatever its letter
/// case, except the name of `CppWithFileSupport`, which is shown in English but read
/// in Polish.
pub proof fn law_name_reads_back(l: Language)
    requires
        l != Language::CppWithFileSupport,
    ensures
        all_ascii(language_name(l)),
        language_of_lowercase(ascii_lowercase(language_name(l))) == l,
{
    reveal_strlit("C++");
    reveal_strlit("c++");
    reveal_strlit("Java");
    reveal_strlit("java");
    reveal_strlit("Bash");
    reveal_strlit("bash");
    reveal_strlit("Unsupported language");
    reveal_strlit("c++ z obsluga plikow");
    let n = language_name(l);
    let low = ascii_lowercase(n);
    match l {
        Language::Cpp => {
            assert(low =~= "c++"@);
        },
        Language::Java => {
            assert(low =~= "java"@);
        },
        Language::Bash => {
            assert(low =~= "bash"@);
            assert(low[0] != "java"@[0]);
        },
        _ => {
            assert(low.len() == 20);
            assert(low[0] == 'u');
            assert(low[0] != "c++ z obsluga plikow"@[0]);
            assert(low != "c++ z obsluga plikow"@);
            assert(low.len() != "c++"@.len() && low.len() != "java"@.len() && low.len() != "bash"@.len());
        },
    }
}

} // verus!
