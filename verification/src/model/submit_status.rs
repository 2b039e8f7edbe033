//! The verdicts the server gives a submit or a single test.
use vstd::prelude::*;
use crate::text::{seq_contains, str_contains, str_eq};

verus! {

/// The state or verdict of a submit, or of one of its tests.
#[derive(Debug, Clone, Copy, PartialEq, Eq, Structural)]
pub enum SubmitStatus {
    Accepted,
    InQueue,
    Processing,
    WrongAnswer,
    TimeExceeded,
    CompileError,
    NoHeader,
    RealTimeExceeded,
    ManuallyRejected,
    RuntimeError,
    InternalError,
    OutputSizeExceeded,
}

/// The status a text stands for when it is none of the exact texts: the first of a
/// list of key words that it contains decides, and `WrongAnswer` when none does.
pub open spec fn status_from_partial(s: Seq<char>) -> SubmitStatus {
    if seq_contains(s, "zaakceptowany"@) {
        SubmitStatus::Accepted
    } else if seq_contains(s, "przetworzenie"@) {
        SubmitStatus::Processing
    } else if seq_contains(s, "odpowiedz"@) {
        SubmitStatus::WrongAnswer
    } else if seq_contains(s, "czas"@) {
        SubmitStatus::TimeExceeded
    } else if seq_contains(s, "real time"@) {
        SubmitStatus::RealTimeExceeded
    } else if seq_contains(s, "brak"@) {
        SubmitStatus::NoHeader
    } else if seq_contains(s, "kompilacji"@) {
        SubmitStatus::CompileError
    } else if seq_contains(s, "wykonania"@) {
        SubmitStatus::RuntimeError
    } else if seq_contains(s, "odrzucone"@) {
        SubmitStatus::ManuallyRejected
    } else if seq_contains(s, "testerki"@) {
        SubmitStatus::InternalError
    } else if seq_contains(s, "wyjscia"@) {
        SubmitStatus::OutputSizeExceeded
    } else {
        SubmitStatus::WrongAnswer
    }
}

/// The status the server's text `s` stands for: the texts the server sends (some of
/// them as mis-decoded UTF-8) exactly, and any other text by its key words.
pub open spec fn status_of(s: Seq<char>) -> SubmitStatus {
    if s == "program zaakceptowany"@ {
        SubmitStatus::Accepted
    } else if s == "czekanie na przetworzenie"@ {
        SubmitStatus::Processing
    } else if s == "w kolejce"@ {
        SubmitStatus::InQueue
    } else if s == "z\u{139}\\x82a odpowiedz"@ {
        SubmitStatus::WrongAnswer
    } else if s == "przekroczony czas"@ {
        SubmitStatus::TimeExceeded
    } else if s == "brak nag\u{139}\\x82\u{102}\u{142}wka"@ {
        SubmitStatus::NoHeader
    } else if s == "b\u{139}\\x82\u{c4}\\x85d kompilacji"@ {
        SubmitStatus::CompileError
    } else if s == "b\u{139}\\x82\u{c4}\\x85d wykonania: przekroczony real time"@ {
        SubmitStatus::RealTimeExceeded
    } else {
        status_from_partial(s)
    }
}

/// The name of a status as `{:?}` prints it.
pub open spec fn status_name(s: SubmitStatus) -> Seq<char> {
    match s {
        SubmitStatus::Accepted => "Ok"@,
        SubmitStatus::InQueue => "InQueue"@,
        SubmitStatus::Processing => "Processing"@,
        SubmitStatus::WrongAnswer => "WrongAnswer"@,
        SubmitStatus::TimeExceeded => "TimeExceeded"@,
        SubmitStatus::CompileError => "CompileError"@,
        SubmitStatus::NoHeader => "NoHeader"@,
        SubmitStatus::RealTimeExceeded => "RealTimeExceeded"@,
        SubmitStatus::ManuallyRejected => "ManuallyRejected"@,
        SubmitStatus::RuntimeError => "RuntimeError"@,
        SubmitStatus::InternalError => "InternalError"@,
        SubmitStatus::OutputSizeExceeded => "OutputSizeExceeded"@,
    }
}

/// The status that a text without an exact meaning stands for, by its key words.
pub fn from_partial_str(input: &str) -> (r: SubmitStatus)
    ensures
        r == status_from_partial(input@),
{
    if str_contains(input, "zaakceptowany") {
        SubmitStatus::Accepted
    } else if str_contains(input, "przetworzenie") {
        SubmitStatus::Processing
    } else if str_contains(input, "odpowiedz") {
        SubmitStatus::WrongAnswer
    } else if str_contains(input, "czas") {
        SubmitStatus::TimeExceeded
    } else if str_contains(input, "real time") {
        SubmitStatus::RealTimeExceeded
    } else if str_contains(input, "brak") {
        SubmitStatus::NoHeader
    } else if str_contains(input, "kompilacji") {
        SubmitStatus::CompileError
    } else if str_contains(input, "wykonania") {
        SubmitStatus::RuntimeError
    } else if str_contains(input, "odrzucone") {
        SubmitStatus::ManuallyRejected
    } else if str_contains(input, "testerki") {
        SubmitStatus::InternalError
    } else if str_contains(input, "wyjscia") {
        SubmitStatus::OutputSizeExceeded
    } else {
        SubmitStatus::WrongAnswer
    }
}

impl SubmitStatus {
    /// The status the server's text stands for; every text stands for one.
    pub fn from_str(input: &str) -> (r: core::result::Result<SubmitStatus, ()>)
        ensures
            r == Ok::<SubmitStatus, ()>(status_of(input@)),
    {
        let s = if str_eq(input, "program zaakceptowany") {
            SubmitStatus::Accepted
        } else if str_eq(input, "czekanie na przetworzenie") {
            SubmitStatus::Processing
        } else if str_eq(input, "w kolejce") {
            SubmitStatus::InQueue
        } else if str_eq(input, "z\u{139}\\x82a odpowiedz") {
            SubmitStatus::WrongAnswer
        } else if str_eq(input, "przekroczony czas") {
            SubmitStatus::TimeExceeded
        } else if str_eq(input, "brak nag\u{139}\\x82\u{102}\u{142}wka") {
            SubmitStatus::NoHeader
        } else if str_eq(input, "b\u{139}\\x82\u{c4}\\x85d kompilacji") {
            SubmitStatus::CompileError
        } else if str_eq(input, "b\u{139}\\x82\u{c4}\\x85d wykonania: przekroczony real time") {
            SubmitStatus::RealTimeExceeded
        } else {
            from_partial_str(input)
        };
        Ok(s)
    }

    /// The name of this status as `{:?}` prints it.
    pub fn name(&self) -> (r: String)
        ensures
            r@ == status_name(*self),
    {
        match self {
            SubmitStatus::Accepted => "Ok".to_owned(),
            SubmitStatus::InQueue => "InQueue".to_owned(),
            SubmitStatus::Processing => "Processing".to_owned(),
            SubmitStatus::WrongAnswer => "WrongAnswer".to_owned(),
            SubmitStatus::TimeExceeded => "TimeExceeded".to_owned(),
            SubmitStatus::CompileError => "CompileError".to_owned(),
            SubmitStatus::NoHeader => "NoHeader".to_owned(),
            SubmitStatus::RealTimeExceeded => "RealTimeExceeded".to_owned(),
            SubmitStatus::ManuallyRejected => "ManuallyRejected".to_owned(),
            SubmitStatus::RuntimeError => "RuntimeError".to_owned(),
            SubmitStatus::InternalError => "InternalError".to_owned(),
            SubmitStatus::OutputSizeExceeded => "OutputSizeExceeded".to_owned(),
        }
    }
}

} // verus!
