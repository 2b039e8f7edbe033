//! How verbose the client's log is.
use vstd::prelude::*;
use crate::text::str_eq;

verus! {

broadcast use vstd::string::group_string_axioms;

/// A level of the log, from the most to the least detailed.
#[derive(Debug, Clone, Copy, PartialEq, Eq, Structural)]
pub enum LogLevel {
    Trace,
    Debug,
    Info,
    Warn,
    Error,
}

/// The level a setting names: `trace`, `debug`, `warn`, `info` or `error`, and
/// `Error` for anything else.
pub open spec fn level_named(s: Seq<char>) -> LogLevel {
    if s == "trace"@ {
        LogLevel::Trace
    } else if s == "debug"@ {
        LogLevel::Debug
    } else if s == "warn"@ {
        LogLevel::Warn
    } else if s == "info"@ {
        LogLevel::Info
    } else {
        LogLevel::Error
    }
}

/// The level the setting `raw_level` names.
pub fn to_log_level(raw_level: &str) -> (r: LogLevel)
    ensures
        r == level_named(raw_level@),
{
    if str_eq(raw_level, "trace") {
        LogLevel::Trace
    } else if str_eq(raw_level, "debug") {
        LogLevel::Debug
    } else if str_eq(raw_level, "warn") {
        LogLevel::Warn
    } else if str_eq(raw_level, "info") {
        LogLevel::Info
    } else {
        LogLevel::Error
    }
}

/// The level for `-v` given `verbose` times: no log without it, then `Info`,
/// `Debug`, and `Trace` from three on.
pub fn level_for_verbosity(verbose: u8) -> (r: Option<LogLevel>)
    ensures
        verbose == 0 ==> r is None,
        verbose == 1 ==> r == Some(LogLevel::Info),
        verbose == 2 ==> r == Some(LogLevel::Debug),
        verbose >= 3 ==> r == Some(LogLevel::Trace),
{
    match verbose {
        0 => None,
        1 => Some(LogLevel::Info),
        2 => Some(LogLevel::Debug),
        _ => Some(LogLevel::Trace),
    }
}

} // verus!
