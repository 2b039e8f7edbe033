//! The `log` command: the most recent submits.
use vstd::prelude::*;
use crate::error::{Error, Result};
use crate::number::{decimal, decimal_chars, usize_of};
use crate::text::{chars_of, string_of};

verus! {

/// Shows the `last_n` most recent submits, of all tasks or of the task `task_id`.
pub struct Log {
    pub last_n: String,
    pub task_id: Option<String>,
}

impl Log {
    /// The command for `last_n` submits, of the task `task_id` when one is given.
    pub fn new(last_n: &str, task_id: &Option<u32>) -> (r: Log)
        ensures
            r.last_n@ == last_n@,
            task_id is None ==> r.task_id is None,
            task_id matches Some(t) ==> (r.task_id matches Some(s) && s@ == decimal(t as int)),
    {
        let task = match task_id {
            None => None,
            Some(t) => Some(string_of(decimal_chars(*t as i64).as_slice())),
        };
        Log { last_n: last_n.to_owned(), task_id: task }
    }

    /// How many submits to show: `last_n` read as a number.
    pub fn amount(&self) -> (r: Result<usize>)
        ensures
            usize_of(self.last_n@) matches Some(n) ==> r == Ok::<usize, Error>(n),
            usize_of(self.last_n@) is None ==> r == Err::<usize, Error>(Error::InvalidArgument),
    {
        to_int(self.last_n.as_str())
    }
}

/// `n` read as a `usize` (an optional `+` and decimal digits); `InvalidArgument`
/// when it is not one.
pub fn to_int(n: &str) -> (r: Result<usize>)
    ensures
        usize_of(n@) matches Some(v) ==> r == Ok::<usize, Error>(v),
        usize_of(n@) is None ==> r == Err::<usize, Error>(Error::InvalidArgument),
{
    match crate::number::parse_usize(chars_of(n).as_slice()) {
        Some(v) => Ok(v),
        None => Err(Error::InvalidArgument),
    }
}

} // verus!
