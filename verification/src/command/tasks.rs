//! The `tasks` command: the tasks of the course.
use vstd::prelude::*;

verus! {

/// Lists the tasks of the course.
pub struct Tasks {}

impl Tasks {
    /// The command.
    pub fn new() -> (r: Tasks) {
        Tasks {}
    }
}

} // verus!
