//! The `last` command: the details of the most recent submit.
use vstd::prelude::*;
use crate::error::{Error, Result};
use crate::model::submit::submits_view;
use crate::model::{Results, Submit};

verus! {

/// Shows the most recent submit, of all tasks or of the task `task_id`.
pub struct Last {
    pub task_id: Option<String>,
}

impl Last {
    /// The command for all tasks.
    pub fn new() -> (r: Last)
        ensures
            r.task_id is None,
    {
        Last { task_id: None }
    }

    /// The command for the task `task_id`.
    pub fn with_filter(task_id: &str) -> (r: Last)
        ensures
            r.task_id matches Some(id) && id@ == task_id@,
    {
        Last { task_id: Some(task_id.to_owned()) }
    }

    /// The most recent of the submits (they come most recent first): the first one,
    /// or `NoSubmitsYet` when there is none.
    pub fn get_last_submit(&self, results: &Results) -> (r: Result<Submit>)
        ensures
            results.submits@.len() == 0 ==> r == Err::<Submit, Error>(Error::NoSubmitsYet),
            results.submits@.len() > 0 ==> (r matches Ok(s) && s@ == submits_view(
                results.submits@,
            )[0]),
    {
        if results.submits.len() == 0 {
            return Err(Error::NoSubmitsYet);
        }
        Ok(results.submits[0].clone())
    }
}

} // verus!
