//! The `details` command: the details of one submit.
use vstd::prelude::*;

verus! {

/// Shows the details of the submit `submit_id`.
pub struct Details {
    pub submit_id: String,
}

impl Details {
    /// The command for the submit `submit_id`.
    pub fn new(submit_id: &str) -> (r: Details)
        ensures
            r.submit_id@ == submit_id@,
    {
        Details { submit_id: submit_id.to_owned() }
    }
}

} // verus!
