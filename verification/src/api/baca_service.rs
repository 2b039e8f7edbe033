//! The client's side of each exchange with the server: what a reply means.
//!
//! Each request is sent by the caller, which hands over the reply's status code, its
//! body and, for a login, the values of the cookies it set.
use vstd::prelude::*;
use crate::api::details::EMPTY_RESPONSE;
use crate::api::{check_for_empty_response, check_response_status, extract_cookie};
use crate::error::{Error, Result};
use crate::model::submit::{submits_view, SubmitView};
use crate::model::results::of_task;
use crate::model::task::index_of_id;
use crate::model::{Language, Results, Submit, Tasks};
use crate::parse::allowed_language::{
    allowed_language_of, ascii_allowed_language_of, languages_reply_readable,
};
use crate::parse::from_baca_output::FromBacaOutput;
use crate::parse::submit::{submit_decoded, submit_of, submit_readable};
use crate::parse::tasks::{lists_tasks, tasks_reply_parsable};
use crate::parse::{byte_len, decoded};
use crate::text::{all_ascii, seq_contains, str_contains, str_eq, without_char};
use crate::workspace::ConnectionConfig;

verus! {

broadcast use vstd::string::group_string_axioms;

/// The reply the server gives to a submit when the session has expired.
pub const LOGGED_OUT_REPLY: &'static str = "Niezalogowany jeste\u{15b}";

/// The reply the server gives to a submit it refuses.
pub const REFUSED_REPLY: &'static str = "B\u{142}\u{105}d";

/// A submit-details reply that gets as far as being read can be read.
pub open spec fn details_reply_readable(status: u16, body: &str) -> bool {
    status != 404 && !seq_contains(body@, "failed"@) && body@ != EMPTY_RESPONSE@
        ==> submit_readable(body)
}

/// A task-list reply that gets as far as being read can be read.
pub open spec fn tasks_reply_readable(status: u16, body: &str) -> bool {
    status != 404 && body@ != EMPTY_RESPONSE@ ==> tasks_reply_parsable(body)
}

/// A languages reply that gets as far as being read can be read.
pub open spec fn allowed_language_reply_readable(status: u16, body: &str) -> bool {
    status != 404 ==> languages_reply_readable(body)
}

/// The client of the course server.
pub struct BacaService {}

impl Default for BacaService {
    fn default() -> (r: Self) {
        BacaService {}
    }
}

impl BacaService {
    /// The session cookie from a login reply: `InvalidHost` for a 404, else the
    /// value of the first cookie set, or `InvalidLoginOrPassword` when none was.
    pub fn get_cookie(&self, status: u16, cookies: &[String]) -> (r: Result<String>)
        ensures
            status == 404 ==> r == Err::<String, Error>(Error::InvalidHost),
            status != 404 && cookies.len() == 0 ==> r == Err::<String, Error>(
                Error::InvalidLoginOrPassword,
            ),
            status != 404 && cookies.len() > 0 ==> (r matches Ok(c) && c@ == cookies[0]@),
    {
        check_response_status(status)?;
        extract_cookie(cookies)
    }

    /// The submit a details reply describes: `InvalidHost` for a 404,
    /// `InvalidSubmitId` when the body mentions "failed", `LoggedOut` for the empty
    /// reply.
    pub fn get_submit_details(
        &self,
        connection_config: &ConnectionConfig,
        status: u16,
        body: &str,
    ) -> (r: Result<Submit>)
        requires
            details_reply_readable(status, body),
        ensures
            status == 404 ==> r == Err::<Submit, Error>(Error::InvalidHost),
            status != 404 && seq_contains(body@, "failed"@) ==> r == Err::<Submit, Error>(
                Error::InvalidSubmitId,
            ),
            status != 404 && !seq_contains(body@, "failed"@) && body@ == EMPTY_RESPONSE@ ==> r
                == Err::<Submit, Error>(Error::LoggedOut),
            status != 404 && !seq_contains(body@, "failed"@) && body@ != EMPTY_RESPONSE@ ==> (r matches Ok(s)
                && s@ == submit_of(connection_config.host@, submit_decoded(body@, byte_len(body)))),
    {
        check_response_status(status)?;
        if str_contains(body, "failed") {
            return Err(Error::InvalidSubmitId);
        }
        let body = check_for_empty_response(body.to_owned())?;
        Ok(Submit::parse(connection_config, body.as_str()))
    }

    /// The text of a results reply, checked: `InvalidHost` for a 404, `LoggedOut`
    /// for the empty reply.
    pub fn get_results(&self, status: u16, body: &str) -> (r: Result<String>)
        ensures
            status == 404 ==> r == Err::<String, Error>(Error::InvalidHost),
            status != 404 && body@ == EMPTY_RESPONSE@ ==> r == Err::<String, Error>(
                Error::LoggedOut,
            ),
            status != 404 && body@ != EMPTY_RESPONSE@ ==> (r matches Ok(t) && t@ == body@),
    {
        check_response_status(status)?;
        check_for_empty_response(body.to_owned())
    }

    /// The tasks a task-list reply lists: `InvalidHost` for a 404, `LoggedOut` for
    /// the empty reply.
    pub fn get_tasks(&self, status: u16, body: &str) -> (r: Result<Tasks>)
        requires
            tasks_reply_readable(status, body),
        ensures
            status == 404 ==> r == Err::<Tasks, Error>(Error::InvalidHost),
            status != 404 && body@ == EMPTY_RESPONSE@ ==> r == Err::<Tasks, Error>(
                Error::LoggedOut,
            ),
            status != 404 && body@ != EMPTY_RESPONSE@ ==> (r matches Ok(t) && lists_tasks(
                body,
                t.tasks@,
            )),
    {
        check_response_status(status)?;
        let body = check_for_empty_response(body.to_owned())?;
        Tasks::from_str(body.as_str())
    }

    /// The submits made to the task `task_id`, given the course's tasks and all of
    /// the user's submits: `InvalidTaskId` when no task has that id.
    pub fn get_results_by_task(&self, tasks: &Tasks, results: &Results, task_id: &str) -> (r:
        Result<Results>)
        ensures
            index_of_id(tasks.tasks@, task_id@) < tasks.tasks@.len() ==> (r matches Ok(x)
                && submits_view(x.submits@) == of_task(
                submits_view(results.submits@),
                tasks.tasks@[index_of_id(tasks.tasks@, task_id@) as int].problem_name@,
            )),
            index_of_id(tasks.tasks@, task_id@) == tasks.tasks@.len() ==> (r matches Err(
                Error::InvalidTaskId(id),
            ) && id@ == task_id@),
    {
        let task = tasks.get_by_id(task_id)?;
        Ok(results.filter_by_task(task.problem_name.as_str()))
    }

    /// What a submit's reply means: `LoggedOut` when the session has expired,
    /// `TaskNotActive` when the server refused the submit, success otherwise.
    pub fn submit(&self, reply: &str) -> (r: Result<()>)
        ensures
            reply@ == LOGGED_OUT_REPLY@ ==> r == Err::<(), Error>(Error::LoggedOut),
            reply@ == REFUSED_REPLY@ ==> r == Err::<(), Error>(Error::TaskNotActive),
            reply@ != LOGGED_OUT_REPLY@ && reply@ != REFUSED_REPLY@ ==> r == Ok::<(), Error>(()),
    {
        proof {
            reveal_strlit("Niezalogowany jeste\u{15b}");
            reveal_strlit("B\u{142}\u{105}d");
            assert(LOGGED_OUT_REPLY@.len() != REFUSED_REPLY@.len());
        }
        if str_eq(reply, LOGGED_OUT_REPLY) {
            Err(Error::LoggedOut)
        } else if str_eq(reply, REFUSED_REPLY) {
            Err(Error::TaskNotActive)
        } else {
            Ok(())
        }
    }

    /// The language a task accepts, from a languages reply: `InvalidHost` for a 404.
    pub fn get_allowed_language(
        &self,
        connection_config: &ConnectionConfig,
        status: u16,
        body: &str,
    ) -> (r: Result<Option<Language>>)
        requires
            allowed_language_reply_readable(status, body),
        ensures
            status == 404 ==> r == Err::<Option<Language>, Error>(Error::InvalidHost),
            status != 404 ==> r == Ok::<Option<Language>, Error>(
                allowed_language_of(decoded(body@, byte_len(body))[4]),
            ),
            status != 404 && all_ascii(without_char(decoded(body@, byte_len(body))[4], '\\'))
                ==> r == Ok::<Option<Language>, Error>(
                ascii_allowed_language_of(decoded(body@, byte_len(body))[4]),
            ),
    {
        check_response_status(status)?;
        Ok(Option::<Language>::from_baca_output(connection_config, body))
    }
}

} // verus!
