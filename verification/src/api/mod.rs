//! The server's protocol: its constants, its requests, and the handling of its replies.
pub mod baca_service;
pub mod details;
pub mod request_type;

use vstd::prelude::*;
use crate::api::details::EMPTY_RESPONSE;
use crate::error::{Error, Result};
use crate::text::{seq_contains, str_contains, str_eq};

verus! {

broadcast use vstd::string::group_string_axioms;

/// `InvalidHost` for a reply with status 404 (the course does not exist).
pub fn check_response_status(status: u16) -> (r: Result<()>)
    ensures
        status == 404 ==> r == Err::<(), Error>(Error::InvalidHost),
        status != 404 ==> r == Ok::<(), Error>(()),
{
    if status == 404 {
        return Err(Error::InvalidHost);
    }
    Ok(())
}

/// `LoggedOut` for the reply the server gives once the session has expired; any
/// other reply is handed back.
pub fn check_for_empty_response(resp: String) -> (r: Result<String>)
    ensures
        resp@ == EMPTY_RESPONSE@ ==> r == Err::<String, Error>(Error::LoggedOut),
        resp@ != EMPTY_RESPONSE@ ==> r == Ok::<String, Error>(resp),
{
    if str_eq(resp.as_str(), EMPTY_RESPONSE) {
        Err(Error::LoggedOut)
    } else {
        Ok(resp)
    }
}

/// The value of the first cookie a login reply set; `InvalidLoginOrPassword` when it
/// set none.
pub fn extract_cookie(cookies: &[String]) -> (r: Result<String>)
    ensures
        cookies.len() == 0 ==> r == Err::<String, Error>(Error::InvalidLoginOrPassword),
        cookies.len() > 0 ==> (r matches Ok(c) && c@ == cookies[0]@),
{
    if cookies.len() == 0 {
        return Err(Error::InvalidLoginOrPassword);
    }
    Ok(cookies[0].clone())
}

/// The session cookie from a login reply (see `BacaService::get_cookie`).
pub fn get_cookie(status: u16, cookies: &[String]) -> (r: Result<String>)
    ensures
        status == 404 ==> r == Err::<String, Error>(Error::InvalidHost),
        status != 404 && cookies.len() == 0 ==> r == Err::<String, Error>(
            Error::InvalidLoginOrPassword,
        ),
        status != 404 && cookies.len() > 0 ==> (r matches Ok(c) && c@ == cookies[0]@),
{
    check_response_status(status)?;
    extract_cookie(cookies)
}

/// The raw text of a submit-details reply: `InvalidSubmitId` for the empty reply or
/// one that mentions "failed".
pub fn get_submit_details(resp: String) -> (r: Result<String>)
    ensures
        resp@ == EMPTY_RESPONSE@ || seq_contains(resp@, "failed"@) ==> r == Err::<String, Error>(
            Error::InvalidSubmitId,
        ),
        !(resp@ == EMPTY_RESPONSE@ || seq_contains(resp@, "failed"@)) ==> r == Ok::<String, Error>(
            resp,
        ),
{
    if str_eq(resp.as_str(), EMPTY_RESPONSE) || str_contains(resp.as_str(), "failed") {
        return Err(Error::InvalidSubmitId);
    }
    check_for_empty_response(resp)
}

/// The raw text of a results reply: `LoggedOut` for the empty reply.
pub fn get_results(resp: String) -> (r: Result<String>)
    ensures
        resp@ == EMPTY_RESPONSE@ ==> r == Err::<String, Error>(Error::LoggedOut),
        resp@ != EMPTY_RESPONSE@ ==> r == Ok::<String, Error>(resp),
{
    check_for_empty_response(resp)
}

/// The raw text of a task-list reply: `InvalidHost` for a 404, `LoggedOut` for the
/// empty reply.
pub fn get_tasks(status: u16, resp: String) -> (r: Result<String>)
    ensures
        status == 404 ==> r == Err::<String, Error>(Error::InvalidHost),
        status != 404 && resp@ == EMPTY_RESPONSE@ ==> r == Err::<String, Error>(Error::LoggedOut),
        status != 404 && resp@ != EMPTY_RESPONSE@ ==> r == Ok::<String, Error>(resp),
{
    check_response_status(status)?;
    check_for_empty_response(resp)
}

} // verus!
