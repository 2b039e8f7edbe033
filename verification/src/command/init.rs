//! The `init` command: a new workspace for a course.
use vstd::prelude::*;
use crate::api::details::{permutation, PERMUTATION};
use crate::error::Error;
use crate::workspace::ConnectionConfig;

verus! {

/// A value that `init` needs.
#[derive(Debug, Clone, Copy, PartialEq, Eq, Structural)]
pub enum Field {
    Host,
    Login,
    Password,
}

/// Creates a workspace for the course `host`, logging in as `login` with `password`;
/// the values not given are asked for.
pub struct Init {
    pub host: Option<String>,
    pub login: Option<String>,
    pub password: Option<String>,
}

/// The connection settings for a new workspace: the given values, the client's
/// permutation and no session cookie yet.
pub open spec fn new_connection(
    c: ConnectionConfig,
    host: Seq<char>,
    login: Seq<char>,
    password: Seq<char>,
) -> bool {
    &&& c.host@ == host
    &&& c.login@ == login
    &&& c.password@ == password
    &&& c.permutation@ == PERMUTATION@
    &&& c.cookie@.len() == 0
}

impl Init {
    /// The command with the values given on the command line.
    pub fn new(host: Option<String>, login: Option<String>, password: Option<String>) -> (r: Init)
        ensures
            r.host == host,
            r.login == login,
            r.password == password,
    {
        Init { host, login, password }
    }

    /// The first value still to be asked for, in the order host, login, password;
    /// `None` once all are known.
    pub fn next_prompt(&self) -> (r: Option<Field>)
        ensures
            self.host is None ==> r == Some(Field::Host),
            self.host is Some && self.login is None ==> r == Some(Field::Login),
            self.host is Some && self.login is Some && self.password is None ==> r == Some(
                Field::Password,
            ),
            self.host is Some && self.login is Some && self.password is Some ==> r is None,
    {
        if self.host.is_none() {
            Some(Field::Host)
        } else if self.login.is_none() {
            Some(Field::Login)
        } else if self.password.is_none() {
            Some(Field::Password)
        } else {
            None
        }
    }

    /// Records the value the user gave for `field`.
    pub fn provide(&mut self, field: Field, value: String)
        ensures
            field == Field::Host ==> final(self).host == Some(value) && final(self).login == old(
                self,
            ).login && final(self).password == old(self).password,
            field == Field::Login ==> final(self).login == Some(value) && final(self).host == old(
                self,
            ).host && final(self).password == old(self).password,
            field == Field::Password ==> final(self).password == Some(value) && final(self).host
                == old(self).host && final(self).login == old(self).login,
    {
        match field {
            Field::Host => {
                self.host = Some(value);
            },
            Field::Login => {
                self.login = Some(value);
            },
            Field::Password => {
                self.password = Some(value);
            },
        }
    }

    /// The connection settings for the new workspace.
    pub fn connection_config(&self) -> (r: ConnectionConfig)
        requires
            self.host is Some,
            self.login is Some,
            self.password is Some,
        ensures
            new_connection(r, self.host->0@, self.login->0@, self.password->0@),
    {
        match (&self.host, &self.login, &self.password) {
            (Some(h), Some(l), Some(p)) => init(h.as_str(), l.as_str(), p.as_str()),
            _ => {
                assert(false);
                init("", "", "")
            },
        }
    }
}

/// The connection settings for a new workspace of the course `host`.
pub fn init(host: &str, login: &str, pass: &str) -> (r: ConnectionConfig)
    ensures
        new_connection(r, host@, login@, pass@),
{
    ConnectionConfig {
        host: host.to_owned(),
        login: login.to_owned(),
        password: pass.to_owned(),
        permutation: permutation(),
        cookie: String::new(),
    }
}

/// Whether a failed initialisation removes the workspace it was creating: always,
/// but when the workspace existed before.
pub fn cleans_up_after(e: &Error) -> (r: bool)
    ensures
        r == !(*e is WorkspaceAlreadyInitialized),
{
    match e {
        Error::WorkspaceAlreadyInitialized => false,
        _ => true,
    }
}

} // verus!
