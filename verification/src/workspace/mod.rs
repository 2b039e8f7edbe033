//! The connection settings stored in a workspace, and the rewriting of source
//! files before they are submitted.
pub mod config_editor;
pub mod no_main;
pub mod no_polish;

use vstd::prelude::*;
use crate::api::details::SERVER_URL;
use crate::text::concat;

verus! {

/// What the client needs to talk to a course's server: the course (host), the
/// credentials, the GWT permutation and the session cookie.
#[derive(Debug, Clone, PartialEq, Eq)]
pub struct ConnectionConfig {
    pub host: String,
    pub login: String,
    pub password: String,
    pub permutation: String,
    pub cookie: String,
}

/// The older name of the connection settings.
pub type InstanceData = ConnectionConfig;

/// The address of a course's pages.
pub open spec fn course_url(host: Seq<char>) -> Seq<char> {
    "https://"@ + SERVER_URL@ + "/"@ + host
}

impl Default for ConnectionConfig {
    fn default() -> (r: Self)
        ensures
            r.host@.len() == 0,
            r.login@.len() == 0,
            r.password@.len() == 0,
            r.permutation@.len() == 0,
            r.cookie@.len() == 0,
    {
        ConnectionConfig {
            host: String::new(),
            login: String::new(),
            password: String::new(),
            permutation: String::new(),
            cookie: String::new(),
        }
    }
}

/// The base address of the server's RPC module for a course.
pub open spec fn module_base(host: Seq<char>) -> Seq<char> {
    course_url(host) + "/testerka_gwt/"@
}

impl ConnectionConfig {
    /// The base address of the course's RPC module; requests go to it followed by
    /// the service's name.
    pub fn make_module_base(&self) -> (r: String)
        ensures
            r@ == module_base(self.host@),
    {
        let url = self.make_url();
        concat(url.as_str(), "/testerka_gwt/")
    }

    /// The value of the `Cookie` header that carries the session.
    pub fn make_cookie(&self) -> (r: String)
        ensures
            r@ == "JSESSIONID="@ + self.cookie@,
    {
        concat("JSESSIONID=", self.cookie.as_str())
    }

    /// The address of the course's pages.
    pub fn make_url(&self) -> (r: String)
        ensures
            r@ == course_url(self.host@),
    {
        let a = concat("https://", SERVER_URL);
        let b = concat(a.as_str(), "/");
        concat(b.as_str(), self.host.as_str())
    }
}

} // verus!
