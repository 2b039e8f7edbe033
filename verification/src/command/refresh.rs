//! The `refresh` command: a new session for the stored connection.
use vstd::prelude::*;
use crate::workspace::ConnectionConfig;

verus! {

/// Logs in again and stores the new session cookie.
pub struct Refresh {}

impl Refresh {
    /// The command.
    pub fn new() -> (r: Refresh) {
        Refresh {}
    }

    /// The stored connection with the session cookie `cookie` in place of the old one.
    pub fn refreshed(connection_config: &ConnectionConfig, cookie: String) -> (r: ConnectionConfig)
        ensures
            r.host@ == connection_config.host@,
            r.login@ == connection_config.login@,
            r.password@ == connection_config.password@,
            r.permutation@ == connection_config.permutation@,
            r.cookie@ == cookie@,
    {
        ConnectionConfig {
            host: connection_config.host.clone(),
            login: connection_config.login.clone(),
            password: connection_config.password.clone(),
            permutation: connection_config.permutation.clone(),
            cookie,
        }
    }
}

} // verus!
