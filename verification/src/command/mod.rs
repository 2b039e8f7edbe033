//! The commands of the client: what each decides, given what was read or fetched.
//!
//! The commands' reading, fetching and printing happen around these decisions.
pub mod details;
pub mod init;
pub mod last;
pub mod log;
pub mod refresh;
pub mod submit;
pub mod tasks;
