//! The data the client works with: languages, statuses, tasks and submits.
pub mod language;
pub mod results;
pub mod submit;
pub mod submit_status;
pub mod task;

pub use self::language::Language;
pub use self::results::Results;
pub use self::submit::{Submit, TestResults};


pub use self::submit_status::SubmitStatus;
pub use self::task::{Task, Tasks};
