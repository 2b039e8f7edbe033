//! The errors of the client, and the message shown for each.
use vstd::prelude::*;
use crate::number::decimal;
use crate::text::concat;

verus! {

/// Everything that can go wrong. Causes that come from outside (I/O, the network,
/// a config format) are carried as the text of their message.
#[derive(Debug, Clone, PartialEq, Eq)]
pub enum Error {
    Other(String),
    Network(String),
    CreatingWorkspace(String),
    RemovingWorkspace(String),
    RemovingConfig(String),
    ReadingConfig(String),
    SavingConfig(String),
    ReadingSource(String),
    Zipping(String),
    WorkspaceNotInitialized,
    WorkspaceCorrupted,
    WorkspaceAlreadyInitialized,
    InvalidSubmitId,
    Protocol,
    LoggedOut,
    TaskNotActive,
    InvalidTaskId(String),
    InvalidHost,
    InvalidLoginOrPassword,
    FetchingRelease,
    NoRelease,
    ApiRateLimitExceeded,
    InvalidArgument,
    UnsupportedLanguage(String),
    NoSubmitsYet,
    EditorFail(i32),
    SubmitArgumentNotProvided(String),
    InputFileDoesNotExist,
    NoHeader,
}

/// The result type of the client.
pub type Result<T> = core::result::Result<T, Error>;

/// The message shown to the user for `e`.
pub open spec fn message_of(e: Error) -> Seq<char> {
    match e {
        Error::Other(m) => "Error: "@ + m@,
        Error::Network(m) => "Network error: "@ + m@,
        Error::CreatingWorkspace(m) => "Error creating workspace directory: "@ + m@,
        Error::RemovingWorkspace(m) => "Error removing workspace directory: "@ + m@,
        Error::RemovingConfig(m) => "Error removing config: "@ + m@,
        Error::ReadingConfig(m) => "Error reading config: "@ + m@,
        Error::SavingConfig(m) => "Error saving config: "@ + m@,
        Error::ReadingSource(m) => "Error reading source file: "@ + m@,
        Error::Zipping(m) => "Error zipping! Error: "@ + m@,
        Error::WorkspaceNotInitialized => "Baca is not initialized! Type 'baca init --help' for more information."@,
        Error::WorkspaceCorrupted => "Workspace corrupted, please delete .baca directory and initialize again."@,
        Error::WorkspaceAlreadyInitialized => "Baca already initialized. Remove '.baca' directory if you want to change config or edit it manually."@,
        Error::InvalidSubmitId => "Invalid submit id."@,
        Error::Protocol => "Unfortunately, Baca still uses deprecated TLSv1 protocol which is not supported on your system. Sorry!"@,
        Error::LoggedOut => "The session cookie has expired, type 'baca refresh' to re-log and try again."@,
        Error::TaskNotActive => "Error sending submit. Is the task still active?"@,
        Error::InvalidTaskId(id) => "Task no. "@ + id@ + " does not exist."@,
        Error::InvalidHost => "Invalid host provided. Example: for baca url 'https://baca.ii.uj.edu.pl/mn2021/', the host is 'mn2021'."@,
        Error::InvalidLoginOrPassword => "Invalid login or password!"@,
        Error::FetchingRelease => "Error fetching releases."@,
        Error::NoRelease => "No releases available."@,
        Error::ApiRateLimitExceeded => "GitHub API rate limit exceeded. Try again later."@,
        Error::InvalidArgument => "Invalid argument."@,
        Error::UnsupportedLanguage(lang) => lang@ + " is not yet supported!! Please create an issue at https://github.com/hjaremko/baca-cli/issues"@,
        Error::NoSubmitsYet => "No submits yet!"@,
        Error::EditorFail(code) => "Config editor failed with exit code: "@ + decimal(code as int),
        Error::SubmitArgumentNotProvided(arg) => "Please provide "@ + arg@ + ". Type 'baca submit -h' for more info."@,
        Error::InputFileDoesNotExist => "Provided input file does not exist!"@,
        Error::NoHeader => "No header!"@,
    }
}

impl Error {
    /// The message shown to the user for this error.
    pub fn message(&self) -> (r: String)
        ensures
            r@ == message_of(*self),
    {
        match self {
            Error::Other(m) => concat("Error: ", m.as_str()),
            Error::Network(m) => concat("Network error: ", m.as_str()),
            Error::CreatingWorkspace(m) => concat("Error creating workspace directory: ", m.as_str()),
            Error::RemovingWorkspace(m) => concat("Error removing workspace directory: ", m.as_str()),
            Error::RemovingConfig(m) => concat("Error removing config: ", m.as_str()),
            Error::ReadingConfig(m) => concat("Error reading config: ", m.as_str()),
            Error::SavingConfig(m) => concat("Error saving config: ", m.as_str()),
            Error::ReadingSource(m) => concat("Error reading source file: ", m.as_str()),
            Error::Zipping(m) => concat("Error zipping! Error: ", m.as_str()),
            Error::WorkspaceNotInitialized => "Baca is not initialized! Type 'baca init --help' for more information.".to_owned(),
            Error::WorkspaceCorrupted => "Workspace corrupted, please delete .baca directory and initialize again.".to_owned(),
            Error::WorkspaceAlreadyInitialized => "Baca already initialized. Remove '.baca' directory if you want to change config or edit it manually.".to_owned(),
            Error::InvalidSubmitId => "Invalid submit id.".to_owned(),
            Error::Protocol => "Unfortunately, Baca still uses deprecated TLSv1 protocol which is not supported on your system. Sorry!".to_owned(),
            Error::LoggedOut => "The session cookie has expired, type 'baca refresh' to re-log and try again.".to_owned(),
            Error::TaskNotActive => "Error sending submit. Is the task still active?".to_owned(),
            Error::InvalidTaskId(id) => {
                let a = concat("Task no. ", id.as_str());
                concat(a.as_str(), " does not exist.")
            },
            Error::InvalidHost => "Invalid host provided. Example: for baca url 'https://baca.ii.uj.edu.pl/mn2021/', the host is 'mn2021'.".to_owned(),
            Error::InvalidLoginOrPassword => "Invalid login or password!".to_owned(),
            Error::FetchingRelease => "Error fetching releases.".to_owned(),
            Error::NoRelease => "No releases available.".to_owned(),
            Error::ApiRateLimitExceeded => "GitHub API rate limit exceeded. Try again later.".to_owned(),
            Error::InvalidArgument => "Invalid argument.".to_owned(),
            Error::UnsupportedLanguage(lang) => concat(lang.as_str(), " is not yet supported!! Please create an issue at https://github.com/hjaremko/baca-cli/issues"),
            Error::NoSubmitsYet => "No submits yet!".to_owned(),
            Error::EditorFail(code) => {
                let digits = crate::text::string_of(crate::number::decimal_chars(*code as i64).as_slice());
                concat("Config editor failed with exit code: ", digits.as_str())
            },
            Error::SubmitArgumentNotProvided(arg) => {
                let a = concat("Please provide ", arg.as_str());
                concat(a.as_str(), ". Type 'baca submit -h' for more info.")
            },
            Error::InputFileDoesNotExist => "Provided input file does not exist!".to_owned(),
            Error::NoHeader => "No header!".to_owned(),
        }
    }
}

} // verus!
