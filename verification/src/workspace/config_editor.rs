//! Editing a stored configuration in the user's editor.
use vstd::prelude::*;
use crate::error::{Error, Result};

verus! {

/// Whether the editor changed the configuration.
#[derive(Debug, Clone, Copy, PartialEq, Eq, Structural)]
pub enum EditorStatus {
    Modified,
    NotModified,
}

/// What an editing session amounts to: `EditorFail` with the editor's exit code (-1
/// when it has none) when it failed, else whether the file changed.
pub fn edit_outcome(success: bool, exit_code: Option<i32>, modified: bool) -> (r: Result<
    EditorStatus,
>)
    ensures
        !success && exit_code is Some ==> r == Err::<EditorStatus, Error>(
            Error::EditorFail(exit_code->0),
        ),
        !success && exit_code is None ==> r == Err::<EditorStatus, Error>(Error::EditorFail(-1i32)),
        success && modified ==> r == Ok::<EditorStatus, Error>(EditorStatus::Modified),
        success && !modified ==> r == Ok::<EditorStatus, Error>(EditorStatus::NotModified),
{
    if !success {
        return Err(
            Error::EditorFail(
                match exit_code {
                    Some(c) => c,
                    None => -1,
                },
            ),
        );
    }
    if modified {
        Ok(EditorStatus::Modified)
    } else {
        Ok(EditorStatus::NotModified)
    }
}

} // verus!
