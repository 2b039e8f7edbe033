//! The `submit` command: sending a source file to a task.
use vstd::prelude::*;
use crate::error::{Error, Result};
use crate::model::task::index_of_id;
use crate::model::{Language, Task, Tasks};
use crate::text::concat;

verus! {

/// What `submit` was asked to do besides submitting.
#[derive(Debug, Clone, Copy, PartialEq, Eq, Structural)]
pub enum SubmitSubcommand {
    Plain,
    Clear,
    Config,
}

/// Whether to store the submit settings: ask, always, or never.
#[derive(Debug, Clone, Copy, PartialEq, Eq, Structural)]
pub enum SaveSwitch {
    Unset,
    Save,
    NoSave,
}

/// What a submit needs next: the user's choice of a task, or nothing more.
#[derive(Debug, Clone, Copy, PartialEq, Eq, Structural)]
pub enum SubmitStep {
    ChooseTask,
    Send,
}

/// What is done with the submit settings before submitting.
#[derive(Debug, Clone, Copy, PartialEq, Eq, Structural)]
pub enum SaveAction {
    Ask,
    Save,
    Skip,
}

impl SaveSwitch {
    /// The switch that `--save` and `--no-save` give; `--save` wins when both are given.
    pub fn new(save: bool, no_save: bool) -> (r: SaveSwitch)
        ensures
            save ==> r == SaveSwitch::Save,
            !save && no_save ==> r == SaveSwitch::NoSave,
            !save && !no_save ==> r == SaveSwitch::Unset,
    {
        if save {
            SaveSwitch::Save
        } else if no_save {
            SaveSwitch::NoSave
        } else {
            SaveSwitch::Unset
        }
    }
}

/// Whether to offer storing the settings: when none were stored yet, or when settings
/// were given on the command line.
pub fn ask_for_save(was_saved: bool, provided_is_default: bool) -> (r: bool)
    ensures
        r == (!was_saved || !provided_is_default),
{
    !was_saved || !provided_is_default
}

/// What to do with the settings: `--save` stores them, `--no-save` leaves them, and
/// otherwise the user is asked when `ask` holds.
pub fn save_action(switch: SaveSwitch, ask: bool) -> (r: SaveAction)
    ensures
        switch == SaveSwitch::Save ==> r == SaveAction::Save,
        switch == SaveSwitch::NoSave ==> r == SaveAction::Skip,
        switch == SaveSwitch::Unset && ask ==> r == SaveAction::Ask,
        switch == SaveSwitch::Unset && !ask ==> r == SaveAction::Skip,
{
    match switch {
        SaveSwitch::Unset => if ask {
            SaveAction::Ask
        } else {
            SaveAction::Skip
        },
        SaveSwitch::Save => SaveAction::Save,
        SaveSwitch::NoSave => SaveAction::Skip,
    }
}

/// The settings of a submit, stored or given on the command line; the file is its path.
#[derive(Debug)]
pub struct SubmitConfig {
    pub file: Option<String>,
    pub language: Option<Language>,
    pub id: Option<String>,
    pub rename_as: Option<String>,
    pub to_zip: bool,
    pub no_main: bool,
    pub no_polish: bool,
    pub skip_header: bool,
}

/// The stored settings `saved` with the settings `provided` on the command line on
/// top: a value given there replaces the stored one, a switch given there is on.
pub open spec fn merged(saved: SubmitConfig, provided: SubmitConfig) -> SubmitConfig {
    SubmitConfig {
        file: if provided.file is Some { provided.file } else { saved.file },
        language: if provided.language is Some { provided.language } else { saved.language },
        id: if provided.id is Some { provided.id } else { saved.id },
        rename_as: if provided.rename_as is Some { provided.rename_as } else { saved.rename_as },
        to_zip: saved.to_zip || provided.to_zip,
        no_main: saved.no_main || provided.no_main,
        no_polish: saved.no_polish || provided.no_polish,
        skip_header: saved.skip_header || provided.skip_header,
    }
}

/// Nothing is set.
pub open spec fn unset(c: SubmitConfig) -> bool {
    &&& c.file is None
    &&& c.language is None
    &&& c.id is None
    &&& c.rename_as is None
    &&& !c.to_zip && !c.no_main && !c.no_polish && !c.skip_header
}

/// Settings given on the command line that set nothing leave the stored ones as they
/// are; stored settings that set nothing give way to the given ones.
pub proof fn law_merge_unset(saved: SubmitConfig, provided: SubmitConfig)
    ensures
        unset(provided) ==> merged(saved, provided) == saved,
        unset(saved) ==> merged(saved, provided) == provided,
{
}

/// Giving the same settings again changes nothing.
pub proof fn law_merge_idempotent(saved: SubmitConfig, provided: SubmitConfig)
    ensures
        merged(merged(saved, provided), provided) == merged(saved, provided),
{
}

/// What is given on the command line wins: a value given there is the merged value,
/// a value not given there is the stored one, and a switch is on when it is on in
/// either.
pub proof fn law_merge_given_values_win(saved: SubmitConfig, provided: SubmitConfig)
    ensures
        provided.file is Some ==> merged(saved, provided).file == provided.file,
        provided.file is None ==> merged(saved, provided).file == saved.file,
        provided.language is Some ==> merged(saved, provided).language == provided.language,
        provided.language is None ==> merged(saved, provided).language == saved.language,
        provided.id is Some ==> merged(saved, provided).id == provided.id,
        provided.id is None ==> merged(saved, provided).id == saved.id,
        provided.rename_as is Some ==> merged(saved, provided).rename_as == provided.rename_as,
        provided.rename_as is None ==> merged(saved, provided).rename_as == saved.rename_as,
        merged(saved, provided).to_zip <==> (saved.to_zip || provided.to_zip),
        merged(saved, provided).no_main <==> (saved.no_main || provided.no_main),
        merged(saved, provided).no_polish <==> (saved.no_polish || provided.no_polish),
        merged(saved, provided).skip_header <==> (saved.skip_header || provided.skip_header),
{
}

/// Merging in given settings and then merging them in again on top of other stored
/// settings gives the same given values: the last settings given win.
pub proof fn law_merge_last_given_wins(a: SubmitConfig, b: SubmitConfig, provided: SubmitConfig)
    requires
        provided.language is Some,
        provided.id is Some,
        provided.file is Some,
    ensures
        merged(a, provided).language == merged(b, provided).language,
        merged(a, provided).id == merged(b, provided).id,
        merged(a, provided).file == merged(b, provided).file,
{
}

impl Default for SubmitConfig {
    fn default() -> (r: Self)
        ensures
            unset(r),
    {
        SubmitConfig {
            file: None,
            language: None,
            id: None,
            rename_as: None,
            to_zip: false,
            no_main: false,
            no_polish: false,
            skip_header: false,
        }
    }
}

impl SubmitConfig {
    /// Whether nothing is set.
    pub fn is_default(&self) -> (r: bool)
        ensures
            r == unset(*self),
    {
        self.file.is_none() && self.language.is_none() && self.id.is_none()
            && self.rename_as.is_none() && !self.to_zip && !self.no_main && !self.no_polish
            && !self.skip_header
    }

    /// These settings with the ones given on the command line on top: a value given
    /// there replaces the stored one, and a switch given there is on.
    pub fn merge(&mut self, provided: SubmitConfig)
        ensures
            *final(self) == merged(*old(self), provided),
            provided.file is Some ==> final(self).file == provided.file,
            provided.file is None ==> final(self).file == old(self).file,
            provided.language is Some ==> final(self).language == provided.language,
            provided.language is None ==> final(self).language == old(self).language,
            provided.id is Some ==> final(self).id == provided.id,
            provided.id is None ==> final(self).id == old(self).id,
            provided.rename_as is Some ==> final(self).rename_as == provided.rename_as,
            provided.rename_as is None ==> final(self).rename_as == old(self).rename_as,
            final(self).to_zip == (old(self).to_zip || provided.to_zip),
            final(self).no_main == (old(self).no_main || provided.no_main),
            final(self).no_polish == (old(self).no_polish || provided.no_polish),
            final(self).skip_header == (old(self).skip_header || provided.skip_header),
    {
        if provided.file.is_some() {
            self.file = provided.file;
        }
        if provided.language.is_some() {
            self.language = provided.language;
        }
        if provided.id.is_some() {
            self.id = provided.id;
        }
        if provided.rename_as.is_some() {
            self.rename_as = provided.rename_as;
        }
        self.to_zip = self.to_zip || provided.to_zip;
        self.no_main = self.no_main || provided.no_main;
        self.no_polish = self.no_polish || provided.no_polish;
        self.skip_header = self.skip_header || provided.skip_header;
    }

    /// What the settings still lack: a task, which the user is asked to choose
    /// (`ChooseTask`), or a file, which is an error naming it; `Send` when they name
    /// both.
    pub fn check(&self) -> (r: Result<SubmitStep>)
        ensures
            self.id is None ==> r == Ok::<SubmitStep, Error>(SubmitStep::ChooseTask),
            self.id is Some && self.file is None ==> (r matches Err(
                Error::SubmitArgumentNotProvided(a),
            ) && a@ == "file"@),
            self.id is Some && self.file is Some ==> r == Ok::<SubmitStep, Error>(SubmitStep::Send),
    {
        if self.id.is_none() {
            return Ok(SubmitStep::ChooseTask);
        }
        if self.file.is_none() {
            return Err(Error::SubmitArgumentNotProvided("file".to_owned()));
        }
        Ok(SubmitStep::Send)
    }

    /// Sets the task to the one the user chose from the course's tasks: the id of the
    /// task at `choice`; the other settings stay.
    pub fn choose_task(&mut self, tasks: &Tasks, choice: usize)
        requires
            choice < tasks.tasks@.len(),
        ensures
            final(self).id matches Some(i) && i@ == tasks.tasks@[choice as int].id@,
            final(self).file == old(self).file,
            final(self).language == old(self).language,
            final(self).rename_as == old(self).rename_as,
            final(self).to_zip == old(self).to_zip,
            final(self).no_main == old(self).no_main,
            final(self).no_polish == old(self).no_polish,
            final(self).skip_header == old(self).skip_header,
    {
        self.id = Some(tasks.tasks[choice].id.clone());
    }
}

/// The language to submit in: the one set, else the one the task accepts;
/// `TaskNotActive` when it accepts none.
pub fn choose_language(configured: Option<Language>, allowed: Option<Language>) -> (r: Result<
    Language,
>)
    ensures
        configured matches Some(l) ==> r == Ok::<Language, Error>(l),
        configured is None && allowed is Some ==> r == Ok::<Language, Error>(allowed->0),
        configured is None && allowed is None ==> r == Err::<Language, Error>(Error::TaskNotActive),
{
    match configured {
        Some(l) => Ok(l),
        None => match allowed {
            Some(l) => Ok(l),
            None => Err(Error::TaskNotActive),
        },
    }
}

/// The task to submit to: the first task whose id is `task_id`, in `language`;
/// `InvalidTaskId` when there is none.
pub fn submit_target(tasks: &Tasks, task_id: &str, language: Language) -> (r: Result<Task>)
    ensures
        index_of_id(tasks.tasks@, task_id@) < tasks.tasks@.len() ==> (r matches Ok(t) && {
            let found = tasks.tasks@[index_of_id(tasks.tasks@, task_id@) as int];
            &&& t.id@ == found.id@
            &&& t.problem_name@ == found.problem_name@
            &&& t.overall_oks == found.overall_oks
            &&& t.language == language
        }),
        index_of_id(tasks.tasks@, task_id@) == tasks.tasks@.len() ==> (r matches Err(
            Error::InvalidTaskId(id),
        ) && id@ == task_id@),
{
    let found = tasks.get_by_id(task_id)?;
    Ok(
        Task {
            id: found.id.clone(),
            language,
            problem_name: found.problem_name.clone(),
            overall_oks: found.overall_oks,
        },
    )
}

/// The name to copy the file to before submitting: the new name, when one is set and
/// differs from the file's own name.
pub fn copy_name(own_name: &str, rename_as: &Option<String>) -> (r: Option<String>)
    ensures
        rename_as is None ==> r is None,
        rename_as matches Some(n) ==> if n@ == own_name@ {
            r is None
        } else {
            r matches Some(x) && x@ == n@
        },
{
    match rename_as {
        None => None,
        Some(n) => if crate::text::str_eq(n.as_str(), own_name) {
            None
        } else {
            Some(n.clone())
        },
    }
}

/// How the submitted file is named to the user: its name, followed by `as` and the
/// name it was copied to, if it was.
pub fn submitted_label(own_name: &str, copied_as: &Option<String>) -> (r: String)
    ensures
        copied_as is None ==> r@ == own_name@,
        copied_as matches Some(n) ==> r@ == own_name@ + " as "@ + n@,
{
    match copied_as {
        None => own_name.to_owned(),
        Some(n) => {
            let a = concat(own_name, " as ");
            concat(a.as_str(), n.as_str())
        },
    }
}

} // verus!
