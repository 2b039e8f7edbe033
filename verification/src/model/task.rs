//! The tasks of a course.
use vstd::prelude::*;
use crate::error::Error;
use crate::model::Language;
use crate::number::{decimal, decimal_chars};
use crate::text::{concat, string_of};

verus! {

/// A task (problem) that can be submitted to.
#[derive(Debug, Clone, PartialEq, Eq)]
pub struct Task {
    pub id: String,
    pub language: Language,
    pub problem_name: String,
    pub overall_oks: i32,
}

impl Task {
    /// A task with the given fields.
    pub fn new(id: &str, language: Language, problem_name: &str, overall_oks: i32) -> (r: Task)
        ensures
            r.id@ == id@,
            r.language == language,
            r.problem_name@ == problem_name@,
            r.overall_oks == overall_oks,
    {
        Task { id: id.to_owned(), language, problem_name: problem_name.to_owned(), overall_oks }
    }

    /// The line that lists the task: `● Id: <id> - <name> - <accepted> OK`.
    pub fn summary(&self) -> (r: String)
        ensures
            r@ == "\u{25cf} Id: "@ + self.id@ + " - "@ + self.problem_name@ + " - "@ + decimal(
                self.overall_oks as int,
            ) + " OK"@,
    {
        let oks = string_of(decimal_chars(self.overall_oks as i64).as_slice());
        let a = concat("\u{25cf} Id: ", self.id.as_str());
        let b = concat(a.as_str(), " - ");
        let c = concat(b.as_str(), self.problem_name.as_str());
        let d = concat(c.as_str(), " - ");
        let e = concat(d.as_str(), oks.as_str());
        concat(e.as_str(), " OK")
    }
}

/// The tasks of a course, in the server's order.
#[derive(Debug, PartialEq, Eq)]
pub struct Tasks {
    pub tasks: Vec<Task>,
}

/// The index of the first task whose id is `id`, or `tasks.len()` when there is none.
pub open spec fn index_of_id(tasks: Seq<Task>, id: Seq<char>) -> nat {
    crate::text::find_first(tasks, id_is(id))
}

/// The test that a task has the id `id`.
pub open spec fn id_is(id: Seq<char>) -> spec_fn(Task) -> bool {
    |t: Task| t.id@ == id
}

impl Tasks {
    /// The given tasks.
    pub fn new(tasks: Vec<Task>) -> (r: Tasks)
        ensures
            r.tasks == tasks,
    {
        Tasks { tasks }
    }

    /// The first task whose id is `task_id`; `InvalidTaskId` when there is none.
    pub fn get_by_id(&self, task_id: &str) -> (r: core::result::Result<&Task, Error>)
        ensures
            index_of_id(self.tasks@, task_id@) < self.tasks@.len() ==> r == Ok::<&Task, Error>(
                &self.tasks@[index_of_id(self.tasks@, task_id@) as int],
            ),
            index_of_id(self.tasks@, task_id@) == self.tasks@.len() ==> (r matches Err(
                Error::InvalidTaskId(id),
            ) && id@ == task_id@),
    {
        let mut i: usize = 0;
        while i < self.tasks.len()
            invariant
                i <= self.tasks.len(),
                forall|j: int| 0 <= j < i ==> (#[trigger] self.tasks@[j]).id@ != task_id@,
            decreases self.tasks.len() - i,
        {
            if crate::text::str_eq(self.tasks[i].id.as_str(), task_id) {
                proof {
                    crate::text::lemma_find_first(self.tasks@, id_is(task_id@), i as int);
                }
                return Ok(&self.tasks[i]);
            }
            i += 1;
        }
        proof {
            crate::text::lemma_find_first(self.tasks@, id_is(task_id@), i as int);
        }
        Err(Error::InvalidTaskId(task_id.to_owned()))
    }
}


/// The task found for an id has that id, and no task before it has: the lookup
/// finds the first match, or reports that none has the id.
pub proof fn law_get_by_id_finds_first(tasks: Seq<Task>, id: Seq<char>)
    ensures
        index_of_id(tasks, id) <= tasks.len(),
        index_of_id(tasks, id) < tasks.len() ==> tasks[index_of_id(tasks, id) as int].id@ == id,
        forall|j: int| 0 <= j < index_of_id(tasks, id) ==> (#[trigger] tasks[j]).id@ != id,
{
    crate::text::lemma_find_first_bounds(tasks, id_is(id));
    assert forall|j: int| 0 <= j < index_of_id(tasks, id) implies (#[trigger] tasks[j]).id@ != id by {
        assert(!id_is(id)(tasks[j]));
    }
}

} // verus!
