//! The list of tasks in a reply.
use vstd::prelude::*;
use crate::error::Error;
use crate::model::{Language, Task, Tasks};
use crate::number::i32_of;
use crate::parse::{byte_len, decodable, decoded, deserialize};
use crate::text::{chars_of, views};

verus! {

/// The decoded values that describe tasks: all but the first three.
pub open spec fn task_fields(d: Seq<Seq<char>>) -> Seq<Seq<char>> {
    if d.len() > 3 {
        d.skip(3)
    } else {
        Seq::<Seq<char>>::empty()
    }
}

/// How many tasks the fields describe: the fields come in groups of five, and the
/// last group (which may be shorter) describes the table's header, not a task.
pub open spec fn task_count(st: Seq<Seq<char>>) -> int {
    let groups = (st.len() + 4) / 5;
    if groups > 0 {
        groups - 1
    } else {
        0
    }
}

/// The group of fields that describes the `j`-th listed task: the groups are listed
/// last first.
pub open spec fn task_group(st: Seq<Seq<char>>, j: int) -> int {
    task_count(st) - 1 - j
}

/// Every listed task's count of accepted submits reads as an `i32`.
pub open spec fn tasks_parsable(st: Seq<Seq<char>>) -> bool {
    forall|c: int| 0 <= c < task_count(st) ==> i32_of(#[trigger] st[5 * c + 2]) is Some
}

/// A reply that lists tasks without failing.
pub open spec fn tasks_reply_parsable(data: &str) -> bool {
    decodable(data@, byte_len(data)) && tasks_parsable(task_fields(decoded(data@, byte_len(data))))
}

/// The `j`-th task of a list of task fields matches `t`.
pub open spec fn task_matches(st: Seq<Seq<char>>, j: int, t: Task) -> bool {
    let c = task_group(st, j);
    &&& t.id@ == st[5 * c + 4]
    &&& t.language == Language::Unsupported
    &&& t.problem_name@ == st[5 * c + 3]
    &&& Some(t.overall_oks) == i32_of(st[5 * c + 2])
}

/// `ts` are the tasks that the reply `data` lists, in its order.
pub open spec fn lists_tasks(data: &str, ts: Seq<Task>) -> bool {
    let st = task_fields(decoded(data@, byte_len(data)));
    &&& ts.len() == task_count(st)
    &&& forall|j: int| 0 <= j < ts.len() ==> task_matches(st, j, #[trigger] ts[j])
}

impl Tasks {
    /// The tasks listed in a reply, in the server's order; their language is unknown
    /// (`Unsupported`) until asked for.
    pub fn from_str(data: &str) -> (r: core::result::Result<Tasks, Error>)
        requires
            tasks_reply_parsable(data),
        ensures
            r matches Ok(t) && lists_tasks(data, t.tasks@),
    {
        let data = deserialize(data);
        let ghost st = task_fields(views(data@));
        let n: usize = if data.len() > 3 { data.len() - 3 } else { 0 };
        assert(st.len() == n);
        let groups = n / 5 + if n % 5 != 0 { 1 } else { 0 };
        assert(groups == (n + 4) / 5) by (nonlinear_arith)
            requires
                groups == n / 5 + if n % 5 != 0 { 1int } else { 0int },
        ;
        let count: usize = if groups > 0 { groups - 1 } else { 0 };
        assert(count == task_count(st));
        let mut tasks: Vec<Task> = Vec::new();
        let mut j: usize = 0;
        while j < count
            invariant
                j <= count,
                count == task_count(st),
                st == task_fields(views(data@)),
                n == st.len(),
                tasks_parsable(st),
                tasks@.len() == j,
                forall|k: int| 0 <= k < j ==> task_matches(st, k, #[trigger] tasks@[k]),
            decreases count - j,
        {
            let c = count - 1 - j;
            assert(5 * c + 4 < n) by (nonlinear_arith)
                requires
                    c < count,
                    count == (n + 4) / 5 - 1,
            ;
            let base = 3 + 5 * c;
            assert(st[5 * c + 2] == data@[base + 2]@);
            assert(st[5 * c + 3] == data@[base + 3]@);
            assert(st[5 * c + 4] == data@[base + 4]@);
            let oks = crate::number::parse_i32(chars_of(data[base + 2].as_str()).as_slice());
            assert(i32_of(st[5 * c + 2]) is Some);
            let task = Task {
                id: data[base + 4].clone(),
                language: Language::Unsupported,
                problem_name: data[base + 3].clone(),
                overall_oks: oks.unwrap(),
            };
            tasks.push(task);
            j += 1;
        }
        Ok(Tasks::new(tasks))
    }

    /// Whether a reply lists tasks that can be read without failing (see
    /// `tasks_reply_parsable`).
    pub fn is_parsable(data: &str) -> (r: bool)
        ensures
            r == tasks_reply_parsable(data),
    {
        if !crate::parse::is_decodable(data) {
            return false;
        }
        let d = deserialize(data);
        assert(views(d@) == decoded(data@, byte_len(data)));
        let ghost st = task_fields(views(d@));
        let n: usize = if d.len() > 3 { d.len() - 3 } else { 0 };
        assert(st.len() == n);
        let groups = n / 5 + if n % 5 != 0 { 1 } else { 0 };
        assert(groups == (n + 4) / 5) by (nonlinear_arith)
            requires
                groups == n / 5 + if n % 5 != 0 { 1int } else { 0int },
        ;
        let count: usize = if groups > 0 { groups - 1 } else { 0 };
        assert(count == task_count(st));
        let mut c: usize = 0;
        while c < count
            invariant
                c <= count,
                count == task_count(st),
                st == task_fields(views(d@)),
                views(d@) == decoded(data@, byte_len(data)),
                n == st.len(),
                forall|k: int| 0 <= k < c ==> i32_of(#[trigger] st[5 * k + 2]) is Some,
            decreases count - c,
        {
            assert(5 * c + 4 < n) by (nonlinear_arith)
                requires
                    c < count,
                    count == (n + 4) / 5 - 1,
            ;
            assert(st[5 * c + 2] == d@[3 + 5 * c + 2]@);
            if crate::number::parse_i32(chars_of(d[3 + 5 * c + 2].as_str()).as_slice()).is_none() {
                assert(!tasks_parsable(st));
                return false;
            }
            c += 1;
        }
        true
    }
}

} // verus!
