//! The list of a user's submits.
use vstd::prelude::*;
use crate::model::submit::{submits_view, Submit, SubmitView};

verus! {

/// The submits of a user, most recent first.
#[derive(Debug, PartialEq, Eq)]
pub struct Results {
    pub submits: Vec<Submit>,
}

/// The submits made to the task named `name`, in their order.
pub open spec fn of_task(v: Seq<SubmitView>, name: Seq<char>) -> Seq<SubmitView> {
    v.filter(|s: SubmitView| s.problem_name == name)
}

impl Default for Results {
    fn default() -> (r: Self)
        ensures
            r.submits@.len() == 0,
    {
        Results { submits: Vec::new() }
    }
}

impl Clone for Results {
    fn clone(&self) -> (r: Self)
        ensures
            submits_view(r.submits@) == submits_view(self.submits@),
    {
        let mut v: Vec<Submit> = Vec::new();
        let mut i: usize = 0;
        while i < self.submits.len()
            invariant
                i <= self.submits.len(),
                v.len() == i,
                submits_view(v@) == submits_view(self.submits@.take(i as int)),
            decreases self.submits.len() - i,
        {
            let ghost old_v = v@;
            v.push(self.submits[i].clone());
            proof {
                assert forall|j: int| 0 <= j < i + 1 implies #[trigger] submits_view(v@)[j]
                    == submits_view(self.submits@.take(i + 1))[j] by {
                    if j < i {
                        assert(v@[j] == old_v[j]);
                        assert(submits_view(old_v)[j] == submits_view(self.submits@.take(i as int))[j]);
                    }
                }
            }
            i += 1;
            assert(submits_view(v@) =~= submits_view(self.submits@.take(i as int)));
        }
        assert(self.submits@.take(self.submits.len() as int) =~= self.submits@);
        Results { submits: v }
    }
}

impl Results {
    /// The given submits.
    pub fn new(submits: Vec<Submit>) -> (r: Results)
        ensures
            r.submits == submits,
    {
        Results { submits }
    }

    /// The submits made to the task named `task_name`, in their order.
    pub fn filter_by_task(&self, task_name: &str) -> (r: Results)
        ensures
            submits_view(r.submits@) == of_task(submits_view(self.submits@), task_name@),
    {
        let ghost all = submits_view(self.submits@);
        let mut v: Vec<Submit> = Vec::new();
        let mut i: usize = 0;
        while i < self.submits.len()
            invariant
                i <= self.submits.len(),
                all == submits_view(self.submits@),
                submits_view(v@) == of_task(all.take(i as int), task_name@),
            decreases self.submits.len() - i,
        {
            proof {
                reveal(Seq::filter);
                assert(all.take(i + 1).drop_last() =~= all.take(i as int));
                assert(all.take(i + 1).last() == self.submits@[i as int]@);
            }
            if crate::text::str_eq(self.submits[i].problem_name.as_str(), task_name) {
                let ghost old_v = v@;
                v.push(self.submits[i].clone());
                assert(submits_view(v@) =~= submits_view(old_v).push(self.submits@[i as int]@));
            }
            i += 1;
        }
        assert(all.take(self.submits.len() as int) =~= all);
        Results { submits: v }
    }
}


/// Keeping the submits of one task twice keeps what keeping them once keeps.
pub proof fn law_filter_by_task_idempotent(v: Seq<SubmitView>, name: Seq<char>)
    ensures
        of_task(of_task(v, name), name) == of_task(v, name),
{
    let f = |s: SubmitView| s.problem_name == name;
    assert forall|i: int| 0 <= i < v.filter(f).len() implies f(#[trigger] v.filter(f)[i]) by {
        v.lemma_filter_pred(f, i);
    }
    lemma_filter_all(v.filter(f), f);
}

/// Every submit kept was made to the task and is one of the submits; none is added.
pub proof fn law_filter_by_task_sound(v: Seq<SubmitView>, name: Seq<char>)
    ensures
        of_task(v, name).len() <= v.len(),
        forall|i: int|
            0 <= i < of_task(v, name).len() ==> (#[trigger] of_task(v, name)[i]).problem_name
                == name,
        forall|i: int| 0 <= i < of_task(v, name).len() ==> v.contains(#[trigger] of_task(v, name)[i]),
{
    let f = |s: SubmitView| s.problem_name == name;
    v.lemma_filter_len(f);
    assert forall|i: int| 0 <= i < of_task(v, name).len() implies (#[trigger] of_task(
        v,
        name,
    )[i]).problem_name == name && v.contains(of_task(v, name)[i]) by {
        v.lemma_filter_pred(f, i);
        assert(v.filter(f).contains(v.filter(f)[i]));
        v.lemma_filter_contains_rev(f, v.filter(f)[i]);
    }
}

proof fn lemma_filter_all(v: Seq<SubmitView>, f: spec_fn(SubmitView) -> bool)
    requires
        forall|i: int| 0 <= i < v.len() ==> f(#[trigger] v[i]),
    ensures
        v.filter(f) == v,
    decreases v.len(),
{
    reveal(Seq::filter);
    if v.len() > 0 {
        lemma_filter_all(v.drop_last(), f);
        assert(v.drop_last().push(v.last()) =~= v);
    } else {
        assert(v.filter(f) =~= v);
    }
}

} // verus!
