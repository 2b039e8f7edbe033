//! A submit and the results of its tests.
use vstd::prelude::*;
use crate::model::submit_status::{status_name, SubmitStatus};
use crate::text::{concat, views};

verus! {

/// The verdict of one test of a submit.
#[derive(Debug, PartialEq, Eq)]
pub struct TestResults {
    pub name: String,
    pub status: SubmitStatus,
}

/// A test result as its name and status.
pub type TestView = (Seq<char>, SubmitStatus);

impl View for TestResults {
    type V = TestView;

    open spec fn view(&self) -> TestView {
        (self.name@, self.status)
    }
}

/// The views of a list of test results.
pub open spec fn tests_view(v: Seq<TestResults>) -> Seq<TestView> {
    v.map_values(|t: TestResults| t@)
}

impl Clone for TestResults {
    fn clone(&self) -> (r: Self)
        ensures
            r@ == self@,
    {
        TestResults { name: self.name.clone(), status: self.status }
    }
}

/// A submit as the server reports it. The points are kept as the decimal text the
/// server sent (a valid `f32` literal).
#[derive(Debug, PartialEq, Eq)]
pub struct Submit {
    pub status: SubmitStatus,
    pub points: String,
    pub lateness: Option<i32>,
    pub accepted: i32,
    pub size: i32,
    pub timestamp: String,
    pub language: String,
    pub id: String,
    pub max_points: Option<i32>,
    pub problem_name: String,
    pub link: String,
    pub test_results: Option<Vec<TestResults>>,
}

/// A submit as plain values.
pub struct SubmitView {
    pub status: SubmitStatus,
    pub points: Seq<char>,
    pub lateness: Option<i32>,
    pub accepted: i32,
    pub size: i32,
    pub timestamp: Seq<char>,
    pub language: Seq<char>,
    pub id: Seq<char>,
    pub max_points: Option<i32>,
    pub problem_name: Seq<char>,
    pub link: Seq<char>,
    pub test_results: Option<Seq<TestView>>,
}

impl View for Submit {
    type V = SubmitView;

    open spec fn view(&self) -> SubmitView {
        SubmitView {
            status: self.status,
            points: self.points@,
            lateness: self.lateness,
            accepted: self.accepted,
            size: self.size,
            timestamp: self.timestamp@,
            language: self.language@,
            id: self.id@,
            max_points: self.max_points,
            problem_name: self.problem_name@,
            link: self.link@,
            test_results: match self.test_results {
                Some(v) => Some(tests_view(v@)),
                None => None,
            },
        }
    }
}

/// The views of a list of submits.
pub open spec fn submits_view(v: Seq<Submit>) -> Seq<SubmitView> {
    v.map_values(|s: Submit| s@)
}

/// A copy of the test results.
fn clone_tests(v: &Vec<TestResults>) -> (r: Vec<TestResults>)
    ensures
        tests_view(r@) == tests_view(v@),
{
    let mut r: Vec<TestResults> = Vec::new();
    let mut i: usize = 0;
    while i < v.len()
        invariant
            i <= v.len(),
            r.len() == i,
            tests_view(r@) == tests_view(v@.take(i as int)),
        decreases v.len() - i,
    {
        let ghost old_r = r@;
        r.push(v[i].clone());
        proof {
            assert forall|j: int| 0 <= j < i + 1 implies #[trigger] tests_view(r@)[j] == tests_view(
                v@.take(i + 1),
            )[j] by {
                if j < i {
                    assert(r@[j] == old_r[j]);
                    assert(tests_view(old_r)[j] == tests_view(v@.take(i as int))[j]);
                }
            }
        }
        i += 1;
        assert(tests_view(r@) =~= tests_view(v@.take(i as int)));
    }
    assert(v@.take(v.len() as int) =~= v@);
    r
}

impl Clone for Submit {
    fn clone(&self) -> (r: Self)
        ensures
            r@ == self@,
    {
        let test_results = match &self.test_results {
            Some(v) => Some(clone_tests(v)),
            None => None,
        };
        Submit {
            status: self.status,
            points: self.points.clone(),
            lateness: self.lateness,
            accepted: self.accepted,
            size: self.size,
            timestamp: self.timestamp.clone(),
            language: self.language.clone(),
            id: self.id.clone(),
            max_points: self.max_points,
            problem_name: self.problem_name.clone(),
            link: self.link.clone(),
            test_results,
        }
    }
}

/// The colour a line about a submit or test with this status is shown in (always bold).
#[derive(Debug, Clone, Copy, PartialEq, Eq, Structural)]
pub enum StatusColor {
    Green,
    BrightYellow,
    Yellow,
    Blue,
    Magenta,
    Red,
}

/// The colour for each status.
pub open spec fn color_for(s: SubmitStatus) -> StatusColor {
    match s {
        SubmitStatus::Accepted => StatusColor::Green,
        SubmitStatus::Processing => StatusColor::BrightYellow,
        SubmitStatus::InQueue => StatusColor::BrightYellow,
        SubmitStatus::WrongAnswer => StatusColor::Yellow,
        SubmitStatus::TimeExceeded => StatusColor::Yellow,
        SubmitStatus::CompileError => StatusColor::Yellow,
        SubmitStatus::NoHeader => StatusColor::Blue,
        SubmitStatus::RealTimeExceeded => StatusColor::Yellow,
        SubmitStatus::ManuallyRejected => StatusColor::Magenta,
        SubmitStatus::RuntimeError => StatusColor::Yellow,
        SubmitStatus::InternalError => StatusColor::Red,
        SubmitStatus::OutputSizeExceeded => StatusColor::Yellow,
    }
}

/// The colour a line about a submit or test with `status` is shown in.
pub fn apply_color_according_to_status(status: &SubmitStatus) -> (r: StatusColor)
    ensures
        r == color_for(*status),
{
    match status {
        SubmitStatus::Accepted => StatusColor::Green,
        SubmitStatus::Processing => StatusColor::BrightYellow,
        SubmitStatus::InQueue => StatusColor::BrightYellow,
        SubmitStatus::WrongAnswer => StatusColor::Yellow,
        SubmitStatus::TimeExceeded => StatusColor::Yellow,
        SubmitStatus::CompileError => StatusColor::Yellow,
        SubmitStatus::NoHeader => StatusColor::Blue,
        SubmitStatus::RealTimeExceeded => StatusColor::Yellow,
        SubmitStatus::ManuallyRejected => StatusColor::Magenta,
        SubmitStatus::RuntimeError => StatusColor::Yellow,
        SubmitStatus::InternalError => StatusColor::Red,
        SubmitStatus::OutputSizeExceeded => StatusColor::Yellow,
    }
}

/// A line prefixed with a tick for accepted tests and a cross for the others.
pub open spec fn with_emoji(line: Seq<char>, status: SubmitStatus) -> Seq<char> {
    if status == SubmitStatus::Accepted {
        " \u{2714}\u{fe0f}"@ + line
    } else {
        " \u{274c}"@ + line
    }
}

/// `line` with the mark for `status` in front.
pub fn add_emoji(line: &str, status: &SubmitStatus) -> (r: String)
    ensures
        r@ == with_emoji(line@, *status),
{
    match status {
        SubmitStatus::Accepted => concat(" \u{2714}\u{fe0f}", line),
        _ => concat(" \u{274c}", line),
    }
}

/// The line shown for one test: its mark, its name and its status.
pub open spec fn test_line(t: TestResults) -> Seq<char> {
    with_emoji(" \u{2500}\u{2500} "@ + t.name@ + " - "@ + status_name(t.status), t.status)
}

/// The header line of a submit.
pub open spec fn header_line(s: Submit) -> Seq<char> {
    "\u{25cf} "@ + s.problem_name@ + " - "@ + s.language@ + " - "@ + s.timestamp@ + " - submit "@
        + s.id@
}

/// The line that links to a submit.
pub open spec fn link_line(s: Submit) -> Seq<char> {
    "\u{2514}\u{2500}\u{2500}\u{2500} "@ + s.link@
}

fn make_test_line(t: &TestResults) -> (r: String)
    ensures
        r@ == test_line(*t),
{
    let a = concat(" \u{2500}\u{2500} ", t.name.as_str());
    let b = concat(a.as_str(), " - ");
    let n = t.status.name();
    let c = concat(b.as_str(), n.as_str());
    add_emoji(c.as_str(), &t.status)
}

impl Submit {
    /// The header line: problem, language, time and id.
    pub fn make_header_line(&self) -> (r: String)
        ensures
            r@ == header_line(*self),
    {
        let a = concat("\u{25cf} ", self.problem_name.as_str());
        let b = concat(a.as_str(), " - ");
        let c = concat(b.as_str(), self.language.as_str());
        let d = concat(c.as_str(), " - ");
        let e = concat(d.as_str(), self.timestamp.as_str());
        let f = concat(e.as_str(), " - submit ");
        concat(f.as_str(), self.id.as_str())
    }

    /// The line with the link to the submit's page.
    pub fn make_link_line(&self) -> (r: String)
        ensures
            r@ == link_line(*self),
    {
        concat("\u{2514}\u{2500}\u{2500}\u{2500} ", self.link.as_str())
    }

    /// The lines listed for the tests of the submit, one for each test, in order, with
    /// the status of each.
    pub fn test_lines(&self) -> (r: Vec<(String, SubmitStatus)>)
        requires
            self.test_results matches Some(v) ==> v@.len() > 0,
        ensures
            self.test_results is None ==> r@.len() == 0,
            self.test_results matches Some(v) ==> r@.len() == v@.len() && forall|i: int|
                0 <= i < r@.len() ==> (#[trigger] r@[i]).0@ == test_line(v@[i]) && r@[i].1
                    == v@[i].status,
    {
        let mut r: Vec<(String, SubmitStatus)> = Vec::new();
        match &self.test_results {
            None => r,
            Some(v) => {
                let mut i: usize = 0;
                while i < v.len()
                    invariant
                        i <= v.len(),
                        r@.len() == i,
                        forall|j: int|
                            0 <= j < i ==> (#[trigger] r@[j]).0@ == test_line(v@[j]) && r@[j].1
                                == v@[j].status,
                    decreases v.len() - i,
                {
                    r.push((make_test_line(&v[i]), v[i].status));
                    i += 1;
                }
                r
            },
        }
    }
}

} // verus!
