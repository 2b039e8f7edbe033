use baca::command::last::Last;
use baca::error::Error;
use baca::model::{Results, Submit, SubmitStatus};

fn make_mock_submit(name: &str) -> Submit {
    Submit {
        status: SubmitStatus::Processing,
        points: "0".to_string(),
        lateness: None,
        accepted: 0,
        size: 123,
        timestamp: "2002".to_string(),
        language: "Bash".to_string(),
        id: "".to_string(),
        max_points: None,
        problem_name: name.to_string(),
        link: "www.baca.pl".to_string(),
        test_results: None,
    }
}

fn make_submit(id: &str, name: &str) -> Submit {
    Submit {
        status: SubmitStatus::InternalError,
        points: "0".to_string(),
        lateness: None,
        accepted: 0,
        size: 123,
        timestamp: "2002".to_string(),
        language: "Java".to_string(),
        id: id.to_string(),
        max_points: None,
        problem_name: name.to_string(),
        link: "www.baca.pl".to_string(),
        test_results: None,
    }
}

#[test]
fn filter_empty_results() {
    let expected = Results::default();
    let actual = Results::default().filter_by_task("1");

    assert_eq!(actual, expected);
}

#[test]
fn filter_single_log_no_matches() {
    let data = Results::new(vec![make_mock_submit("1")]);
    let expected = Results::default();
    let actual = data.filter_by_task("2");

    assert_eq!(actual, expected);
}

#[test]
fn filter_single_log_match() {
    let expected = Results::new(vec![make_mock_submit("1")]);
    let actual = expected.filter_by_task("1");

    assert_eq!(actual, expected);
}

#[test]
fn filter() {
    let data = Results::new(vec![
        make_mock_submit("1"),
        make_mock_submit("2"),
        make_mock_submit("3"),
        make_mock_submit("1"),
        make_mock_submit("1"),
        make_mock_submit("1"),
        make_mock_submit("2"),
        make_mock_submit("2"),
        make_mock_submit("4"),
        make_mock_submit("1"),
    ]);
    let expected = Results::new(vec![
        make_mock_submit("1"),
        make_mock_submit("1"),
        make_mock_submit("1"),
        make_mock_submit("1"),
        make_mock_submit("1"),
    ]);
    let actual = data.filter_by_task("1");

    assert_eq!(actual, expected);
}

#[test]
fn filtering_twice_is_filtering_once() {
    let data = Results::new(vec![
        make_mock_submit("1"),
        make_mock_submit("2"),
        make_mock_submit("1"),
    ]);
    let once = data.filter_by_task("1");
    let twice = once.filter_by_task("1");
    assert_eq!(once, twice);
    assert!(once.submits.iter().all(|s| s.problem_name == "1"));
}

#[test]
fn last_no_submits() {
    let last = Last::new();
    let result = last.get_last_submit(&Results { submits: vec![] });
    assert!(result.is_err());
    assert!(matches!(result.err().unwrap(), Error::NoSubmitsYet));
}

#[test]
fn one_submit() {
    let expected = make_submit("3", "Test Problem");
    let results = Results {
        submits: vec![expected.clone()],
    };
    let last = Last::new();
    let result = last.get_last_submit(&results);
    assert!(result.is_ok());
    assert_eq!(result.unwrap(), expected);
}

#[test]
fn three_submits() {
    let submit1 = make_submit("1", "Test Problem 1");
    let submit2 = make_submit("2", "Test Problem 2");
    let submit3 = make_submit("3", "Test Problem 3");
    let all_submits = vec![submit1.clone(), submit2, submit3];
    let results = Results {
        submits: all_submits,
    };
    let last = Last::new();
    let result = last.get_last_submit(&results);
    assert!(result.is_ok());
    assert_eq!(result.unwrap().id, "1");
}

#[test]
fn last_with_a_task_filter() {
    let last = Last::with_filter("7");
    assert_eq!(last.task_id, Some("7".to_string()));
    assert_eq!(Last::new().task_id, None);
}
