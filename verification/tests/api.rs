use baca::api::baca_service::BacaService;
use baca::api::details::{permutation, EMPTY_RESPONSE, PERMUTATION};
use baca::api::request_type::{fill_placeholders, RequestType};
use baca::api::{
    check_for_empty_response, check_response_status, extract_cookie, get_results, get_submit_details,
    get_tasks,
};
use baca::error::Error;
use baca::model::Language::Unsupported;
use baca::model::{Language, Results, Submit, SubmitStatus, Task, Tasks};
use baca::workspace::ConnectionConfig;

fn make_correct_baca_invalid_session() -> ConnectionConfig {
    ConnectionConfig {
        host: "mn2020".to_string(),
        login: "login".to_string(),
        password: "pass".to_string(),
        permutation: permutation(),
        cookie: "invalid".to_string(),
    }
}

fn make_incorrect_baca() -> ConnectionConfig {
    ConnectionConfig {
        host: "invalid".to_string(),
        login: "login".to_string(),
        password: "pass".to_string(),
        permutation: "invalid".to_string(),
        cookie: "".to_string(),
    }
}

/// The status the server answers with for a course that does not exist.
const NOT_FOUND: u16 = 404;
/// The status of an ordinary answer.
const FOUND: u16 = 200;

/// A task-list reply, as the server encodes it, listing `tasks` as (id, name, accepted).
fn task_list_reply(tasks: &[(&str, &str, i32)]) -> String {
    let n = tasks.len();
    let mut values: Vec<String> = vec![
        "\"testerka.gwt.client.tools.DataSource/1474249525\"".to_string(),
        "\"[[Ljava.lang.String;/4182515373\"".to_string(),
        "\"[Ljava.lang.String;/2600011424\"".to_string(),
    ];
    for (id, name, oks) in tasks {
        values.push(format!("\"{}\"", id));
        values.push(format!("\"{}\"", name));
        values.push(format!("\"{}\"", oks));
    }
    values.push("\"id\"".to_string());
    values.push("\"nazwa\"".to_string());
    values.push("\"liczba OK\"".to_string());
    let header = 4 + 3 * n;
    let mut keys: Vec<String> = vec![
        "0".to_string(),
        (header + 2).to_string(),
        (header + 1).to_string(),
        header.to_string(),
    ];
    for k in (0..n).rev() {
        let base = 4 + 3 * k;
        keys.push("3".to_string());
        keys.push("3".to_string());
        keys.push((base + 2).to_string());
        keys.push((base + 1).to_string());
        keys.push(base.to_string());
    }
    for k in ["3", "3", "2", "2", "1"] {
        keys.push(k.to_string());
    }
    format!("//OK[{},[{}],0,7]", keys.join(","), values.join(","))
}

#[test]
fn permutation_function_should_return_same_string() {
    assert_eq!(permutation(), PERMUTATION);
}

#[test]
fn baca_service_get_cookie_on_correct_host_should_fail_login() {
    let _baca = make_correct_baca_invalid_session();
    let api = BacaService::default();
    let result = api.get_cookie(FOUND, &[]);
    assert!(matches!(result.expect_err("Should fail"), Error::InvalidLoginOrPassword));
}

#[test]
fn baca_service_get_cookie_on_incorrect_host_should_fail() {
    let _baca = make_incorrect_baca();
    let api = BacaService::default();
    let result = api.get_cookie(NOT_FOUND, &[]);
    assert!(matches!(result.expect_err("Should fail"), Error::InvalidHost));
}

#[test]
fn baca_service_get_task_on_correct_host_should_succeed() {
    let _baca = make_correct_baca_invalid_session();
    let api = BacaService::default();
    let reply = task_list_reply(&[
        ("1", "[A] Zera funkcji", 69),
        ("2", "[B] Metoda Newtona", 58),
        ("3", "[C] FAD\\x3Csup\\x3E2\\x3C/sup\\x3E - Pochodne mieszane", 62),
        ("4", "[D] Skalowany Gauss", 52),
        ("5", "[E] Metoda SOR", 64),
        ("6", "[F] Interpolacja", 63),
        ("7", "[G] Funkcje sklejane", 59),
        ("8", "A2", 1),
        ("9", "B2", 2),
        ("10", "C2", 1),
        ("11", "D2", 2),
        ("12", "E2", 1),
        ("13", "F2", 3),
        ("14", "G2", 2),
    ]);
    let actual = api.get_tasks(FOUND, &reply).unwrap();
    let expected = Tasks {
        tasks: vec![
            Task::new("1", Unsupported, "[A] Zera funkcji", 69),
            Task::new("2", Unsupported, "[B] Metoda Newtona", 58),
            Task::new(
                "3",
                Unsupported,
                "[C] FAD\\x3Csup\\x3E2\\x3C/sup\\x3E - Pochodne mieszane",
                62,
            ),
            Task::new("4", Unsupported, "[D] Skalowany Gauss", 52),
            Task::new("5", Unsupported, "[E] Metoda SOR", 64),
            Task::new("6", Unsupported, "[F] Interpolacja", 63),
            Task::new("7", Unsupported, "[G] Funkcje sklejane", 59),
            Task::new("8", Unsupported, "A2", 1),
            Task::new("9", Unsupported, "B2", 2),
            Task::new("10", Unsupported, "C2", 1),
            Task::new("11", Unsupported, "D2", 2),
            Task::new("12", Unsupported, "E2", 1),
            Task::new("13", Unsupported, "F2", 3),
            Task::new("14", Unsupported, "G2", 2),
        ],
    };
    assert_eq!(actual, expected);
}

#[test]
fn baca_service_get_task_on_incorrect_host_should_fail() {
    let _baca = make_incorrect_baca();
    let api = BacaService::default();
    let result = api.get_tasks(NOT_FOUND, "");
    assert!(matches!(result.expect_err("Should fail"), Error::InvalidHost));
}

#[test]
fn baca_service_get_details_on_incorrect_host_should_fail() {
    let baca = make_incorrect_baca();
    let api = BacaService::default();
    let result = api.get_submit_details(&baca, NOT_FOUND, "");
    assert!(matches!(result.expect_err("Should fail"), Error::InvalidHost));
}

#[test]
fn baca_service_get_details_on_incorrect_session_should_fail() {
    let baca = make_correct_baca_invalid_session();
    let api = BacaService::default();
    let result = api.get_submit_details(&baca, FOUND, EMPTY_RESPONSE);
    assert!(matches!(result.expect_err("Should fail"), Error::LoggedOut));
}

#[test]
fn baca_service_get_results_on_incorrect_host_should_fail() {
    let _baca = make_incorrect_baca();
    let api = BacaService::default();
    let result = api.get_results(NOT_FOUND, "");
    assert!(matches!(result.expect_err("Should fail"), Error::InvalidHost));
}

#[test]
fn baca_service_get_results_on_incorrect_session_should_fail() {
    let _baca = make_correct_baca_invalid_session();
    let api = BacaService::default();
    let result = api.get_results(FOUND, EMPTY_RESPONSE);
    assert!(matches!(result.expect_err("Should fail"), Error::LoggedOut));
}

#[test]
fn cookie_is_the_first_one_set() {
    let api = BacaService::default();
    let cookies = vec!["abc".to_string(), "def".to_string()];
    assert_eq!(api.get_cookie(FOUND, &cookies).unwrap(), "abc");
    assert_eq!(extract_cookie(&cookies).unwrap(), "abc");
    assert!(matches!(extract_cookie(&[]), Err(Error::InvalidLoginOrPassword)));
    assert!(matches!(api.get_cookie(NOT_FOUND, &cookies), Err(Error::InvalidHost)));
}

#[test]
fn status_and_empty_reply_checks() {
    assert!(matches!(check_response_status(404), Err(Error::InvalidHost)));
    assert!(check_response_status(200).is_ok());
    assert!(check_response_status(500).is_ok());
    assert!(matches!(
        check_for_empty_response(EMPTY_RESPONSE.to_string()),
        Err(Error::LoggedOut)
    ));
    assert_eq!(check_for_empty_response("//OK[1]".to_string()).unwrap(), "//OK[1]");
}

#[test]
fn raw_replies_are_checked() {
    assert!(matches!(
        get_submit_details(EMPTY_RESPONSE.to_string()),
        Err(Error::InvalidSubmitId)
    ));
    assert!(matches!(
        get_submit_details("//EX[it failed]".to_string()),
        Err(Error::InvalidSubmitId)
    ));
    assert_eq!(get_submit_details("//OK[2]".to_string()).unwrap(), "//OK[2]");
    assert!(matches!(get_results(EMPTY_RESPONSE.to_string()), Err(Error::LoggedOut)));
    assert_eq!(get_results("//OK[3]".to_string()).unwrap(), "//OK[3]");
    assert!(matches!(get_tasks(404, "//OK[3]".to_string()), Err(Error::InvalidHost)));
    assert!(matches!(get_tasks(200, EMPTY_RESPONSE.to_string()), Err(Error::LoggedOut)));
    assert_eq!(get_tasks(200, "//OK[4]".to_string()).unwrap(), "//OK[4]");
}

#[test]
fn details_that_mention_failed_are_an_invalid_id() {
    let api = BacaService::default();
    let baca = make_correct_baca_invalid_session();
    let result = api.get_submit_details(&baca, FOUND, "//EX[2,1,[\"failed\"],0,7]");
    assert!(matches!(result, Err(Error::InvalidSubmitId)));
}

#[test]
fn submit_replies() {
    let api = BacaService::default();
    assert!(matches!(api.submit("Niezalogowany jesteś"), Err(Error::LoggedOut)));
    assert!(matches!(api.submit("Błąd"), Err(Error::TaskNotActive)));
    assert!(api.submit("").is_ok());
    assert!(api.submit("ok").is_ok());
}

#[test]
fn allowed_language_from_a_reply() {
    let api = BacaService::default();
    let baca = ConnectionConfig::default();
    let data = r#"//OK[0,7,6,2,3,5,4,2,3,1,2,1,[\"testerka.gwt.client.tools.DataSource/1474249525\",\"[[Ljava.lang.String;/4182515373\",\"[Ljava.lang.String;/2600011424\",\"1\",\"Java\",\"id\",\"nazwa\"],0,7]"#;
    assert_eq!(api.get_allowed_language(&baca, FOUND, data).unwrap(), Some(Language::Java));
    assert!(matches!(
        api.get_allowed_language(&baca, NOT_FOUND, data),
        Err(Error::InvalidHost)
    ));
}

fn make_submit(id: &str, name: &str) -> Submit {
    Submit {
        status: SubmitStatus::Processing,
        points: "0".to_string(),
        lateness: None,
        accepted: 0,
        size: 123,
        timestamp: "2002".to_string(),
        language: "Bash".to_string(),
        id: id.to_string(),
        max_points: None,
        problem_name: name.to_string(),
        link: "www.baca.pl".to_string(),
        test_results: None,
    }
}

#[test]
fn results_of_one_task() {
    let api = BacaService::default();
    let tasks = Tasks::new(vec![
        Task::new("1", Unsupported, "Zera", 3),
        Task::new("2", Unsupported, "Newton", 4),
    ]);
    let results = Results::new(vec![
        make_submit("10", "Newton"),
        make_submit("11", "Zera"),
        make_submit("12", "Newton"),
    ]);
    let actual = api.get_results_by_task(&tasks, &results, "2").unwrap();
    assert_eq!(
        actual,
        Results::new(vec![make_submit("10", "Newton"), make_submit("12", "Newton")])
    );
    let missing = api.get_results_by_task(&tasks, &results, "3");
    assert_eq!(missing, Err(Error::InvalidTaskId("3".to_string())));
}

#[test]
fn request_payloads() {
    assert_eq!(RequestType::Results.mapping(), "submits");
    assert_eq!(RequestType::SubmitDetails("12".to_string()).mapping(), "submits");
    assert_eq!(
        RequestType::Login("a".to_string(), "b".to_string()).mapping(),
        "privileges"
    );
    assert!(RequestType::SubmitDetails("1234".to_string())
        .payload_template()
        .ends_with("|getSubmitDetails|I|1|2|3|4|1|5|1234|"));
}

#[test]
fn payloads_fill_their_placeholders_in_order() {
    let base = "https://baca.ii.uj.edu.pl/mn2020/testerka_gwt/";
    let login = RequestType::Login("jan".to_string(), "tajne".to_string()).payload(base);
    assert_eq!(
        login,
        "7|0|7|https://baca.ii.uj.edu.pl/mn2020/testerka_gwt/|620F3CE7784C04B839FC8E10C6C4A753|testerka.gwt.client.acess.PrivilegesService|login|java.lang.String/2004016611|jan|tajne|1|2|3|4|2|5|5|6|7|"
    );
    let results = RequestType::Results.payload(base);
    assert!(results.starts_with("7|0|5|https://baca.ii.uj.edu.pl/mn2020/testerka_gwt/|03D9"));
    assert_eq!(fill_placeholders("a{}b{}c", &["1".to_string()]), "a1b{}c");
    assert_eq!(fill_placeholders("{}", &["x".to_string(), "y".to_string()]), "x");
    assert_eq!(fill_placeholders("none", &[]), "none");
}

#[test]
fn connection_addresses() {
    let baca = make_correct_baca_invalid_session();
    assert_eq!(baca.make_url(), "https://baca.ii.uj.edu.pl/mn2020");
    assert_eq!(baca.make_module_base(), "https://baca.ii.uj.edu.pl/mn2020/testerka_gwt/");
    assert_eq!(baca.make_cookie(), "JSESSIONID=invalid");
}
