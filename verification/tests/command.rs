use suite_runner::command::{Session, TestCommand};
use suite_runner::error::RunError;

fn command(list: bool, tests: Option<&str>) -> TestCommand {
    TestCommand { url: "suite-url".to_string(), tests: tests.map(String::from), list }
}

#[test]
fn list_command_begins_a_listing_without_a_word() {
    let step = suite_runner::command::test(&command(true, None))
        .expect("a listing does not fail to begin");
    assert!(step.lines.is_empty());
    assert!(matches!(step.next, Session::Listing(_)));
}

#[test]
fn list_command_takes_no_notice_of_the_pattern() {
    let step = suite_runner::command::test(&command(true, Some("[")))
        .expect("a listing does not fail to begin");
    assert!(step.lines.is_empty());
    assert!(matches!(step.next, Session::Listing(_)));
}

#[test]
fn run_command_announces_the_launch() {
    let step = suite_runner::command::test(&command(false, None)).expect("no pattern, no failure");
    assert_eq!(step.lines, vec!["*** Launching suite-url ***".to_string()]);
    assert!(matches!(step.next, Session::Running(_)));
    let step = suite_runner::command::test(&command(false, Some("Test [0-9]+")))
        .expect("a valid pattern");
    assert_eq!(step.lines, vec!["*** Launching suite-url ***".to_string()]);
    assert!(matches!(step.next, Session::Running(_)));
}

#[test]
fn run_command_with_an_invalid_pattern_fails_at_once() {
    match suite_runner::command::test(&command(false, Some("("))) {
        Err(RunError::InvalidPattern { pattern, .. }) => assert_eq!(pattern, "("),
        _ => panic!("the pattern should have been turned down"),
    }
}

#[test]
fn listing_begun_by_a_command_lists_its_suite() {
    let listing = match suite_runner::command::test(&command(true, None)).unwrap().next {
        Session::Listing(launch) => launch.launched(Ok(())).unwrap(),
        Session::Running(_) => panic!("a listing was asked for"),
    };
    let page = vec![suite_runner::model::CaseDescriptor::named("only".to_string())];
    let step = listing.page(Ok(page)).unwrap();
    assert_eq!(
        step.lines,
        vec!["Tests in suite suite-url:".to_string(), "".to_string(), "only".to_string()]
    );
}
