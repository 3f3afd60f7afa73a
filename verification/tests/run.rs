use regex::Regex;
use suite_runner::error::RunError;
use suite_runner::launch::LaunchFailure;
use suite_runner::model::{CaseDescriptor, CaseResult, Invocation, LifecycleEvent};
use suite_runner::run::{run_tests, Progress, Selected};

const URL: &str = "fuchsia-pkg://fuchsia.com/dummy-package#meta/echo_test_realm.cm";

/// The pages that a suite with `num_tests` cases called "Test 0", "Test 1"
/// and so on sends when it hands out `page_size` cases at a time.
fn fake_pages(num_tests: usize, page_size: usize) -> Vec<Vec<CaseDescriptor>> {
    let names: Vec<String> = (0..num_tests).map(|i| format!("Test {}", i)).collect();
    let mut pages: Vec<Vec<CaseDescriptor>> = names
        .chunks(page_size)
        .map(|chunk| chunk.iter().map(|name| CaseDescriptor { name: Some(name.clone()) }).collect())
        .collect();
    pages.push(Vec::new());
    pages
}

/// The events of a suite that starts each invocation, logs one message for
/// it and lets it pass, and then says that it is done.
fn fake_events(invocations: &[Invocation]) -> Vec<LifecycleEvent> {
    let mut events = Vec::new();
    for invocation in invocations {
        events.push(LifecycleEvent::CaseStarted { case_name: invocation.name.clone() });
        events.push(LifecycleEvent::LogMessage {
            case_name: invocation.name.clone(),
            text: "Test log message\n".to_string(),
        });
        events.push(LifecycleEvent::CaseFinished {
            case_name: invocation.name.clone(),
            result: CaseResult::Passed,
        });
    }
    events.push(LifecycleEvent::Finish);
    events
}

/// Drives a whole run against the fake suite and returns what was written,
/// together with how the run ended.
fn run_against(
    pages: Vec<Vec<CaseDescriptor>>,
    selector: &Option<String>,
    events_of: fn(&[Invocation]) -> Vec<LifecycleEvent>,
    task: Result<(), String>,
) -> (Vec<String>, Result<(), RunError>) {
    let mut output: Vec<String> = Vec::new();
    let step = match run_tests(URL, selector) {
        Ok(step) => step,
        Err(error) => return (output, Err(error)),
    };
    output.extend(step.lines);
    let step = match step.next.launched(Ok(())) {
        Ok(step) => step,
        Err(error) => return (output, Err(error)),
    };
    output.extend(step.lines);
    let mut selection = step.next;
    let mut pages = pages.into_iter();
    let (mut execution, invocations) = loop {
        let page = pages.next().expect("the suite was asked for a page after its last");
        let step = match selection.page(Ok(page)) {
            Ok(step) => step,
            Err(error) => return (output, Err(error)),
        };
        output.extend(step.lines);
        match step.next {
            Selected::More(next) => selection = next,
            Selected::NothingToRun => return (output, Ok(())),
            Selected::Run(execution, invocations) => break (execution, invocations),
        }
    };
    assert!(!invocations.is_empty());
    let mut events = events_of(&invocations).into_iter();
    let completion = loop {
        let step = execution.event(events.next());
        output.extend(step.lines);
        match step.next {
            Progress::More(next) => execution = next,
            Progress::Drained(completion) => break completion,
        }
    };
    match completion.finished(task) {
        Ok(lines) => {
            output.extend(lines);
            (output, Ok(()))
        }
        Err(error) => (output, Err(error)),
    }
}

fn count(pattern: &str, output: &[String]) -> usize {
    let text = suite_runner::text::write_lines(&output.to_vec());
    Regex::new(pattern).expect("test regex").find_iter(&text).count()
}

fn test_run(num_tests: usize, expected_run: usize, selector: Option<String>) {
    let (output, outcome) = run_against(fake_pages(num_tests, 50), &selector, fake_events, Ok(()));
    outcome.expect("run tests should not fail");
    assert_eq!(expected_run, count(r"RUNNING", &output));
    assert_eq!(expected_run, count(r"PASSED", &output));
}

#[test]
fn test_run_tests() {
    test_run(100, 100, None)
}

#[test]
fn test_run_tests_with_selector() {
    test_run(100, 19, Some("6".to_string()))
}

#[test]
fn test_run_tests_with_unmatched_selector() {
    test_run(100, 0, Some("Echo".to_string()))
}

#[test]
fn test_run_tests_with_invalid_selector() {
    let selector = Some("[".to_string());
    let (_, response) = run_against(fake_pages(1, 50), &selector, fake_events, Ok(()));
    assert!(response.is_err());
}

#[test]
fn invalid_selector_fails_before_anything_is_written_or_asked() {
    let selector = Some("[".to_string());
    let outcome = run_tests(URL, &selector);
    let expected = Regex::new("[").unwrap_err();
    match outcome {
        Err(RunError::InvalidPattern { pattern, error }) => {
            assert_eq!(pattern, "[");
            assert_eq!(error, expected);
        }
        _ => panic!("the pattern should have been turned down"),
    }
}

#[test]
fn invalid_selector_message_names_pattern_and_reason() {
    let selector = Some("a(b".to_string());
    let error = match run_tests(URL, &selector) {
        Err(error) => error,
        Ok(_) => panic!("the pattern should have been turned down"),
    };
    let reason = Regex::new("a(b").unwrap_err().to_string();
    assert_eq!(error.message(), format!("invalid regex for tests: \"a(b\"\n{}", reason));
    assert!(!reason.is_empty());
}

#[test]
fn full_run_writes_the_whole_report_in_order() {
    let (output, outcome) = run_against(fake_pages(2, 50), &None, fake_events, Ok(()));
    assert_eq!(outcome, Ok(()));
    assert_eq!(
        output,
        vec![
            format!("*** Launching {} ***", URL),
            "Getting tests...".to_string(),
            "Running tests...".to_string(),
            "[RUNNING]\tTest 0".to_string(),
            "Test 0: Test log message".to_string(),
            "[PASSED]\tTest 0".to_string(),
            "[RUNNING]\tTest 1".to_string(),
            "Test 1: Test log message".to_string(),
            "[PASSED]\tTest 1".to_string(),
            format!("*** Finished {} ***", URL),
        ]
    );
}

#[test]
fn hundred_cases_give_hundred_pairs_whatever_the_page_size() {
    for page_size in [1usize, 7, 50, 100, 1000] {
        let (output, outcome) =
            run_against(fake_pages(100, page_size), &None, fake_events, Ok(()));
        assert_eq!(outcome, Ok(()));
        assert_eq!(100, count(r"\[RUNNING\]", &output));
        assert_eq!(100, count(r"\[PASSED\]", &output));
        assert_eq!(0, count(r"\[FAILED\]|\[SKIPPED\]|\[ERROR\]", &output));
    }
}

#[test]
fn selector_runs_exactly_the_matching_cases() {
    let selector = Some("^Test 1[0-9]$".to_string());
    let (output, outcome) = run_against(fake_pages(100, 50), &selector, fake_events, Ok(()));
    assert_eq!(outcome, Ok(()));
    let started: Vec<&String> =
        output.iter().filter(|line| line.starts_with("[RUNNING]")).collect();
    let expected: Vec<String> = (10..20).map(|i| format!("[RUNNING]\tTest {}", i)).collect();
    assert_eq!(started, expected.iter().collect::<Vec<_>>());
    assert_eq!(10, count(r"\[PASSED\]", &output));
}

#[test]
fn unmatched_selector_says_so_and_runs_nothing() {
    let selector = Some("Echo".to_string());
    let (output, outcome) = run_against(fake_pages(100, 50), &selector, fake_events, Ok(()));
    assert_eq!(outcome, Ok(()));
    assert_eq!(
        output,
        vec![
            format!("*** Launching {} ***", URL),
            "Getting tests...".to_string(),
            "No test cases match Echo".to_string(),
        ]
    );
    assert_eq!(0, count(r"RUNNING", &output));
}

#[test]
fn empty_suite_says_so_and_runs_nothing() {
    let (output, outcome) = run_against(fake_pages(0, 50), &None, fake_events, Ok(()));
    assert_eq!(outcome, Ok(()));
    assert_eq!(
        output,
        vec![
            format!("*** Launching {} ***", URL),
            "Getting tests...".to_string(),
            format!("No tests cases found in suite {}", URL),
        ]
    );
}

fn events_without_finish(invocations: &[Invocation]) -> Vec<LifecycleEvent> {
    let mut events = fake_events(invocations);
    events.pop();
    events
}

#[test]
fn run_without_finish_is_premature_however_many_cases_passed() {
    let (output, outcome) =
        run_against(fake_pages(100, 50), &None, events_without_finish, Ok(()));
    assert_eq!(outcome, Err(RunError::PrematureTermination));
    assert_eq!(100, count(r"\[PASSED\]", &output));
    assert_eq!(0, count(r"Finished", &output));
    assert_eq!(
        RunError::PrematureTermination.message(),
        "Test run finished prematurely. Something went wrong."
    );
}

fn no_events(_invocations: &[Invocation]) -> Vec<LifecycleEvent> {
    Vec::new()
}

#[test]
fn run_without_any_event_is_premature() {
    let (output, outcome) = run_against(fake_pages(3, 50), &None, no_events, Ok(()));
    assert_eq!(outcome, Err(RunError::PrematureTermination));
    assert_eq!(0, count(r"RUNNING", &output));
}

#[test]
fn task_failure_is_reported_whatever_the_report_saw() {
    let (_, clean) =
        run_against(fake_pages(3, 50), &None, fake_events, Err("channel closed".to_string()));
    assert_eq!(clean, Err(RunError::Execution { cause: "channel closed".to_string() }));
    let (_, unclean) = run_against(
        fake_pages(3, 50),
        &None,
        events_without_finish,
        Err("channel closed".to_string()),
    );
    assert_eq!(unclean, Err(RunError::Execution { cause: "channel closed".to_string() }));
    assert_eq!(
        RunError::Execution { cause: "channel closed".to_string() }.message(),
        "Error running test: channel closed"
    );
}

fn events_past_finish(invocations: &[Invocation]) -> Vec<LifecycleEvent> {
    let mut events = fake_events(invocations);
    events.push(LifecycleEvent::CaseStarted { case_name: "late".to_string() });
    events
}

#[test]
fn nothing_is_consumed_after_finish() {
    let (output, outcome) = run_against(fake_pages(1, 50), &None, events_past_finish, Ok(()));
    assert_eq!(outcome, Ok(()));
    assert_eq!(1, count(r"RUNNING", &output));
    assert_eq!(0, count(r"late", &output));
}

#[test]
fn refused_launch_fails_with_the_reason() {
    let step = run_tests(URL, &None).expect("no pattern, no failure");
    let outcome = step.next.launched(Err(LaunchFailure::Refused("NoMatchingCases".to_string())));
    match outcome {
        Err(error) => {
            assert_eq!(error, RunError::Launch { reason: "NoMatchingCases".to_string() });
            assert_eq!(error.message(), "error launching test: NoMatchingCases");
        }
        Ok(_) => panic!("the launch was refused"),
    }
}

#[test]
fn unreachable_remote_fails_the_launch_with_the_cause() {
    let step = run_tests(URL, &None).expect("no pattern, no failure");
    let outcome = step.next.launched(Err(LaunchFailure::Transport("PEER_CLOSED".to_string())));
    match outcome {
        Err(error) => {
            assert_eq!(error, RunError::Transport { cause: "PEER_CLOSED".to_string() });
            assert_eq!(error.message(), "PEER_CLOSED");
        }
        Ok(_) => panic!("the launch did not get through"),
    }
}

#[test]
fn failed_page_request_fails_the_run() {
    let step = run_tests(URL, &None).expect("no pattern, no failure");
    let step = step.next.launched(Ok(())).expect("the suite started");
    assert_eq!(step.lines, vec!["Getting tests...".to_string()]);
    let first = vec![CaseDescriptor { name: Some("a".to_string()) }];
    let selection = match step.next.page(Ok(first)).expect("a page").next {
        Selected::More(selection) => selection,
        _ => panic!("a page with cases asks for the next"),
    };
    match selection.page(Err("PEER_CLOSED".to_string())) {
        Err(error) => assert_eq!(error, RunError::Transport { cause: "PEER_CLOSED".to_string() }),
        Ok(_) => panic!("the request failed"),
    }
}

#[test]
fn nameless_case_fails_the_selection() {
    let pages = vec![
        vec![CaseDescriptor { name: Some("a".to_string()) }, CaseDescriptor { name: None }],
        Vec::new(),
    ];
    let (output, outcome) = run_against(pages, &None, fake_events, Ok(()));
    assert_eq!(outcome, Err(RunError::NamelessCase));
    assert_eq!(0, count(r"Running tests", &output));
    assert_eq!(
        RunError::NamelessCase.message(),
        "Test suite reported a test case without a name."
    );
}

#[test]
fn invocations_carry_the_names_in_order_and_no_tag() {
    let step = run_tests(URL, &Some("[02]$".to_string())).expect("a valid pattern");
    let mut selection = step.next.launched(Ok(())).expect("the suite started").next;
    let mut pages = fake_pages(4, 3).into_iter();
    let invocations = loop {
        match selection.page(Ok(pages.next().unwrap())).expect("a page").next {
            Selected::More(next) => selection = next,
            Selected::Run(_, invocations) => break invocations,
            Selected::NothingToRun => panic!("two cases match"),
        }
    };
    assert_eq!(
        invocations,
        vec![
            Invocation { name: "Test 0".to_string(), tag: None },
            Invocation { name: "Test 2".to_string(), tag: None },
        ]
    );
}

#[test]
fn completion_remembers_whether_finish_came() {
    let begin = || {
        let step = run_tests(URL, &None).expect("no pattern, no failure");
        let selection = step.next.launched(Ok(())).expect("the suite started").next;
        let selection = match selection
            .page(Ok(vec![CaseDescriptor { name: Some("a".to_string()) }]))
            .expect("a page")
            .next
        {
            Selected::More(selection) => selection,
            _ => panic!("a page with cases asks for the next"),
        };
        match selection.page(Ok(Vec::new())).expect("the last page").next {
            Selected::Run(execution, _) => execution,
            _ => panic!("one case is to be run"),
        }
    };
    match begin().event(Some(LifecycleEvent::Finish)).next {
        Progress::Drained(completion) => assert!(completion.completed_cleanly()),
        Progress::More(_) => panic!("Finish ends the consumption"),
    }
    match begin().event(None).next {
        Progress::Drained(completion) => assert!(!completion.completed_cleanly()),
        Progress::More(_) => panic!("a closed source ends the consumption"),
    }
}

#[test]
fn page_with_a_nameless_case_fails_the_run_when_it_arrives() {
    let step = run_tests(URL, &None).expect("no pattern, no failure");
    let selection = step.next.launched(Ok(())).expect("the suite started").next;
    let page = vec![CaseDescriptor { name: None }, CaseDescriptor { name: Some("a".to_string()) }];
    match selection.page(Ok(page)) {
        Err(error) => assert_eq!(error, RunError::NamelessCase),
        Ok(_) => panic!("a case without a name cannot be asked for"),
    }
}
