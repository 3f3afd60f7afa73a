use regex::Regex;
use suite_runner::error::RunError;
use suite_runner::launch::LaunchFailure;
use suite_runner::listing::{get_tests, list_names, list_page, Listing};
use suite_runner::model::CaseDescriptor;
use suite_runner::text::write_lines;

fn named(name: &str) -> CaseDescriptor {
    CaseDescriptor { name: Some(name.to_string()) }
}

/// Lists a suite that sends `pages` and returns what was written.
fn list_against(url: &str, pages: Vec<Vec<CaseDescriptor>>) -> Result<Vec<String>, RunError> {
    let mut output: Vec<String> = Vec::new();
    let mut listing: Listing = get_tests(url).launched(Ok(()))?;
    let mut pages = pages.into_iter();
    loop {
        let page = pages.next().expect("the suite was asked for a page after its last");
        let step = listing.page(Ok(page))?;
        output.extend(step.lines);
        match step.next {
            Some(next) => listing = next,
            None => return Ok(output),
        }
    }
}

#[test]
fn test_list_tests() {
    let url = "fuchsia-pkg://fuchsia.com/dummy-package#meta/echo_test_realm.cm".to_string();
    let num_tests = 50;
    let test = Regex::new(r"Test [0-9+]").expect("test regex");
    let cases: Vec<CaseDescriptor> =
        (0..num_tests).map(|i| named(&format!("Test {}", i))).collect();
    let lines = list_against(&url, vec![cases, Vec::new()]).expect("getting tests should not fail");
    let output = write_lines(&lines);
    assert_eq!(num_tests, test.find_iter(&output).count());
}

#[test]
fn page_is_listed_under_a_heading_and_an_empty_line() {
    let page = vec![named("first"), CaseDescriptor { name: None }, named("third")];
    let lines = list_page("suite-url", &page);
    assert_eq!(
        lines,
        vec![
            "Tests in suite suite-url:".to_string(),
            "".to_string(),
            "first".to_string(),
            "<No name>".to_string(),
            "third".to_string(),
        ]
    );
    assert_eq!(write_lines(&lines), "Tests in suite suite-url:\n\nfirst\n<No name>\nthird\n");
}

#[test]
fn heading_is_printed_once_however_many_pages_come() {
    let lines = list_against("u", vec![vec![named("a"), named("b")], vec![named("c")], Vec::new()])
        .expect("getting tests should not fail");
    assert_eq!(
        lines,
        vec!["Tests in suite u:", "", "a", "b", "c"]
            .into_iter()
            .map(String::from)
            .collect::<Vec<_>>()
    );
}

#[test]
fn listing_is_the_same_however_the_cases_are_cut_into_pages() {
    let cases: Vec<CaseDescriptor> = (0..7).map(|i| named(&format!("Test {}", i))).collect();
    let in_one = list_against("u", vec![cases.clone(), Vec::new()]).unwrap();
    assert_eq!(in_one, list_page("u", &cases));
    for page_size in [1usize, 2, 3, 6, 7, 50] {
        let mut pages: Vec<Vec<CaseDescriptor>> =
            cases.chunks(page_size).map(|chunk| chunk.to_vec()).collect();
        pages.push(Vec::new());
        assert_eq!(list_against("u", pages).unwrap(), in_one);
    }
}

#[test]
fn later_pages_print_their_names_only() {
    let listing = get_tests("u").launched(Ok(())).unwrap();
    let first = listing.page(Ok(vec![named("a")])).unwrap();
    assert_eq!(first.lines, vec!["Tests in suite u:".to_string(), "".to_string(), "a".to_string()]);
    let second = first.next.unwrap().page(Ok(vec![CaseDescriptor { name: None }, named("b")]));
    assert_eq!(second.unwrap().lines, vec!["<No name>".to_string(), "b".to_string()]);
}

#[test]
fn names_are_listed_one_to_a_line() {
    assert_eq!(
        list_names(&vec![named("x"), CaseDescriptor { name: None }]),
        vec!["x".to_string(), "<No name>".to_string()]
    );
    assert!(list_names(&Vec::new()).is_empty());
}

#[test]
fn suite_without_cases_lists_nothing() {
    let lines = list_against("u", vec![Vec::new()]).expect("getting tests should not fail");
    assert!(lines.is_empty());
}

#[test]
fn listing_ends_at_the_first_empty_page() {
    let step = get_tests("u").launched(Ok(())).unwrap().page(Ok(Vec::new())).unwrap();
    assert!(step.next.is_none());
    assert!(step.lines.is_empty());
}

#[test]
fn listing_fails_when_the_launch_is_refused() {
    match get_tests("u").launched(Err(LaunchFailure::Refused("CannotResolve".to_string()))) {
        Err(error) => assert_eq!(error, RunError::Launch { reason: "CannotResolve".to_string() }),
        Ok(_) => panic!("the launch was refused"),
    }
    match get_tests("u").launched(Err(LaunchFailure::Transport("PEER_CLOSED".to_string()))) {
        Err(error) => assert_eq!(error, RunError::Transport { cause: "PEER_CLOSED".to_string() }),
        Ok(_) => panic!("the launch did not get through"),
    }
}

#[test]
fn listing_fails_when_a_page_request_fails() {
    let listing = get_tests("u").launched(Ok(())).unwrap();
    let listing = listing.page(Ok(vec![named("a")])).unwrap().next.unwrap();
    match listing.page(Err("PEER_CLOSED".to_string())) {
        Err(error) => assert_eq!(error, RunError::Transport { cause: "PEER_CLOSED".to_string() }),
        Ok(_) => panic!("the request failed"),
    }
}
