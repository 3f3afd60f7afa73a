use suite_runner::model::{CaseDescriptor, Invocation};

#[test]
fn case_shows_its_name_or_the_placeholder() {
    assert_eq!(CaseDescriptor::named("Test 1".to_string()).display_name(), "Test 1");
    assert_eq!(CaseDescriptor { name: None }.display_name(), "<No name>");
    assert_eq!(CaseDescriptor { name: Some(String::new()) }.display_name(), "");
}

#[test]
fn invocation_asks_for_a_case_by_name_and_has_no_tag() {
    assert_eq!(
        Invocation::of("Test 1".to_string()),
        Invocation { name: "Test 1".to_string(), tag: None }
    );
}
