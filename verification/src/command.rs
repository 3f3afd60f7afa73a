//! The two commands of the tool: list the cases of a suite, or run them.

use crate::error::RunError;
use crate::listing::{get_tests, ListLaunch};
use crate::run::{launch_banner, run_tests, RunLaunch};
use crate::select::{text_of, turned_down, usable};
use crate::step::{silent, Step};
use vstd::prelude::*;

verus! {

/// What the user asked for: the suite at `url` is to be listed if `list` is
/// set, and run otherwise. `tests` is a pattern that restricts a run to the
/// cases whose name it matches; a listing takes no notice of it.
#[derive(Clone, Debug, PartialEq, Eq)]
pub struct TestCommand {
    pub url: String,
    pub tests: Option<String>,
    pub list: bool,
}

/// A command that has begun: it waits for the suite to start.
pub enum Session {
    Listing(ListLaunch),
    Running(RunLaunch),
}

/// Begins to carry out `cmd`.
///
/// A listing begins without a word. A run begins with the line that
/// announces the launch, unless its pattern does not compile: then it fails
/// before anything is asked of the remote side.
pub fn test(cmd: &TestCommand) -> (outcome: Result<Step<Session>, RunError>)
    ensures
        cmd.list ==> {
            &&& outcome matches Ok(step)
            &&& step.lines.deep_view() == Seq::<Seq<char>>::empty()
            &&& step.next matches Session::Listing(launch)
            &&& launch.suite() == cmd.url@
        },
        !cmd.list && usable(text_of(cmd.tests)) ==> {
            &&& outcome matches Ok(step)
            &&& step.lines.deep_view() == seq![launch_banner(cmd.url@)]
            &&& step.next matches Session::Running(launch)
            &&& launch.suite() == cmd.url@
            &&& launch.pattern() == text_of(cmd.tests)
        },
        !cmd.list && !usable(text_of(cmd.tests)) ==> (outcome matches Err(error) && error@
            == turned_down(cmd.tests.unwrap()@)),
{
    if cmd.list {
        Ok(silent(Session::Listing(get_tests(cmd.url.as_str()))))
    } else {
        match run_tests(cmd.url.as_str(), &cmd.tests) {
            Err(error) => Err(error),
            Ok(step) => Ok(Step { lines: step.lines, next: Session::Running(step.next) }),
        }
    }
}

} // verus!
