//! Running a suite. A run goes through four states in turn: the suite is
//! started, its cases are enumerated and selected, the selected cases run
//! while their events are reported, and the outcome of the task that drove
//! the suite is checked against what the report has seen.
//!
//! Each state is a value that only the step before it hands out, so no step
//! can be taken out of turn: nothing is asked of the remote side before the
//! pattern has compiled, and no suite is run without a case to run.

use crate::enumerate::{CaseEnumerator, Enumeration, Page};
use crate::error::{Failure, RunError};
use crate::launch::{check_launch, launch_failure, LaunchFailure};
use crate::model::{CaseDescriptor, Event, Invocation, LifecycleEvent};
use crate::report::{event_lines, saw_finish, Aggregation, Aggregator, Summary};
use crate::select::{
    all_have_names, all_named, compile_selector, get_invocations, lemma_all_named_add, selected,
    selector_of, text_of, turned_down, usable,
};
use crate::step::{saying, silent, Step};
use regex::Regex;
use vstd::prelude::*;

verus! {

/// The line that announces that the suite at `url` is being started.
pub open spec fn launch_banner(url: Seq<char>) -> Seq<char> {
    "*** Launching "@ + url + " ***"@
}

/// The line that announces that the cases are being asked for.
pub open spec fn getting_tests_line() -> Seq<char> {
    "Getting tests..."@
}

/// The line that announces that the selected cases are being run.
pub open spec fn running_tests_line() -> Seq<char> {
    "Running tests..."@
}

/// The line that announces that the run of the suite at `url` ended well.
pub open spec fn finish_banner(url: Seq<char>) -> Seq<char> {
    "*** Finished "@ + url + " ***"@
}

/// The line that tells why nothing is run: no case matched the pattern, or,
/// where no pattern was given, the suite at `url` has no case at all.
pub open spec fn nothing_to_run_line(url: Seq<char>, pattern: Option<Seq<char>>) -> Seq<char> {
    match pattern {
        Some(pattern) => "No test cases match "@ + pattern,
        None => "No tests cases found in suite "@ + url,
    }
}

/// A run that waits for the suite to start.
pub struct RunLaunch {
    url: String,
    pattern: Option<String>,
    selector: Option<Regex>,
}

/// A run that waits for the next page of cases. Every case that it has
/// received so far has a name.
pub struct Selection {
    url: String,
    pattern: Option<String>,
    selector: Option<Regex>,
    enumerator: CaseEnumerator,
}

/// A run whose cases are running: it waits for the next event.
pub struct Execution {
    url: String,
    aggregator: Aggregator,
}

/// A run whose events have been consumed: it waits for the outcome of the
/// task that drove the suite.
pub struct Completion {
    url: String,
    summary: Summary,
}

/// Where a run stands after a page of cases.
pub enum Selected {
    /// The page held cases: the next page is to be asked for.
    More(Selection),
    /// The suite has no case to run. The run is over, and it went well.
    NothingToRun,
    /// These cases, of which there is at least one, are to be run.
    Run(Execution, Vec<Invocation>),
}

/// Where a run stands after an event.
pub enum Progress {
    /// The next event is to be waited for.
    More(Execution),
    /// No more events are consumed: the outcome of the task is to be
    /// waited for.
    Drained(Completion),
}

impl RunLaunch {
    #[verifier::type_invariant]
    spec fn compiled_from_pattern(self) -> bool {
        &&& usable(text_of(self.pattern))
        &&& self.selector == selector_of(text_of(self.pattern))
    }

    /// The suite to run.
    pub closed spec fn suite(&self) -> Seq<char> {
        self.url@
    }

    /// The text of the pattern that restricts the run, if there is one.
    pub closed spec fn pattern(&self) -> Option<Seq<char>> {
        text_of(self.pattern)
    }

    /// Takes the answer to the launch request. If the suite started, its
    /// first page of cases is to be asked for; if not, the run fails with
    /// the reason.
    pub fn launched(self, reply: Result<(), LaunchFailure>) -> (outcome: Result<
        Step<Selection>,
        RunError,
    >)
        ensures
            usable(self.pattern()),
            match reply {
                Ok(_) => {
                    &&& outcome matches Ok(step)
                    &&& step.lines.deep_view() == seq![getting_tests_line()]
                    &&& step.next.suite() == self.suite()
                    &&& step.next.pattern() == self.pattern()
                    &&& step.next.collected() == Page::empty()
                },
                Err(failure) => outcome matches Err(error) && error@ == launch_failure(failure),
            },
    {
        proof {
            use_type_invariant(&self);
        }
        match check_launch(reply) {
            Ok(_) => Ok(
                saying(
                    String::from_str("Getting tests..."),
                    Selection {
                        url: self.url,
                        pattern: self.pattern,
                        selector: self.selector,
                        enumerator: CaseEnumerator::new(),
                    },
                ),
            ),
            Err(error) => Err(error),
        }
    }
}

impl Selection {
    #[verifier::type_invariant]
    spec fn sound(self) -> bool {
        &&& usable(text_of(self.pattern))
        &&& self.selector == selector_of(text_of(self.pattern))
        &&& all_named(self.enumerator.collected())
    }

    /// The suite to run.
    pub closed spec fn suite(&self) -> Seq<char> {
        self.url@
    }

    /// The text of the pattern that restricts the run, if there is one.
    pub closed spec fn pattern(&self) -> Option<Seq<char>> {
        text_of(self.pattern)
    }

    /// The cases received so far.
    pub closed spec fn collected(&self) -> Page {
        self.enumerator.collected()
    }

    /// Takes the answer to a request for the next page of cases.
    ///
    /// A failed request fails the run, and so does a page with a case that
    /// has no name: such a case cannot be asked for. Any other page with
    /// cases is added to what was collected, and the next page is to be
    /// asked for. The empty page completes the enumeration, and the cases to
    /// run are picked from all that was collected, by the pattern of the run:
    /// if no case is picked, the run is over with a line that says so;
    /// otherwise the picked cases are to be run.
    pub fn page(self, reply: Result<Vec<CaseDescriptor>, String>) -> (outcome: Result<
        Step<Selected>,
        RunError,
    >)
        ensures
            usable(self.pattern()),
            all_named(self.collected()),
            match reply {
                Err(cause) => outcome matches Err(error) && error@ == (Failure::Transport {
                    cause: cause@,
                }),
                Ok(page) => if !all_named(page.deep_view()) {
                    outcome matches Err(error) && error@ == Failure::NamelessCase
                } else if page.len() > 0 {
                    &&& outcome matches Ok(step)
                    &&& step.lines.deep_view() == Seq::<Seq<char>>::empty()
                    &&& step.next matches Selected::More(next)
                    &&& next.suite() == self.suite()
                    &&& next.pattern() == self.pattern()
                    &&& next.collected() == self.collected() + page.deep_view()
                } else if selected(self.collected(), selector_of(self.pattern())).len() == 0 {
                    &&& outcome matches Ok(step)
                    &&& step.lines.deep_view() == seq![
                        nothing_to_run_line(self.suite(), self.pattern()),
                    ]
                    &&& step.next is NothingToRun
                } else {
                    &&& outcome matches Ok(step)
                    &&& step.lines.deep_view() == seq![running_tests_line()]
                    &&& step.next matches Selected::Run(execution, invocations)
                    &&& execution.suite() == self.suite()
                    &&& execution.consumed() == Seq::<Event>::empty()
                    &&& invocations.len() > 0
                    &&& invocations.deep_view() == selected(
                        self.collected(),
                        selector_of(self.pattern()),
                    )
                },
            },
    {
        proof {
            use_type_invariant(&self);
        }
        let Selection { url, pattern, selector, enumerator } = self;
        let page = match reply {
            Err(cause) => return Err(RunError::Transport { cause }),
            Ok(page) => page,
        };
        if !all_have_names(&page) {
            return Err(RunError::NamelessCase);
        }
        proof {
            lemma_all_named_add(enumerator.collected(), page.deep_view());
        }
        match enumerator.accept(page) {
            Enumeration::More(enumerator) => Ok(
                silent(Selected::More(Selection { url, pattern, selector, enumerator })),
            ),
            Enumeration::Complete(cases) => {
                match get_invocations(&cases, &selector) {
                    Err(error) => Err(error),
                    Ok(invocations) => {
                        if invocations.len() == 0 {
                            let line = match &pattern {
                                Some(pattern) => {
                                    let mut line = String::from_str("No test cases match ");
                                    line.append(pattern.as_str());
                                    line
                                },
                                None => {
                                    let mut line = String::from_str(
                                        "No tests cases found in suite ",
                                    );
                                    line.append(url.as_str());
                                    line
                                },
                            };
                            Ok(saying(line, Selected::NothingToRun))
                        } else {
                            Ok(
                                saying(
                                    String::from_str("Running tests..."),
                                    Selected::Run(
                                        Execution { url, aggregator: Aggregator::new() },
                                        invocations,
                                    ),
                                ),
                            )
                        }
                    },
                }
            },
        }
    }
}

impl Execution {
    /// The suite that runs.
    pub closed spec fn suite(&self) -> Seq<char> {
        self.url@
    }

    /// The events consumed so far, in the order of delivery.
    pub closed spec fn consumed(&self) -> Seq<Event> {
        self.aggregator.consumed()
    }

    /// Takes what the event source delivered: an event, or nothing where
    /// the source has closed.
    ///
    /// `Finish` ends the consumption: the run completed cleanly. A closed
    /// source ends it too, but then the run did not complete cleanly. Any
    /// other event is reported at once, and the next event is to be waited
    /// for.
    pub fn event(self, delivered: Option<LifecycleEvent>) -> (step: Step<Progress>)
        ensures
            !saw_finish(self.consumed()),
            match delivered {
                None => {
                    &&& step.lines.deep_view() == Seq::<Seq<char>>::empty()
                    &&& step.next matches Progress::Drained(completion)
                    &&& completion.suite() == self.suite()
                    &&& completion.consumed() == self.consumed()
                },
                Some(event) => if event@ is Finish {
                    &&& step.lines.deep_view() == Seq::<Seq<char>>::empty()
                    &&& step.next matches Progress::Drained(completion)
                    &&& completion.suite() == self.suite()
                    &&& completion.consumed() == self.consumed().push(event@)
                } else {
                    &&& step.lines.deep_view() == event_lines(event@)
                    &&& step.next matches Progress::More(execution)
                    &&& execution.suite() == self.suite()
                    &&& execution.consumed() == self.consumed().push(event@)
                },
            },
    {
        let Execution { url, aggregator } = self;
        match delivered {
            None => silent(Progress::Drained(Completion { url, summary: aggregator.closed() })),
            Some(event) => {
                let step = aggregator.event(event);
                let next = match step.next {
                    Aggregation::More(aggregator) => Progress::More(Execution { url, aggregator }),
                    Aggregation::Drained(summary) => Progress::Drained(
                        Completion { url, summary },
                    ),
                };
                Step { lines: step.lines, next }
            },
        }
    }
}

/// How a run ends, given whether its report saw `Finish` and what the task
/// that drove the suite came back with: a failure of the task is reported
/// whatever the report saw, and a task that went well is not enough where
/// the report never saw `Finish`.
pub open spec fn verdict(
    url: Seq<char>,
    completed_cleanly: bool,
    task: Result<(), Seq<char>>,
) -> Result<Seq<Seq<char>>, Failure> {
    match task {
        Err(cause) => Err(Failure::Execution { cause }),
        Ok(_) => if completed_cleanly {
            Ok(seq![finish_banner(url)])
        } else {
            Err(Failure::PrematureTermination)
        },
    }
}

/// The view of what the task came back with.
pub open spec fn task_view(task: Result<(), String>) -> Result<(), Seq<char>> {
    match task {
        Ok(_) => Ok(()),
        Err(cause) => Err(cause@),
    }
}

impl Completion {
    /// The suite that ran.
    pub closed spec fn suite(&self) -> Seq<char> {
        self.url@
    }

    /// The events that were consumed, in the order of delivery.
    pub closed spec fn consumed(&self) -> Seq<Event> {
        self.summary.consumed()
    }

    /// Whether the run completed cleanly: whether `Finish` was consumed.
    pub fn completed_cleanly(&self) -> (clean: bool)
        ensures
            clean == saw_finish(self.consumed()),
    {
        self.summary.completed_cleanly()
    }

    /// Takes the outcome of the task that drove the suite, and ends the run:
    /// with the closing line if the task went well and `Finish` was consumed,
    /// with a failure otherwise.
    pub fn finished(self, task: Result<(), String>) -> (outcome: Result<Vec<String>, RunError>)
        ensures
            match verdict(self.suite(), saw_finish(self.consumed()), task_view(task)) {
                Ok(lines) => outcome matches Ok(written) && written.deep_view() == lines,
                Err(failure) => outcome matches Err(error) && error@ == failure,
            },
    {
        match task {
            Err(cause) => Err(RunError::Execution { cause }),
            Ok(_) => {
                if self.summary.completed_cleanly() {
                    let mut line = String::from_str("*** Finished ");
                    line.append(self.url.as_str());
                    line.append(" ***");
                    let mut lines: Vec<String> = Vec::new();
                    lines.push(line);
                    Ok(lines)
                } else {
                    Err(RunError::PrematureTermination)
                }
            },
        }
    }
}

/// A run whose events ended without `Finish` fails, whatever was reported
/// before and however the task ended; where the task itself went well, the
/// failure is the premature end.
pub proof fn lemma_premature_end_fails(
    url: Seq<char>,
    events: Seq<Event>,
    task: Result<(), Seq<char>>,
)
    requires
        !saw_finish(events),
    ensures
        verdict(url, saw_finish(events), task) is Err,
        task is Ok ==> verdict(url, saw_finish(events), task) == Err::<
            Seq<Seq<char>>,
            Failure,
        >(Failure::PrematureTermination),
{
}

/// A run ends well exactly when the task went well and `Finish` was among
/// the events.
pub proof fn lemma_success_needs_both(
    url: Seq<char>,
    events: Seq<Event>,
    task: Result<(), Seq<char>>,
)
    ensures
        verdict(url, saw_finish(events), task) is Ok <==> task is Ok && saw_finish(events),
{
}

/// Begins a run of the suite at `suite_url`, restricted to the cases whose
/// name the pattern `tests` matches, if one is given.
///
/// A pattern that does not compile fails the run here, before anything is
/// asked of the remote side. Otherwise the launch is announced, and the
/// suite is to be started.
pub fn run_tests(suite_url: &str, tests: &Option<String>) -> (outcome: Result<
    Step<RunLaunch>,
    RunError,
>)
    ensures
        usable(text_of(*tests)) ==> {
            &&& outcome matches Ok(step)
            &&& step.lines.deep_view() == seq![launch_banner(suite_url@)]
            &&& step.next.suite() == suite_url@
            &&& step.next.pattern() == text_of(*tests)
        },
        !usable(text_of(*tests)) ==> (outcome matches Err(error) && error@ == turned_down(
            tests.unwrap()@,
        )),
{
    match compile_selector(tests) {
        Err(error) => Err(error),
        Ok(selector) => {
            let mut banner = String::from_str("*** Launching ");
            banner.append(suite_url);
            banner.append(" ***");
            let launch = RunLaunch {
                url: String::from_str(suite_url),
                pattern: tests.clone(),
                selector,
            };
            Ok(saying(banner, launch))
        },
    }
}

} // verus!
