//! The data exchanged with a remote suite, and the mathematical views that
//! the contracts of this crate are stated over.

use vstd::prelude::*;

verus! {

/// Placeholder shown for a case that the suite reported without a name.
pub open spec fn no_name() -> Seq<char> {
    "<No name>"@
}

/// A test case as the remote suite describes it. The name may be missing.
#[derive(Clone, Debug, PartialEq, Eq)]
pub struct CaseDescriptor {
    pub name: Option<String>,
}

impl View for CaseDescriptor {
    type V = Option<Seq<char>>;

    open spec fn view(&self) -> Option<Seq<char>> {
        match self.name {
            Some(name) => Some(name@),
            None => None,
        }
    }
}

impl DeepView for CaseDescriptor {
    type V = Option<Seq<char>>;

    open spec fn deep_view(&self) -> Option<Seq<char>> {
        self@
    }
}

impl CaseDescriptor {
    /// A descriptor carrying `name`.
    pub fn named(name: String) -> (case: CaseDescriptor)
        ensures
            case@ == Some(name@),
    {
        CaseDescriptor { name: Some(name) }
    }

    /// The name to show for this case: its own, or the placeholder.
    pub fn display_name(&self) -> (shown: String)
        ensures
            shown@ == shown_name(self@),
    {
        match &self.name {
            Some(name) => name.clone(),
            None => String::from_str("<No name>"),
        }
    }
}

/// What a listing shows for a case.
pub open spec fn shown_name(case: Option<Seq<char>>) -> Seq<char> {
    match case {
        Some(name) => name,
        None => no_name(),
    }
}

/// A request to run one named case. The tag is left unset by this library.
#[derive(Clone, Debug, PartialEq, Eq)]
pub struct Invocation {
    pub name: String,
    pub tag: Option<String>,
}

/// Mathematical view of an [`Invocation`].
pub struct InvocationView {
    pub name: Seq<char>,
    pub tag: Option<Seq<char>>,
}

impl View for Invocation {
    type V = InvocationView;

    open spec fn view(&self) -> InvocationView {
        InvocationView {
            name: self.name@,
            tag: match self.tag {
                Some(tag) => Some(tag@),
                None => None,
            },
        }
    }
}

impl DeepView for Invocation {
    type V = InvocationView;

    open spec fn deep_view(&self) -> InvocationView {
        self@
    }
}

/// The invocation that asks for the case called `name`.
pub open spec fn invocation_of(name: Seq<char>) -> InvocationView {
    InvocationView { name, tag: None }
}

impl Invocation {
    /// The invocation that asks for the case called `name`.
    pub fn of(name: String) -> (invocation: Invocation)
        ensures
            invocation@ == invocation_of(name@),
    {
        Invocation { name, tag: None }
    }
}

/// How a case ended.
#[derive(Clone, Copy, Debug, PartialEq, Eq)]
pub enum CaseResult {
    Passed,
    Failed,
    Skipped,
    Error,
}

/// A notification about the progress of a running suite.
#[derive(Clone, Debug, PartialEq, Eq)]
pub enum LifecycleEvent {
    /// Output of a case. The text may hold several lines.
    LogMessage { case_name: String, text: String },
    /// The suite began to run a case.
    CaseStarted { case_name: String },
    /// A case ended with `result`.
    CaseFinished { case_name: String, result: CaseResult },
    /// The suite has no more events.
    Finish,
}

/// Mathematical view of a [`LifecycleEvent`].
pub enum Event {
    LogMessage { case_name: Seq<char>, text: Seq<char> },
    CaseStarted { case_name: Seq<char> },
    CaseFinished { case_name: Seq<char>, result: CaseResult },
    Finish,
}

impl View for LifecycleEvent {
    type V = Event;

    open spec fn view(&self) -> Event {
        match self {
            LifecycleEvent::LogMessage { case_name, text } => Event::LogMessage {
                case_name: case_name@,
                text: text@,
            },
            LifecycleEvent::CaseStarted { case_name } => Event::CaseStarted {
                case_name: case_name@,
            },
            LifecycleEvent::CaseFinished { case_name, result } => Event::CaseFinished {
                case_name: case_name@,
                result: *result,
            },
            LifecycleEvent::Finish => Event::Finish,
        }
    }
}

impl DeepView for LifecycleEvent {
    type V = Event;

    open spec fn deep_view(&self) -> Event {
        self@
    }
}

} // verus!
