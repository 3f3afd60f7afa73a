//! Choosing the cases to run: every case of the suite, or those whose name
//! a pattern matches. The pattern comes as text and is compiled before
//! anything else is done.

use crate::enumerate::Page;
use crate::error::{Failure, RunError};
use crate::model::{invocation_of, CaseDescriptor, Invocation, InvocationView};
use crate::pattern::{compiled, is_selected, passes};
use regex::Regex;
use vstd::prelude::*;

verus! {

/// The view of an optional text.
pub open spec fn text_of(text: Option<String>) -> Option<Seq<char>> {
    match text {
        Some(text) => Some(text@),
        None => None,
    }
}

/// The selector that the pattern text `tests` stands for, where it compiles.
pub open spec fn selector_of(tests: Option<Seq<char>>) -> Option<Regex> {
    match tests {
        Some(pattern) => Some(compiled(pattern)->Ok_0),
        None => None,
    }
}

/// Whether the pattern text `tests` can select cases: there is none, or it
/// compiles.
pub open spec fn usable(tests: Option<Seq<char>>) -> bool {
    match tests {
        Some(pattern) => compiled(pattern) is Ok,
        None => true,
    }
}

/// The failure that a run with a pattern that does not compile ends with:
/// it names the pattern and carries the reason.
pub open spec fn turned_down(pattern: Seq<char>) -> Failure {
    Failure::InvalidPattern { pattern, error: compiled(pattern)->Err_0 }
}

/// What the outcome of compiling `pattern` means for a run: the compiled
/// expression selects the cases, and a pattern that was turned down fails
/// the run, with the pattern and the reason.
pub fn selector_from(pattern: &str, outcome: Result<Regex, regex::Error>) -> (selector: Result<
    Regex,
    RunError,
>)
    ensures
        match outcome {
            Ok(expression) => selector == Ok::<Regex, RunError>(expression),
            Err(reason) => selector matches Err(error) && error@ == (Failure::InvalidPattern {
                pattern: pattern@,
                error: reason,
            }),
        },
{
    match outcome {
        Ok(expression) => Ok(expression),
        Err(reason) => Err(
            RunError::InvalidPattern { pattern: String::from_str(pattern), error: reason },
        ),
    }
}

/// Compiles the pattern that restricts a run, if there is one.
pub fn compile_selector(tests: &Option<String>) -> (outcome: Result<Option<Regex>, RunError>)
    ensures
        usable(text_of(*tests)) ==> outcome == Ok::<Option<Regex>, RunError>(
            selector_of(text_of(*tests)),
        ),
        !usable(text_of(*tests)) ==> (outcome matches Err(error) && error@ == turned_down(
            tests.unwrap()@,
        )),
{
    match tests {
        None => Ok(None),
        Some(pattern) => {
            match selector_from(pattern.as_str(), Regex::new(pattern.as_str())) {
                Ok(expression) => Ok(Some(expression)),
                Err(error) => Err(error),
            }
        },
    }
}

/// Holds of the cases that `selector` lets through.
pub open spec fn wanted(selector: Option<Regex>) -> spec_fn(Option<Seq<char>>) -> bool {
    |case: Option<Seq<char>>| case is Some && passes(selector, case.unwrap())
}

/// Turns a case into the request to run it.
pub open spec fn to_invocation() -> spec_fn(Option<Seq<char>>) -> InvocationView {
    |case: Option<Seq<char>>| invocation_of(case.unwrap())
}

/// The invocations that `selector` picks from `cases`: one for each case
/// that it lets through, in the order of the cases.
pub open spec fn selected(cases: Page, selector: Option<Regex>) -> Seq<InvocationView> {
    cases.filter(wanted(selector)).map_values(to_invocation())
}

/// Whether every case has a name.
pub open spec fn all_named(cases: Page) -> bool {
    forall|i: int| 0 <= i < cases.len() ==> (#[trigger] cases[i]) is Some
}

/// Tells whether every case has a name.
pub fn all_have_names(cases: &Vec<CaseDescriptor>) -> (named: bool)
    ensures
        named == all_named(cases.deep_view()),
{
    let mut i: usize = 0;
    while i < cases.len()
        invariant
            i <= cases.len(),
            forall|k: int| 0 <= k < i ==> (#[trigger] cases.deep_view()[k]) is Some,
        decreases cases.len() - i,
    {
        if cases[i].name.is_none() {
            assert(cases.deep_view()[i as int] is None);
            return false;
        }
        i += 1;
    }
    true
}

/// If every case of two lists has a name, so has every case of the two in
/// a row, and the other way round.
pub proof fn lemma_all_named_add(first: Page, second: Page)
    ensures
        all_named(first + second) <==> all_named(first) && all_named(second),
{
    if all_named(first + second) {
        assert forall|i: int| 0 <= i < first.len() implies (#[trigger] first[i]) is Some by {
            assert(first[i] == (first + second)[i]);
        }
        assert forall|i: int| 0 <= i < second.len() implies (#[trigger] second[i]) is Some by {
            assert(second[i] == (first + second)[first.len() + i]);
        }
    }
}

/// What becomes of the case called `name` once the selector has answered:
/// the request to run it if it was let through, nothing otherwise.
pub fn invocation_if(name: &str, let_through: bool) -> (invocation: Option<Invocation>)
    ensures
        let_through ==> (invocation matches Some(made) && made@ == invocation_of(name@)),
        !let_through ==> invocation is None,
{
    if let_through {
        Some(Invocation::of(String::from_str(name)))
    } else {
        None
    }
}

/// Picks from `cases` the ones to run, in their order. Without a selector
/// every case is picked; with one, those whose name it matches. A case
/// without a name cannot be asked for, so its presence fails the selection
/// as a whole, wherever it stands and whatever the selector.
pub fn get_invocations(cases: &Vec<CaseDescriptor>, selector: &Option<Regex>) -> (outcome: Result<
    Vec<Invocation>,
    RunError,
>)
    ensures
        all_named(cases.deep_view()) ==> (outcome matches Ok(invocations)
            && invocations.deep_view() == selected(cases.deep_view(), *selector)),
        !all_named(cases.deep_view()) ==> (outcome matches Err(error) && error@
            == Failure::NamelessCase),
{
    let mut invocations: Vec<Invocation> = Vec::new();
    let mut i: usize = 0;
    let ghost names = cases.deep_view();
    assert(Page::empty().filter(wanted(*selector)) =~= Page::empty()) by {
        reveal(Seq::filter);
    }
    while i < cases.len()
        invariant
            i <= cases.len(),
            names == cases.deep_view(),
            all_named(names.take(i as int)),
            invocations.deep_view() =~= selected(names.take(i as int), *selector),
        decreases cases.len() - i,
    {
        let ghost seen = names.take(i as int);
        assert(names.take(i + 1) =~= seen.push(names[i as int]));
        match &cases[i].name {
            None => return Err(RunError::NamelessCase),
            Some(name) => {
                proof {
                    seen.lemma_filter_push(names[i as int], wanted(*selector));
                    seen.filter(wanted(*selector)).lemma_push_map_commute(
                        to_invocation(),
                        names[i as int],
                    );
                    assert(all_named(names.take(i + 1)));
                }
                let let_through = is_selected(selector, name.as_str());
                if let Some(invocation) = invocation_if(name.as_str(), let_through) {
                    invocations.push(invocation);
                }
            },
        }
        i += 1;
    }
    assert(names.take(cases.len() as int) =~= names);
    Ok(invocations)
}

/// Without a selector every case is picked, unchanged and in order.
pub proof fn lemma_no_selector_picks_all(cases: Page)
    requires
        all_named(cases),
    ensures
        cases.filter(wanted(None)) == cases,
        selected(cases, None) == cases.map_values(to_invocation()),
        selected(cases, None).len() == cases.len(),
    decreases cases.len(),
{
    reveal(Seq::filter);
    if cases.len() > 0 {
        let front = cases.drop_last();
        assert(all_named(front));
        lemma_no_selector_picks_all(front);
    }
}

/// Where the selector lets no case through, nothing is picked.
pub proof fn lemma_no_match_picks_nothing(cases: Page, selector: Option<Regex>)
    requires
        forall|i: int|
            0 <= i < cases.len() ==> !((#[trigger] cases[i]) is Some && passes(
                selector,
                cases[i].unwrap(),
            )),
    ensures
        selected(cases, selector) == Seq::<InvocationView>::empty(),
{
    let kept = cases.filter(wanted(selector));
    broadcast use {Seq::lemma_filter_pred, Seq::lemma_filter_contains_rev};
    if kept.len() > 0 {
        assert(kept.contains(kept[0]));
    }
}

/// From a single case the selector picks the request to run it if the case
/// has a name that it lets through, and nothing otherwise.
pub proof fn lemma_selection_of_one(case: Option<Seq<char>>, selector: Option<Regex>)
    ensures
        selected(seq![case], selector) == if case is Some && passes(selector, case.unwrap()) {
            seq![invocation_of(case.unwrap())]
        } else {
            Seq::<InvocationView>::empty()
        },
{
    reveal(Seq::filter);
    Page::empty().lemma_filter_push(case, wanted(selector));
    assert(Page::empty().push(case) =~= seq![case]);
}

/// Selection goes case by case: picking from two lists in turn gives what
/// picking from their concatenation gives. Pages leave no trace in it.
pub proof fn lemma_selection_distributes(first: Page, second: Page, selector: Option<Regex>)
    ensures
        selected(first + second, selector) == selected(first, selector) + selected(
            second,
            selector,
        ),
{
    Seq::filter_distributes_over_add(first, second, wanted(selector));
    assert(selected(first + second, selector) =~= selected(first, selector) + selected(
        second,
        selector,
    ));
}

/// The selection holds exactly the cases that the selector lets through:
/// each invocation asks for one of them, and each of them is asked for.
pub proof fn lemma_selection_is_exact(cases: Page, selector: Option<Regex>)
    requires
        all_named(cases),
    ensures
        forall|k: int|
            0 <= k < selected(cases, selector).len() ==> {
                &&& cases.contains(Some((#[trigger] selected(cases, selector)[k]).name))
                &&& passes(selector, selected(cases, selector)[k].name)
                &&& selected(cases, selector)[k].tag is None
            },
        forall|i: int|
            0 <= i < cases.len() && passes(selector, (#[trigger] cases[i]).unwrap())
                ==> selected(cases, selector).contains(invocation_of(cases[i].unwrap())),
{
    let kept = cases.filter(wanted(selector));
    let picked = selected(cases, selector);
    broadcast use {
        Seq::lemma_filter_pred,
        Seq::lemma_filter_contains,
        Seq::lemma_filter_contains_rev,
    };
    assert forall|k: int| 0 <= k < picked.len() implies {
        &&& cases.contains(Some((#[trigger] picked[k]).name))
        &&& passes(selector, picked[k].name)
        &&& picked[k].tag is None
    } by {
        assert(kept.contains(kept[k]));
    }
    assert forall|i: int|
        0 <= i < cases.len() && passes(
            selector,
            (#[trigger] cases[i]).unwrap(),
        ) implies picked.contains(invocation_of(cases[i].unwrap())) by {
        assert(kept.contains(cases[i]));
        let j = choose|j: int| 0 <= j < kept.len() && kept[j] == cases[i];
        assert(picked[j] == invocation_of(cases[i].unwrap()));
    }
}

} // verus!
