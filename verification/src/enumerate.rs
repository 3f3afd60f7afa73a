//! Enumerating the cases of a suite. The suite hands its cases out in pages
//! of a size of its own choosing; a page without cases ends the enumeration.

use crate::error::{Failure, RunError};
use crate::model::CaseDescriptor;
use vstd::prelude::*;

verus! {

/// A page of cases, as a sequence of their names.
pub type Page = Seq<Option<Seq<char>>>;

/// The pages that an enumeration takes in: those that come before the first
/// empty page. Whatever follows the empty page is never asked for.
pub open spec fn consumed_pages(pages: Seq<Page>) -> Seq<Page>
    decreases pages.len(),
{
    if pages.len() == 0 || pages[0].len() == 0 {
        Seq::empty()
    } else {
        seq![pages[0]] + consumed_pages(pages.drop_first())
    }
}

/// The cases that an enumeration yields when the suite answers with `pages`:
/// the cases of the consumed pages, in the order in which they came.
pub open spec fn enumerated(pages: Seq<Page>) -> Page {
    consumed_pages(pages).flatten()
}

/// Whether every page holds at least one case.
pub open spec fn all_filled(pages: Seq<Page>) -> bool {
    forall|i: int| 0 <= i < pages.len() ==> (#[trigger] pages[i]).len() > 0
}

/// An enumeration in progress: it holds the cases of the pages received so
/// far and waits for the next page.
pub struct CaseEnumerator {
    cases: Vec<CaseDescriptor>,
}

/// Where an enumeration stands after a page.
pub enum Enumeration {
    /// The page held cases: the next page is to be asked for.
    More(CaseEnumerator),
    /// The page was empty: these are all the cases, in the suite's order.
    Complete(Vec<CaseDescriptor>),
}

impl CaseEnumerator {
    /// The cases received so far.
    pub closed spec fn collected(&self) -> Page {
        self.cases.deep_view()
    }

    /// An enumeration that has not received any page yet.
    pub fn new() -> (enumerator: CaseEnumerator)
        ensures
            enumerator.collected() == Page::empty(),
    {
        let cases: Vec<CaseDescriptor> = Vec::new();
        CaseEnumerator { cases }
    }

    /// Takes a page that the suite sent. An empty page completes the
    /// enumeration. Any other page is added to what was collected, and the
    /// next page is to be asked for.
    pub fn accept(self, page: Vec<CaseDescriptor>) -> (outcome: Enumeration)
        ensures
            if page.len() == 0 {
                outcome matches Enumeration::Complete(cases) && cases.deep_view()
                    == self.collected()
            } else {
                outcome matches Enumeration::More(next) && next.collected() == self.collected()
                    + page.deep_view()
            },
    {
        if page.len() == 0 {
            Enumeration::Complete(self.cases)
        } else {
            let mut cases = self.cases;
            let mut page = page;
            cases.append(&mut page);
            Enumeration::More(CaseEnumerator { cases })
        }
    }

    /// Takes the answer to a request for the next page. A failed request ends
    /// the enumeration with the failure, and no case is handed out: there is
    /// no partial result. A page that arrived is taken as [`Self::accept`]
    /// says.
    pub fn page(self, reply: Result<Vec<CaseDescriptor>, String>) -> (outcome: Result<
        Enumeration,
        RunError,
    >)
        ensures
            match reply {
                Err(cause) => outcome matches Err(error) && error@ == (Failure::Transport {
                    cause: cause@,
                }),
                Ok(page) => if page.len() == 0 {
                    outcome matches Ok(Enumeration::Complete(cases)) && cases.deep_view()
                        == self.collected()
                } else {
                    outcome matches Ok(Enumeration::More(next)) && next.collected()
                        == self.collected() + page.deep_view()
                },
            },
    {
        match reply {
            Err(cause) => Err(RunError::Transport { cause }),
            Ok(page) => Ok(self.accept(page)),
        }
    }
}

/// Enumerates the cases of a suite that answers the requests for the next
/// page with `pages`, one after the other. A suite that runs out of answers
/// before it has sent an empty page counts as having sent one.
pub fn enumerate(pages: Vec<Vec<CaseDescriptor>>) -> (cases: Vec<CaseDescriptor>)
    ensures
        cases.deep_view() == enumerated(pages.deep_view()),
{
    let ghost answers = pages.deep_view();
    let mut enumerator = CaseEnumerator::new();
    assert(answers.skip(0) =~= answers);
    for page in it: pages
        invariant
            it.seq() == pages@,
            answers == pages.deep_view(),
            enumerated(answers) == enumerator.collected() + enumerated(
                answers.skip(it.index() as int),
            ),
    {
        let ghost rest = answers.skip(it.index() as int);
        assert(rest.drop_first() =~= answers.skip(it.index() + 1));
        let ghost before = enumerator.collected();
        match enumerator.accept(page) {
            Enumeration::More(next) => {
                enumerator = next;
                proof {
                    let tail = consumed_pages(rest.drop_first());
                    assert((seq![rest[0]] + tail).drop_first() =~= tail);
                    assert(before + (rest[0] + enumerated(rest.drop_first())) =~= (before
                        + rest[0]) + enumerated(rest.drop_first()));
                }
            },
            Enumeration::Complete(cases) => return cases,
        }
    }
    enumerator.cases
}

/// Page-splitting is invisible. However the suite cuts its cases into pages
/// that each hold at least one case, the enumeration yields exactly those
/// cases, as many as there are and in the suite's order; what the suite
/// might send after the empty page plays no part.
pub proof fn lemma_paging_is_invisible(pages: Seq<Page>, later: Seq<Page>)
    requires
        all_filled(pages),
    ensures
        consumed_pages(pages + seq![Page::empty()] + later) == pages,
        enumerated(pages + seq![Page::empty()] + later) == pages.flatten(),
    decreases pages.len(),
{
    let answers = pages + seq![Page::empty()] + later;
    if pages.len() > 0 {
        let rest = pages.drop_first();
        assert(all_filled(rest));
        lemma_paging_is_invisible(rest, later);
        assert(answers.drop_first() =~= rest + seq![Page::empty()] + later);
    }
}

/// Two ways of cutting the same cases into pages give the same enumeration.
pub proof fn lemma_same_cases_same_enumeration(first: Seq<Page>, second: Seq<Page>)
    requires
        all_filled(first),
        all_filled(second),
        first.flatten() == second.flatten(),
    ensures
        enumerated(first.push(Page::empty())) == enumerated(second.push(Page::empty())),
{
    lemma_paging_is_invisible(first, Seq::empty());
    lemma_paging_is_invisible(second, Seq::empty());
    assert(first + seq![Page::empty()] + Seq::<Page>::empty() =~= first.push(Page::empty()));
    assert(second + seq![Page::empty()] + Seq::<Page>::empty() =~= second.push(Page::empty()));
}

} // verus!
