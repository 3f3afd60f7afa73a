//! Listing the cases of a suite: the suite is started, its cases are asked
//! for page by page, and the names are printed as the pages arrive, under
//! one heading. How the suite cuts its cases into pages leaves no trace in
//! what is printed.

use crate::enumerate::{all_filled, Page};
use crate::error::{Failure, RunError};
use crate::launch::{check_launch, launch_failure, LaunchFailure};
use crate::model::{shown_name, CaseDescriptor};
use crate::step::{silent, Step};
use vstd::prelude::*;

verus! {

/// The heading of the listing of the suite at `url`.
pub open spec fn heading(url: Seq<char>) -> Seq<char> {
    "Tests in suite "@ + url + ":"@
}

/// What a listing shows for a case.
pub open spec fn shown() -> spec_fn(Option<Seq<char>>) -> Seq<char> {
    |case: Option<Seq<char>>| shown_name(case)
}

/// The lines that list `cases` under the heading: the heading, an empty
/// line, and then a line for each case with its name, or with a placeholder
/// if it has none.
pub open spec fn page_listing(url: Seq<char>, cases: Page) -> Seq<Seq<char>> {
    seq![heading(url), Seq::empty()] + cases.map_values(shown())
}

/// The whole listing of a suite with these cases: nothing at all if there
/// is no case, and otherwise the cases under the heading.
pub open spec fn whole_listing(url: Seq<char>, cases: Page) -> Seq<Seq<char>> {
    if cases.len() == 0 {
        Seq::empty()
    } else {
        page_listing(url, cases)
    }
}

/// The lines that are printed when `page` arrives after the cases `before`
/// have been listed: the names of the page, under the heading if these are
/// the first names of the listing.
pub open spec fn page_lines(url: Seq<char>, before: Page, page: Page) -> Seq<Seq<char>> {
    if page.len() == 0 {
        Seq::empty()
    } else if before.len() > 0 {
        page.map_values(shown())
    } else {
        page_listing(url, page)
    }
}

/// The lines that are printed, page after page, when the suite answers with
/// `pages` after the cases `before` have been listed. The first empty page
/// ends the listing.
pub open spec fn listing_lines(url: Seq<char>, before: Page, pages: Seq<Page>) -> Seq<Seq<char>>
    decreases pages.len(),
{
    if pages.len() == 0 || pages[0].len() == 0 {
        Seq::empty()
    } else {
        page_lines(url, before, pages[0]) + listing_lines(
            url,
            before + pages[0],
            pages.drop_first(),
        )
    }
}

/// The lines that show the names of `page`, one line for each case.
pub fn list_names(page: &Vec<CaseDescriptor>) -> (lines: Vec<String>)
    ensures
        lines.deep_view() == page.deep_view().map_values(shown()),
{
    let mut lines: Vec<String> = Vec::new();
    let ghost names = page.deep_view();
    let mut i: usize = 0;
    while i < page.len()
        invariant
            i <= page.len(),
            names == page.deep_view(),
            lines.deep_view() =~= names.take(i as int).map_values(shown()),
        decreases page.len() - i,
    {
        let line = page[i].display_name();
        proof {
            names.lemma_map_take_succ(shown(), i as int);
        }
        lines.push(line);
        i += 1;
    }
    lines
}

/// The lines that list `page` under the heading of the suite at `url`.
pub fn list_page(url: &str, page: &Vec<CaseDescriptor>) -> (lines: Vec<String>)
    ensures
        lines.deep_view() == page_listing(url@, page.deep_view()),
{
    let mut title = String::from_str("Tests in suite ");
    title.append(url);
    title.append(":");
    let mut lines: Vec<String> = Vec::new();
    lines.push(title);
    lines.push(String::new());
    let mut names = list_names(page);
    lines.append(&mut names);
    lines
}

/// A listing that waits for the suite to start.
pub struct ListLaunch {
    url: String,
}

/// A listing that waits for the next page of cases. It knows whether it has
/// printed its heading: it has, as soon as it has listed a case.
pub struct Listing {
    url: String,
    begun: bool,
    seen: Ghost<Page>,
}

impl ListLaunch {
    /// The suite to list.
    pub closed spec fn suite(&self) -> Seq<char> {
        self.url@
    }

    /// Takes the answer to the launch request. If the suite started, its
    /// first page is to be asked for, and nothing has been listed yet; if
    /// not, the listing fails with the reason.
    pub fn launched(self, reply: Result<(), LaunchFailure>) -> (outcome: Result<Listing, RunError>)
        ensures
            match reply {
                Ok(_) => {
                    &&& outcome matches Ok(listing)
                    &&& listing.suite() == self.suite()
                    &&& listing.listed() == Page::empty()
                    &&& !listing.begun()
                },
                Err(failure) => outcome matches Err(error) && error@ == launch_failure(failure),
            },
    {
        match check_launch(reply) {
            Ok(_) => Ok(Listing { url: self.url, begun: false, seen: Ghost(Seq::empty()) }),
            Err(error) => Err(error),
        }
    }
}

impl Listing {
    #[verifier::type_invariant]
    spec fn heading_goes_first(self) -> bool {
        self.begun == (self.seen@.len() > 0)
    }

    /// The suite that is listed.
    pub closed spec fn suite(&self) -> Seq<char> {
        self.url@
    }

    /// The cases listed so far, in the order in which they came.
    pub closed spec fn listed(&self) -> Page {
        self.seen@
    }

    /// Whether the heading has been printed: whether a case has been listed.
    pub open spec fn begun(&self) -> bool {
        self.listed().len() > 0
    }

    /// Takes the answer to a request for the next page. An empty page ends
    /// the listing and prints nothing. Any other page has its names printed,
    /// under the heading if they are the first of the listing, and the next
    /// page is to be asked for. A failed request ends the listing with the
    /// failure.
    ///
    /// What has been printed after a page is the whole listing of the cases
    /// received up to it, however they were cut into pages.
    pub fn page(self, reply: Result<Vec<CaseDescriptor>, String>) -> (outcome: Result<
        Step<Option<Listing>>,
        RunError,
    >)
        ensures
            match reply {
                Err(cause) => outcome matches Err(error) && error@ == (Failure::Transport {
                    cause: cause@,
                }),
                Ok(page) => outcome matches Ok(step) && if page.len() == 0 {
                    &&& step.next is None
                    &&& step.lines.deep_view() == Seq::<Seq<char>>::empty()
                } else {
                    &&& step.next matches Some(next) && next.suite() == self.suite()
                        && next.listed() == self.listed() + page.deep_view() && next.begun()
                    &&& step.lines.deep_view() == page_lines(
                        self.suite(),
                        self.listed(),
                        page.deep_view(),
                    )
                    &&& whole_listing(self.suite(), self.listed()) + step.lines.deep_view()
                        == whole_listing(self.suite(), self.listed() + page.deep_view())
                },
            },
    {
        proof {
            use_type_invariant(&self);
        }
        match reply {
            Err(cause) => Err(RunError::Transport { cause }),
            Ok(page) => {
                if page.len() == 0 {
                    Ok(silent(None))
                } else {
                    let lines = if self.begun {
                        list_names(&page)
                    } else {
                        list_page(self.url.as_str(), &page)
                    };
                    proof {
                        lemma_listing_grows(self.url@, self.seen@, page.deep_view());
                    }
                    let next = Listing {
                        url: self.url,
                        begun: true,
                        seen: Ghost(self.seen@ + page.deep_view()),
                    };
                    Ok(Step { lines, next: Some(next) })
                }
            },
        }
    }
}

/// A page with cases adds exactly its own lines to the end of the listing:
/// what stood there with what the page prints is the whole listing of the
/// cases before it and its own.
pub proof fn lemma_listing_grows(url: Seq<char>, before: Page, page: Page)
    requires
        page.len() > 0,
    ensures
        whole_listing(url, before) + page_lines(url, before, page) == whole_listing(
            url,
            before + page,
        ),
{
    assert((before + page).map_values(shown()) =~= before.map_values(shown()) + page.map_values(
        shown(),
    ));
    assert(whole_listing(url, before) + page_lines(url, before, page) =~= whole_listing(
        url,
        before + page,
    ));
}

/// A listing that goes on after the cases `before` ends as the whole
/// listing of those cases and of all that the pages bring, whatever the
/// pages are, as long as each holds a case.
pub proof fn lemma_listing_continues(
    url: Seq<char>,
    before: Page,
    pages: Seq<Page>,
    later: Seq<Page>,
)
    requires
        all_filled(pages),
    ensures
        whole_listing(url, before) + listing_lines(
            url,
            before,
            pages + seq![Page::empty()] + later,
        ) == whole_listing(url, before + pages.flatten()),
    decreases pages.len(),
{
    let answers = pages + seq![Page::empty()] + later;
    if pages.len() == 0 {
        assert(whole_listing(url, before) + listing_lines(url, before, answers)
            =~= whole_listing(url, before));
    } else {
        let rest = pages.drop_first();
        assert(answers.drop_first() =~= rest + seq![Page::empty()] + later);
        lemma_listing_grows(url, before, pages[0]);
        lemma_listing_continues(url, before + pages[0], rest, later);
        assert(whole_listing(url, before) + (page_lines(url, before, pages[0]) + listing_lines(
            url,
            before + pages[0],
            answers.drop_first(),
        )) =~= (whole_listing(url, before) + page_lines(url, before, pages[0])) + listing_lines(
            url,
            before + pages[0],
            answers.drop_first(),
        ));
    }
}

/// Page-splitting is invisible in a listing. However the suite cuts its
/// cases into pages that each hold at least one case, what is printed, page
/// after page, is the whole listing of those cases: the heading once and
/// every name in the suite's order, or nothing if there is no case. What the
/// suite might send after the empty page plays no part.
pub proof fn lemma_listing_ignores_paging(url: Seq<char>, pages: Seq<Page>, later: Seq<Page>)
    requires
        all_filled(pages),
    ensures
        listing_lines(url, Page::empty(), pages + seq![Page::empty()] + later) == whole_listing(
            url,
            pages.flatten(),
        ),
{
    let answers = pages + seq![Page::empty()] + later;
    lemma_listing_continues(url, Page::empty(), pages, later);
    assert(whole_listing(url, Page::empty()) + listing_lines(url, Page::empty(), answers)
        =~= listing_lines(url, Page::empty(), answers));
}

/// Two ways of cutting the same cases into pages give the same listing.
pub proof fn lemma_same_cases_same_listing(url: Seq<char>, first: Seq<Page>, second: Seq<Page>)
    requires
        all_filled(first),
        all_filled(second),
        first.flatten() == second.flatten(),
    ensures
        listing_lines(url, Page::empty(), first.push(Page::empty())) == listing_lines(
            url,
            Page::empty(),
            second.push(Page::empty()),
        ),
{
    lemma_listing_ignores_paging(url, first, Seq::empty());
    lemma_listing_ignores_paging(url, second, Seq::empty());
    assert(first + seq![Page::empty()] + Seq::<Page>::empty() =~= first.push(Page::empty()));
    assert(second + seq![Page::empty()] + Seq::<Page>::empty() =~= second.push(Page::empty()));
}

/// Begins to list the cases of the suite at `suite_url`: the suite is to be
/// started first.
pub fn get_tests(suite_url: &str) -> (launch: ListLaunch)
    ensures
        launch.suite() == suite_url@,
{
    ListLaunch { url: String::from_str(suite_url) }
}

} // verus!
