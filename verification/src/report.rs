//! Rendering lifecycle events as report lines, and noticing whether the
//! suite said that it was done.

use crate::model::{CaseResult, Event, LifecycleEvent};
use crate::step::{silent, Step};
use crate::text::{lemma_segments_unbroken, line_break, segments, split_lines, unbroken};
use vstd::prelude::*;

verus! {

/// The tag that a finished case is reported under.
pub open spec fn result_tag(result: CaseResult) -> Seq<char> {
    match result {
        CaseResult::Passed => "[PASSED]"@,
        CaseResult::Failed => "[FAILED]"@,
        CaseResult::Skipped => "[SKIPPED]"@,
        CaseResult::Error => "[ERROR]"@,
    }
}

/// The line that reports that the case called `case_name` has started.
pub open spec fn started_line(case_name: Seq<char>) -> Seq<char> {
    "[RUNNING]\t"@ + case_name
}

/// The line that reports how the case called `case_name` ended.
pub open spec fn finished_line(case_name: Seq<char>, result: CaseResult) -> Seq<char> {
    result_tag(result) + "\t"@ + case_name
}

/// Holds of the pieces of a log message that are reported: those with at
/// least one character.
pub open spec fn has_text() -> spec_fn(Seq<char>) -> bool {
    |piece: Seq<char>| piece.len() > 0
}

/// Turns a piece of a log message into its report line: the case's name, a
/// colon, a space and the piece.
pub open spec fn log_line(case_name: Seq<char>) -> spec_fn(Seq<char>) -> Seq<char> {
    |piece: Seq<char>| case_name + ": "@ + piece
}

/// The report lines of a log message: the message is cut at its line breaks,
/// and each piece that is not empty gives one line.
pub open spec fn log_lines(case_name: Seq<char>, text: Seq<char>) -> Seq<Seq<char>> {
    segments(text).filter(has_text()).map_values(log_line(case_name))
}

/// The report lines of a single event.
pub open spec fn event_lines(event: Event) -> Seq<Seq<char>> {
    match event {
        Event::LogMessage { case_name, text } => log_lines(case_name, text),
        Event::CaseStarted { case_name } => seq![started_line(case_name)],
        Event::CaseFinished { case_name, result } => seq![finished_line(case_name, result)],
        Event::Finish => Seq::empty(),
    }
}

/// The report of a stream of events: the lines of each event in the order
/// of delivery, up to the first `Finish`. What follows it is not consumed.
pub open spec fn report_lines(events: Seq<Event>) -> Seq<Seq<char>>
    decreases events.len(),
{
    if events.len() == 0 || events[0] is Finish {
        Seq::empty()
    } else {
        event_lines(events[0]) + report_lines(events.drop_first())
    }
}

/// Whether the stream holds a `Finish`.
pub open spec fn saw_finish(events: Seq<Event>) -> bool {
    exists|i: int| 0 <= i < events.len() && events[i] is Finish
}

/// The report lines of a log message of the case called `case_name`.
pub fn render_log(case_name: &str, text: &str) -> (lines: Vec<String>)
    ensures
        lines.deep_view() == log_lines(case_name@, text@),
{
    let pieces = split_lines(text);
    let mut lines: Vec<String> = Vec::new();
    let mut i: usize = 0;
    assert(Seq::<Seq<char>>::empty().filter(has_text()) =~= Seq::<Seq<char>>::empty()) by {
        reveal(Seq::filter);
    }
    while i < pieces.len()
        invariant
            i <= pieces.len(),
            lines.deep_view() =~= pieces.deep_view().take(i as int).filter(has_text()).map_values(
                log_line(case_name@),
            ),
        decreases pieces.len() - i,
    {
        let piece = &pieces[i];
        proof {
            let seen = pieces.deep_view().take(i as int);
            assert(pieces.deep_view().take(i + 1) =~= seen.push(piece@));
            seen.lemma_filter_push(piece@, has_text());
            seen.filter(has_text()).lemma_push_map_commute(log_line(case_name@), piece@);
        }
        if !piece.as_str().is_empty() {
            let mut line = String::from_str(case_name);
            line.append(": ");
            line.append(piece.as_str());
            lines.push(line);
        }
        i += 1;
    }
    assert(pieces.deep_view().take(pieces.len() as int) =~= pieces.deep_view());
    lines
}

/// The tag that a case that ended with `result` is reported under.
pub fn tag_of(result: CaseResult) -> (tag: &'static str)
    ensures
        tag@ == result_tag(result),
{
    match result {
        CaseResult::Passed => "[PASSED]",
        CaseResult::Failed => "[FAILED]",
        CaseResult::Skipped => "[SKIPPED]",
        CaseResult::Error => "[ERROR]",
    }
}

/// The report lines of one event, ready to be written at once.
pub fn render_event(event: &LifecycleEvent) -> (lines: Vec<String>)
    ensures
        lines.deep_view() == event_lines(event@),
{
    match event {
        LifecycleEvent::LogMessage { case_name, text } => render_log(
            case_name.as_str(),
            text.as_str(),
        ),
        LifecycleEvent::CaseStarted { case_name } => {
            let mut line = String::from_str("[RUNNING]\t");
            line.append(case_name.as_str());
            let mut lines: Vec<String> = Vec::new();
            lines.push(line);
            lines
        },
        LifecycleEvent::CaseFinished { case_name, result } => {
            let mut line = String::from_str(tag_of(*result));
            line.append("\t");
            line.append(case_name.as_str());
            let mut lines: Vec<String> = Vec::new();
            lines.push(line);
            lines
        },
        LifecycleEvent::Finish => {
            let lines: Vec<String> = Vec::new();
            lines
        },
    }
}

/// A consumer of events that waits for the next one. None of the events
/// that it has consumed is `Finish`.
pub struct Aggregator {
    seen: Ghost<Seq<Event>>,
}

/// What a consumer of events has to say when it has stopped consuming.
pub struct Summary {
    completed_cleanly: bool,
    seen: Ghost<Seq<Event>>,
}

/// Where the consumption stands after an event.
pub enum Aggregation {
    /// The next event is to be waited for.
    More(Aggregator),
    /// `Finish` has come: no more events are consumed.
    Drained(Summary),
}

impl Aggregator {
    #[verifier::type_invariant]
    spec fn unfinished(self) -> bool {
        !saw_finish(self.seen@)
    }

    /// The events consumed so far, in the order of delivery.
    pub closed spec fn consumed(&self) -> Seq<Event> {
        self.seen@
    }

    /// A consumer that has not consumed any event yet.
    pub fn new() -> (aggregator: Aggregator)
        ensures
            aggregator.consumed() == Seq::<Event>::empty(),
    {
        Aggregator { seen: Ghost(Seq::empty()) }
    }

    /// Consumes an event. `Finish` ends the consumption and is not reported.
    /// Any other event is reported at once, and the next event is to be
    /// waited for.
    pub fn event(self, event: LifecycleEvent) -> (step: Step<Aggregation>)
        ensures
            !saw_finish(self.consumed()),
            step.lines.deep_view() == event_lines(event@),
            event@ is Finish ==> (step.next matches Aggregation::Drained(summary)
                && summary.consumed() == self.consumed().push(event@)),
            !(event@ is Finish) ==> (step.next matches Aggregation::More(next) && next.consumed()
                == self.consumed().push(event@)),
    {
        proof {
            use_type_invariant(&self);
        }
        let ghost after = self.seen@.push(event@);
        match event {
            LifecycleEvent::Finish => {
                assert(after[self.seen@.len() as int] is Finish);
                silent(
                    Aggregation::Drained(Summary { completed_cleanly: true, seen: Ghost(after) }),
                )
            },
            event => {
                assert(!saw_finish(after));
                Step {
                    lines: render_event(&event),
                    next: Aggregation::More(Aggregator { seen: Ghost(after) }),
                }
            },
        }
    }

    /// Takes note that the source of events has closed. No `Finish` has
    /// come, so the consumption did not complete cleanly.
    pub fn closed(self) -> (summary: Summary)
        ensures
            !saw_finish(self.consumed()),
            summary.consumed() == self.consumed(),
    {
        proof {
            use_type_invariant(&self);
        }
        Summary { completed_cleanly: false, seen: self.seen }
    }
}

impl Summary {
    #[verifier::type_invariant]
    spec fn truthful(self) -> bool {
        self.completed_cleanly == saw_finish(self.seen@)
    }

    /// The events that were consumed, in the order of delivery.
    pub closed spec fn consumed(&self) -> Seq<Event> {
        self.seen@
    }

    /// Whether the consumption completed cleanly: whether `Finish` came
    /// before the source closed.
    pub fn completed_cleanly(&self) -> (clean: bool)
        ensures
            clean == saw_finish(self.consumed()),
    {
        proof {
            use_type_invariant(self);
        }
        self.completed_cleanly
    }
}

/// What came of consuming a stream of events: the lines that were reported,
/// and whether the suite said that it was done.
#[derive(Debug, PartialEq, Eq)]
pub struct RunReport {
    pub lines: Vec<String>,
    pub completed_cleanly: bool,
}

/// Consumes `events` in the order of delivery and reports each, until the
/// first `Finish` or the end of the stream. The run completed cleanly if and
/// only if a `Finish` was met.
pub fn collect_events(events: Vec<LifecycleEvent>) -> (report: RunReport)
    ensures
        report.lines.deep_view() == report_lines(events.deep_view()),
        report.completed_cleanly == saw_finish(events.deep_view()),
{
    let ghost stream = events.deep_view();
    let mut aggregator = Aggregator::new();
    let mut lines: Vec<String> = Vec::new();
    for event in it: events
        invariant
            it.seq() == events@,
            stream == events.deep_view(),
            aggregator.consumed() == stream.take(it.index() as int),
            lines.deep_view() == report_lines(stream.take(it.index() as int)),
    {
        let ghost before = stream.take(it.index() as int);
        let step = aggregator.event(event);
        let mut reported = step.lines;
        lines.append(&mut reported);
        proof {
            assert(stream.take(it.index() + 1) =~= before.push(event@));
            lemma_report_grows(before, event@);
        }
        match step.next {
            Aggregation::More(next) => aggregator = next,
            Aggregation::Drained(summary) => {
                proof {
                    let after = stream.skip(it.index() + 1);
                    assert(before + seq![Event::Finish] + after =~= stream);
                    lemma_report_stops_at_finish(before, after);
                    assert(summary.consumed()[before.len() as int] is Finish);
                }
                return RunReport { lines, completed_cleanly: summary.completed_cleanly() };
            },
        }
    }
    assert(stream.take(stream.len() as int) =~= stream);
    RunReport { lines, completed_cleanly: aggregator.closed().completed_cleanly() }
}

/// A log message gives one report line for each of its pieces that holds
/// text, in order, and none for an empty piece: every line is the case's
/// name, a colon, a space and a piece that is neither empty nor broken.
pub proof fn lemma_log_lines(case_name: Seq<char>, text: Seq<char>)
    ensures
        log_lines(case_name, text).len() == segments(text).filter(has_text()).len(),
        log_lines(case_name, text).len() <= segments(text).len(),
        forall|k: int|
            0 <= k < log_lines(case_name, text).len() ==> {
                let piece = segments(text).filter(has_text())[k];
                &&& #[trigger] log_lines(case_name, text)[k] == case_name + ": "@ + piece
                &&& piece.len() > 0
                &&& unbroken(piece)
                &&& segments(text).contains(piece)
            },
{
    let pieces = segments(text);
    let kept = pieces.filter(has_text());
    broadcast use {Seq::lemma_filter_pred, Seq::lemma_filter_len, Seq::lemma_filter_contains_rev};
    lemma_segments_unbroken(text);
    assert forall|k: int| 0 <= k < log_lines(case_name, text).len() implies {
        let piece = kept[k];
        &&& #[trigger] log_lines(case_name, text)[k] == case_name + ": "@ + piece
        &&& piece.len() > 0
        &&& unbroken(piece)
        &&& pieces.contains(piece)
    } by {
        assert(kept.contains(kept[k]));
    }
}

/// A message made of line breaks alone, or of nothing at all, is not
/// reported.
pub proof fn lemma_blank_log_is_silent(case_name: Seq<char>, text: Seq<char>)
    requires
        forall|i: int| 0 <= i < text.len() ==> text[i] == line_break(),
    ensures
        log_lines(case_name, text) == Seq::<Seq<char>>::empty(),
    decreases text.len(),
{
    let nothing = Seq::<char>::empty();
    let none = Seq::<Seq<char>>::empty();
    assert(none.filter(has_text()) =~= none) by {
        reveal(Seq::filter);
    }
    none.lemma_filter_push(nothing, has_text());
    let pieces = segments(text);
    if text.len() == 0 {
        assert(text =~= nothing);
    } else {
        let rest = text.skip(1);
        lemma_blank_log_is_silent(case_name, rest);
        assert(text.take(0) =~= nothing);
        Seq::filter_distributes_over_add(seq![nothing], segments(rest), has_text());
    }
}

/// As long as no `Finish` has come, each event adds its own lines to the end
/// of the report and changes nothing of what stands there.
pub proof fn lemma_report_grows(events: Seq<Event>, event: Event)
    requires
        !saw_finish(events),
    ensures
        report_lines(events.push(event)) == report_lines(events) + event_lines(event),
    decreases events.len(),
{
    if events.len() == 0 {
        let single = events.push(event);
        assert(report_lines(single.drop_first()) =~= Seq::<Seq<char>>::empty());
    } else {
        let rest = events.drop_first();
        assert(!saw_finish(rest));
        lemma_report_grows(rest, event);
        assert(events.push(event).drop_first() =~= rest.push(event));
    }
}

/// Nothing that comes after the first `Finish` is reported.
pub proof fn lemma_report_stops_at_finish(before: Seq<Event>, after: Seq<Event>)
    requires
        !saw_finish(before),
    ensures
        report_lines(before + seq![Event::Finish] + after) == report_lines(before),
        saw_finish(before + seq![Event::Finish] + after),
    decreases before.len(),
{
    let events = before + seq![Event::Finish] + after;
    if before.len() > 0 {
        let rest = before.drop_first();
        assert(!saw_finish(rest));
        lemma_report_stops_at_finish(rest, after);
        assert(events.drop_first() =~= rest + seq![Event::Finish] + after);
    }
}

} // verus!
