//! What a step of a listing or of a run hands back.

use vstd::prelude::*;

verus! {

/// The outcome of a step: the lines to write now, in order, and what comes
/// next.
pub struct Step<S> {
    pub lines: Vec<String>,
    pub next: S,
}

/// A step that writes nothing.
pub fn silent<S>(next: S) -> (step: Step<S>)
    ensures
        step.next == next,
        step.lines.deep_view() == Seq::<Seq<char>>::empty(),
{
    let lines: Vec<String> = Vec::new();
    Step { lines, next }
}

/// A step that writes one line.
pub fn saying<S>(line: String, next: S) -> (step: Step<S>)
    ensures
        step.next == next,
        step.lines.deep_view() == seq![line@],
{
    let mut lines: Vec<String> = Vec::new();
    lines.push(line);
    Step { lines, next }
}

} // verus!
