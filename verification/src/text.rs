//! Cutting text at line breaks, and putting lines back together.

use vstd::prelude::*;

verus! {

/// `String::push` appends one character to the end of the string.
pub assume_specification[ String::push ](s: &mut String, c: char)
    ensures
        final(s)@ == old(s)@.push(c),
;

/// The character that ends a line.
pub open spec fn line_break() -> char {
    '\n'
}

/// How many characters of `text` stand before its first line break: all of
/// them if it has none.
pub open spec fn first_segment_len(text: Seq<char>) -> nat
    decreases text.len(),
{
    if text.len() == 0 || text[0] == line_break() {
        0
    } else {
        1 + first_segment_len(text.drop_first())
    }
}

/// The pieces of `text` between its line breaks, in order. A text without
/// a line break is a single piece; `k` line breaks give `k + 1` pieces, some
/// of which may be empty.
pub open spec fn segments(text: Seq<char>) -> Seq<Seq<char>>
    decreases text.len(),
{
    let n = first_segment_len(text);
    if n >= text.len() {
        seq![text]
    } else {
        seq![text.take(n as int)] + segments(text.skip(n as int + 1))
    }
}

/// The pieces put back together with one line break between neighbours.
pub open spec fn joined(pieces: Seq<Seq<char>>) -> Seq<char>
    decreases pieces.len(),
{
    if pieces.len() == 0 {
        Seq::empty()
    } else if pieces.len() == 1 {
        pieces[0]
    } else {
        pieces[0] + seq![line_break()] + joined(pieces.drop_first())
    }
}

/// The text that appears when each line is written followed by a line break.
pub open spec fn written(lines: Seq<Seq<char>>) -> Seq<char>
    decreases lines.len(),
{
    if lines.len() == 0 {
        Seq::empty()
    } else {
        written(lines.drop_last()) + lines.last() + seq![line_break()]
    }
}

/// Whether `text` is free of line breaks.
pub open spec fn unbroken(text: Seq<char>) -> bool {
    forall|i: int| 0 <= i < text.len() ==> text[i] != line_break()
}

/// The first segment ends at the first line break and holds none itself.
pub proof fn lemma_first_segment(text: Seq<char>)
    ensures
        first_segment_len(text) <= text.len(),
        unbroken(text.take(first_segment_len(text) as int)),
        first_segment_len(text) < text.len() ==> text[first_segment_len(text) as int]
            == line_break(),
    decreases text.len(),
{
    if text.len() > 0 && text[0] != line_break() {
        let rest = text.drop_first();
        lemma_first_segment(rest);
        let n = first_segment_len(text);
        assert forall|i: int| 0 <= i < n implies text.take(n as int)[i] != line_break() by {
            if i > 0 {
                assert(text[i] == rest.take(n - 1)[i - 1]);
            }
        }
    }
}

/// An unbroken prefix followed by a line break is exactly the first segment.
pub proof fn lemma_first_segment_of_prefixed(head: Seq<char>, tail: Seq<char>)
    requires
        unbroken(head),
    ensures
        first_segment_len(head + tail) == head.len() + first_segment_len(tail),
    decreases head.len(),
{
    if head.len() > 0 {
        assert((head + tail).drop_first() =~= head.drop_first() + tail);
        lemma_first_segment_of_prefixed(head.drop_first(), tail);
    }
}

/// A text without line breaks is its own and only segment.
pub proof fn lemma_segments_of_unbroken(text: Seq<char>)
    requires
        unbroken(text),
    ensures
        segments(text) == seq![text],
{
    lemma_first_segment_of_prefixed(text, Seq::empty());
}

/// Cutting `head`, a line break and `tail`, where `head` holds no line
/// break, gives `head` and then the segments of `tail`.
pub proof fn lemma_segments_after_break(head: Seq<char>, tail: Seq<char>)
    requires
        unbroken(head),
    ensures
        segments(head + seq![line_break()] + tail) == seq![head] + segments(tail),
{
    let text = head + seq![line_break()] + tail;
    lemma_first_segment_of_prefixed(head, seq![line_break()] + tail);
    assert(head + (seq![line_break()] + tail) =~= text);
    assert(text.take(head.len() as int) =~= head);
    assert(text.skip(head.len() as int + 1) =~= tail);
}

/// No segment holds a line break.
pub proof fn lemma_segments_unbroken(text: Seq<char>)
    ensures
        segments(text).len() >= 1,
        forall|k: int| 0 <= k < segments(text).len() ==> unbroken(#[trigger] segments(text)[k]),
    decreases text.len(),
{
    let n = first_segment_len(text);
    lemma_first_segment(text);
    if n >= text.len() {
        assert(text.take(n as int) =~= text);
    } else {
        lemma_segments_unbroken(text.skip(n as int + 1));
    }
}

/// Joining the segments of a text with line breaks gives the text back:
/// cutting loses nothing and invents nothing.
pub proof fn lemma_join_segments(text: Seq<char>)
    ensures
        joined(segments(text)) == text,
    decreases text.len(),
{
    let n = first_segment_len(text);
    lemma_first_segment(text);
    if n < text.len() {
        let rest = text.skip(n as int + 1);
        lemma_join_segments(rest);
        lemma_segments_unbroken(rest);
        assert(segments(text).drop_first() =~= segments(rest));
    }
}

/// Cuts `text` at every line break.
pub fn split_lines(text: &str) -> (pieces: Vec<String>)
    ensures
        pieces.deep_view() == segments(text@),
{
    let mut pieces: Vec<String> = Vec::new();
    let mut current = String::new();
    assert(current@ + text@.skip(0) =~= text@);
    for c in it: text.chars()
        invariant
            it.seq() == text@,
            unbroken(current@),
            segments(text@) == pieces.deep_view() + segments(
                current@ + text@.skip(it.index() as int),
            ),
    {
        let ghost rest = text@.skip(it.index() + 1);
        assert(text@.skip(it.index() as int) =~= seq![c] + rest);
        if c == '\n' {
            proof {
                lemma_segments_after_break(current@, rest);
                assert(current@ + seq![line_break()] + rest =~= current@ + (seq![c] + rest));
            }
            pieces.push(current);
            current = String::new();
        } else {
            let ghost before = current@;
            current.push(c);
            assert(current@ + rest =~= before + (seq![c] + rest));
        }
    }
    proof {
        lemma_segments_of_unbroken(current@);
    }
    pieces.push(current);
    pieces
}

/// The text that writing each of `lines` followed by a line break produces.
pub fn write_lines(lines: &Vec<String>) -> (text: String)
    ensures
        text@ == written(lines.deep_view()),
{
    let mut text = String::new();
    let mut i: usize = 0;
    while i < lines.len()
        invariant
            i <= lines.len(),
            text@ == written(lines.deep_view().take(i as int)),
        decreases lines.len() - i,
    {
        let ghost shown = lines.deep_view().take(i + 1);
        assert(shown.drop_last() =~= lines.deep_view().take(i as int));
        text.append(lines[i].as_str());
        text.push('\n');
        i += 1;
    }
    assert(lines.deep_view().take(lines.len() as int) =~= lines.deep_view());
    text
}

} // verus!
