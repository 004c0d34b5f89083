//! The line protocol that a resolver speaks on its output streams.
//!
//! A line that begins with the sentinel carries structured output: what follows
//! the sentinel is its payload. Every other line is a diagnostic, meant for the
//! user and for nobody else. Payloads are opaque here: nothing is asked of what
//! an identifier looks like.

use vstd::prelude::*;

verus! {

/// The marker that a line of structured output begins with.
pub const SENTINEL: &'static str = "yapm::";

/// What follows `prefix` in `line`, if `line` begins with `prefix`.
pub open spec fn after_prefix(line: Seq<char>, prefix: Seq<char>) -> Option<Seq<char>> {
    if prefix.is_prefix_of(line) {
        Some(line.skip(prefix.len() as int))
    } else {
        None
    }
}

/// The values that `lines` give under `prefix`: what follows `prefix` in each
/// line that begins with it, in the order of `lines`.
pub open spec fn values_after(lines: Seq<Seq<char>>, prefix: Seq<char>) -> Seq<Seq<char>> {
    lines.filter_map(|line: Seq<char>| after_prefix(line, prefix))
}

/// The payload of a protocol line; `None` for a diagnostic line.
pub open spec fn payload_of(line: Seq<char>) -> Option<Seq<char>> {
    after_prefix(line, SENTINEL@)
}

/// The payloads of the protocol lines among `lines`, in the order of `lines`.
pub open spec fn payloads(lines: Seq<Seq<char>>) -> Seq<Seq<char>> {
    values_after(lines, SENTINEL@)
}

/// The protocol lines among `lines`, whole and in the order of `lines`.
pub open spec fn protocol_lines(lines: Seq<Seq<char>>) -> Seq<Seq<char>> {
    lines.filter(|line: Seq<char>| payload_of(line) is Some)
}

/// Each of `lines` without its first characters, as many as the sentinel has.
pub open spec fn without_sentinel(lines: Seq<Seq<char>>) -> Seq<Seq<char>> {
    lines.map_values(|line: Seq<char>| line.skip(SENTINEL@.len() as int))
}

/// Cuts `prefix` off the front of `line`, if `line` begins with it.
pub fn strip_prefix(line: &str, prefix: &str) -> (rest: Option<String>)
    ensures
        match rest {
            Some(text) => after_prefix(line@, prefix@) == Some(text@),
            None => after_prefix(line@, prefix@) is None,
        },
{
    let prefix_len = prefix.unicode_len();
    let line_len = line.unicode_len();
    if line_len < prefix_len {
        return None;
    }
    let mut i: usize = 0;
    while i < prefix_len
        invariant
            i <= prefix_len <= line_len,
            prefix_len == prefix@.len(),
            line_len == line@.len(),
            forall|j: int| 0 <= j < i ==> line@[j] == prefix@[j],
        decreases prefix_len - i,
    {
        if line.get_char(i) != prefix.get_char(i) {
            return None;
        }
        i += 1;
    }
    let rest = line.substring_char(prefix_len, line_len);
    Some(rest.to_owned())
}

/// A line of resolver output, classified.
#[derive(Debug, PartialEq, Eq)]
pub enum LineEvent {
    /// A protocol line, by its payload.
    Protocol(String),
    /// A diagnostic line, whole.
    Diagnostic(String),
}

/// The content of a [`LineEvent`].
pub enum LineKind {
    Protocol(Seq<char>),
    Diagnostic(Seq<char>),
}

impl View for LineEvent {
    type V = LineKind;

    open spec fn view(&self) -> LineKind {
        match self {
            LineEvent::Protocol(payload) => LineKind::Protocol(payload@),
            LineEvent::Diagnostic(line) => LineKind::Diagnostic(line@),
        }
    }
}

/// What a line of resolver output is: a protocol line with its payload, or a
/// diagnostic line.
pub open spec fn classify(line: Seq<char>) -> LineKind {
    match payload_of(line) {
        Some(payload) => LineKind::Protocol(payload),
        None => LineKind::Diagnostic(line),
    }
}

/// Classifies one line of resolver output.
pub fn classify_line(line: String) -> (event: LineEvent)
    ensures
        event@ == classify(line@),
{
    match strip_prefix(line.as_str(), SENTINEL) {
        Some(payload) => LineEvent::Protocol(payload),
        None => LineEvent::Diagnostic(line),
    }
}

/// A text that begins with `prefix` gives, under `prefix`, the rest of it.
pub proof fn after_prefix_of_concat(prefix: Seq<char>, rest: Seq<char>)
    ensures
        after_prefix(prefix + rest, prefix) == Some(rest),
{
}

/// One more line adds what follows `prefix` in it behind the values so far, if
/// it begins with `prefix`, and nothing if it does not.
pub proof fn values_after_push(lines: Seq<Seq<char>>, line: Seq<char>, prefix: Seq<char>)
    ensures
        values_after(lines.push(line), prefix) == match after_prefix(line, prefix) {
            Some(value) => values_after(lines, prefix).push(value),
            None => values_after(lines, prefix),
        },
{
    assert(lines.push(line).drop_last() =~= lines);
}

/// The values of two runs of lines, one after the other, are those of the
/// first followed by those of the second.
pub proof fn values_after_concat(first: Seq<Seq<char>>, second: Seq<Seq<char>>, prefix: Seq<char>)
    ensures
        values_after(first + second, prefix) == values_after(first, prefix) + values_after(
            second,
            prefix,
        ),
    decreases second.len(),
{
    if second.len() > 0 {
        let init = second.drop_last();
        values_after_concat(first, init, prefix);
        values_after_push(first + init, second.last(), prefix);
        values_after_push(init, second.last(), prefix);
        assert(init.push(second.last()) =~= second);
    }
}

/// A line that does not begin with `prefix` adds no value, wherever it stands
/// among the other lines.
pub proof fn values_after_insert(
    lines: Seq<Seq<char>>,
    at: int,
    line: Seq<char>,
    prefix: Seq<char>,
)
    requires
        0 <= at <= lines.len(),
        after_prefix(line, prefix) is None,
    ensures
        values_after(lines.insert(at, line), prefix) == values_after(lines, prefix),
{
    let before = lines.subrange(0, at);
    let after = lines.subrange(at, lines.len() as int);
    assert(lines =~= before + after);
    values_after_concat(before.push(line), after, prefix);
    values_after_concat(before, after, prefix);
    values_after_push(before, line, prefix);
}

/// Lines of which none begins with `prefix` give no value under it.
pub proof fn values_after_none(lines: Seq<Seq<char>>, prefix: Seq<char>)
    requires
        forall|i: int| 0 <= i < lines.len() ==> after_prefix(#[trigger] lines[i], prefix) is None,
    ensures
        values_after(lines, prefix) == Seq::<Seq<char>>::empty(),
    decreases lines.len(),
{
    if lines.len() > 0 {
        let init = lines.drop_last();
        values_after_none(init, prefix);
        values_after_push(init, lines.last(), prefix);
    }
}

/// One more line adds its payload behind the others if it is a protocol line,
/// and nothing if it is a diagnostic.
pub proof fn payloads_of_push(lines: Seq<Seq<char>>, line: Seq<char>)
    ensures
        payloads(lines.push(line)) == match payload_of(line) {
            Some(payload) => payloads(lines).push(payload),
            None => payloads(lines),
        },
{
    values_after_push(lines, line, SENTINEL@);
}

/// The structured result holds one element for each protocol line, in the
/// order in which the lines came, each without the sentinel: as many protocol
/// lines as came, so many elements, and nothing else.
pub proof fn payloads_are_the_protocol_lines(lines: Seq<Seq<char>>)
    ensures
        payloads(lines) == without_sentinel(protocol_lines(lines)),
        payloads(lines).len() == protocol_lines(lines).len(),
    decreases lines.len(),
{
    reveal(Seq::filter);
    if lines.len() > 0 {
        let init = lines.drop_last();
        payloads_are_the_protocol_lines(init);
        assert(init.push(lines.last()) =~= lines);
        payloads_of_push(init, lines.last());
        assert(payloads(lines) =~= without_sentinel(protocol_lines(lines)));
    }
}

/// Where every line is a protocol line, the structured result has exactly as
/// many elements as there are lines, and its element at each place is the
/// payload of the line at that place.
pub proof fn every_protocol_line_is_returned(lines: Seq<Seq<char>>)
    requires
        forall|i: int| 0 <= i < lines.len() ==> payload_of(#[trigger] lines[i]) is Some,
    ensures
        payloads(lines).len() == lines.len(),
        forall|i: int|
            0 <= i < lines.len() ==> Some(#[trigger] payloads(lines)[i]) == payload_of(lines[i]),
    decreases lines.len(),
{
    if lines.len() > 0 {
        let init = lines.drop_last();
        every_protocol_line_is_returned(init);
        assert(init.push(lines.last()) =~= lines);
        payloads_of_push(init, lines.last());
    }
}

/// A diagnostic line leaves no trace in the structured result, wherever it
/// stands among the other lines.
pub proof fn diagnostic_line_is_not_returned(lines: Seq<Seq<char>>, at: int, line: Seq<char>)
    requires
        0 <= at <= lines.len(),
        payload_of(line) is None,
    ensures
        payloads(lines.insert(at, line)) == payloads(lines),
{
    values_after_insert(lines, at, line, SENTINEL@);
}

} // verus!
