//! The stream multiplexer: the two output streams of a resolver, drained as
//! one sequence of events.
//!
//! Whoever reads the pipes reports each line, and the end of each stream, as a
//! [`StreamEvent`], in the order in which they came. The multiplexer keeps the
//! payloads of the protocol lines, hands every diagnostic line back at once to
//! be shown to the user, and says when both streams have ended. A stream that
//! fails or breaks off has ended like any other, and the other one is read on.
//! Between the two streams no order is promised; within each, the order in
//! which the reader reports is the order kept.

use crate::protocol::{classify_line, payload_of, payloads, payloads_of_push, LineEvent};
use vstd::prelude::*;

verus! {

/// The stream of the resolver that an event comes from.
#[derive(Debug, Clone, Copy, PartialEq, Eq, Structural)]
pub enum Origin {
    Stdout,
    Stderr,
}

impl Origin {
    /// The other one of the two streams.
    pub open spec fn other(self) -> Origin {
        match self {
            Origin::Stdout => Origin::Stderr,
            Origin::Stderr => Origin::Stdout,
        }
    }
}

/// What the reader of the pipes saw next.
#[derive(Debug, PartialEq, Eq)]
pub enum StreamEvent {
    /// One line came from a stream.
    Line(Origin, String),
    /// A stream has reached its end.
    Closed(Origin),
    /// Reading from a stream failed, or the stream broke off.
    Failed(Origin),
}

/// The content of a [`StreamEvent`].
pub enum StreamEventModel {
    Line(Origin, Seq<char>),
    Closed(Origin),
    Failed(Origin),
}

impl StreamEventModel {
    /// Whether this event is the last of the stream `origin`: its end, or a
    /// failure to read from it.
    pub open spec fn ends(self, origin: Origin) -> bool {
        self == StreamEventModel::Closed(origin) || self == StreamEventModel::Failed(origin)
    }
}

impl View for StreamEvent {
    type V = StreamEventModel;

    open spec fn view(&self) -> StreamEventModel {
        match self {
            StreamEvent::Line(origin, text) => StreamEventModel::Line(*origin, text@),
            StreamEvent::Closed(origin) => StreamEventModel::Closed(*origin),
            StreamEvent::Failed(origin) => StreamEventModel::Failed(*origin),
        }
    }
}

/// What the reader of the pipes is to do after an event.
#[derive(Debug, PartialEq, Eq)]
pub enum Action {
    /// Show this diagnostic line to the user now, then read on.
    Relay(String),
    /// Read on.
    Continue,
    /// Both streams have ended: wait for the process to exit.
    AwaitExit,
}

/// The content of an [`Action`].
pub enum ActionModel {
    Relay(Seq<char>),
    Continue,
    AwaitExit,
}

impl View for Action {
    type V = ActionModel;

    open spec fn view(&self) -> ActionModel {
        match self {
            Action::Relay(line) => ActionModel::Relay(line@),
            Action::Continue => ActionModel::Continue,
            Action::AwaitExit => ActionModel::AwaitExit,
        }
    }
}

/// The state of a multiplexer: which streams are still open, and the payloads
/// kept so far, oldest first.
pub struct MultiplexerModel {
    pub stdout_open: bool,
    pub stderr_open: bool,
    pub buffered: Seq<Seq<char>>,
}

impl MultiplexerModel {
    /// The state before anything was read: both streams open, nothing kept.
    pub open spec fn fresh() -> MultiplexerModel {
        MultiplexerModel { stdout_open: true, stderr_open: true, buffered: Seq::empty() }
    }

    /// Whether the stream `origin` is still open.
    pub open spec fn is_open(self, origin: Origin) -> bool {
        match origin {
            Origin::Stdout => self.stdout_open,
            Origin::Stderr => self.stderr_open,
        }
    }

    /// Whether both streams have ended.
    pub open spec fn drained(self) -> bool {
        !self.stdout_open && !self.stderr_open
    }

    /// This state with the stream `origin` ended.
    pub open spec fn close(self, origin: Origin) -> MultiplexerModel {
        match origin {
            Origin::Stdout => MultiplexerModel { stdout_open: false, ..self },
            Origin::Stderr => MultiplexerModel { stderr_open: false, ..self },
        }
    }

    /// The state after `event`.
    pub open spec fn advance(self, event: StreamEventModel) -> MultiplexerModel {
        match event {
            StreamEventModel::Line(_, text) => match payload_of(text) {
                Some(payload) => MultiplexerModel { buffered: self.buffered.push(payload), ..self },
                None => self,
            },
            StreamEventModel::Closed(origin) => self.close(origin),
            StreamEventModel::Failed(origin) => self.close(origin),
        }
    }

    /// What is to be done after `event`, arriving in this state.
    pub open spec fn reaction(self, event: StreamEventModel) -> ActionModel {
        match event {
            StreamEventModel::Line(_, text) => match payload_of(text) {
                Some(_) => ActionModel::Continue,
                None => ActionModel::Relay(text),
            },
            _ => if self.advance(event).drained() {
                ActionModel::AwaitExit
            } else {
                ActionModel::Continue
            },
        }
    }

    /// The state after all of `events`, in their order.
    pub open spec fn replay(self, events: Seq<StreamEventModel>) -> MultiplexerModel
        decreases events.len(),
    {
        if events.len() == 0 {
            self
        } else {
            self.replay(events.drop_last()).advance(events.last())
        }
    }
}

/// The lines among `events`, from either stream, in the order of `events`.
pub open spec fn lines_of(events: Seq<StreamEventModel>) -> Seq<Seq<char>> {
    events.filter_map(
        |event: StreamEventModel|
            match event {
                StreamEventModel::Line(_, text) => Some(text),
                _ => None,
            },
    )
}

/// The two output streams of one resolver run, while they are drained.
#[derive(Debug)]
pub struct Multiplexer {
    stdout_open: bool,
    stderr_open: bool,
    buffered: Vec<String>,
}

impl View for Multiplexer {
    type V = MultiplexerModel;

    closed spec fn view(&self) -> MultiplexerModel {
        MultiplexerModel {
            stdout_open: self.stdout_open,
            stderr_open: self.stderr_open,
            buffered: self.buffered.deep_view(),
        }
    }
}

impl Multiplexer {
    /// A multiplexer for two streams that are both open.
    pub fn new() -> (streams: Multiplexer)
        ensures
            streams@ == MultiplexerModel::fresh(),
    {
        let streams = Multiplexer { stdout_open: true, stderr_open: true, buffered: Vec::new() };
        assert(streams.buffered.deep_view() =~= Seq::empty());
        streams
    }

    /// Whether the stream `origin` is still to be read from.
    pub fn is_open(&self, origin: Origin) -> (open: bool)
        ensures
            open == self@.is_open(origin),
    {
        match origin {
            Origin::Stdout => self.stdout_open,
            Origin::Stderr => self.stderr_open,
        }
    }

    /// Whether both streams have ended.
    pub fn is_drained(&self) -> (drained: bool)
        ensures
            drained == self@.drained(),
    {
        !self.stdout_open && !self.stderr_open
    }

    /// Notes that the stream `origin` has ended, and says what to do next.
    fn end_of(&mut self, origin: Origin) -> (action: Action)
        ensures
            final(self)@ == old(self)@.close(origin),
            action@ == if final(self)@.drained() {
                ActionModel::AwaitExit
            } else {
                ActionModel::Continue
            },
    {
        match origin {
            Origin::Stdout => {
                self.stdout_open = false;
            },
            Origin::Stderr => {
                self.stderr_open = false;
            },
        }
        if self.is_drained() {
            Action::AwaitExit
        } else {
            Action::Continue
        }
    }

    /// Takes in the next event. A protocol line is kept by its payload, a
    /// diagnostic line comes back to be shown, and the end of a stream is
    /// noted, however it came about; the end of the second stream asks for
    /// the wait on the process.
    pub fn step(&mut self, event: StreamEvent) -> (action: Action)
        ensures
            final(self)@ == old(self)@.advance(event@),
            action@ == old(self)@.reaction(event@),
    {
        match event {
            StreamEvent::Line(_, text) => match classify_line(text) {
                LineEvent::Protocol(payload) => {
                    self.buffered.push(payload);
                    assert(self.buffered.deep_view() =~= old(self).buffered.deep_view().push(
                        payload@,
                    ));
                    Action::Continue
                },
                LineEvent::Diagnostic(line) => Action::Relay(line),
            },
            StreamEvent::Closed(origin) => self.end_of(origin),
            StreamEvent::Failed(origin) => self.end_of(origin),
        }
    }

    /// The payloads kept, oldest first, once both streams have ended.
    pub fn into_lines(self) -> (lines: Vec<String>)
        requires
            self@.drained(),
        ensures
            lines.deep_view() == self@.buffered,
    {
        self.buffered
    }
}

/// A diagnostic line goes back to the user as it is and is not kept; a
/// protocol line is kept by its payload and does not go to the user. Which
/// stream the line came from makes no difference.
pub proof fn line_is_relayed_or_kept(state: MultiplexerModel, origin: Origin, line: Seq<char>)
    ensures
        match payload_of(line) {
            None => {
                &&& state.reaction(StreamEventModel::Line(origin, line)) == ActionModel::Relay(line)
                &&& state.advance(StreamEventModel::Line(origin, line)) == state
            },
            Some(payload) => {
                &&& state.reaction(StreamEventModel::Line(origin, line)) == ActionModel::Continue
                &&& state.advance(StreamEventModel::Line(origin, line)).buffered
                    == state.buffered.push(payload)
            },
        },
{
}

/// Nothing is dropped and nothing is added: after any run of events the
/// multiplexer holds what it held before, followed by the payloads of the
/// protocol lines among the events, in the order in which the lines came,
/// whichever stream each came from and whichever streams had ended by then.
pub proof fn replay_keeps_every_payload(start: MultiplexerModel, events: Seq<StreamEventModel>)
    ensures
        start.replay(events).buffered == start.buffered + payloads(lines_of(events)),
    decreases events.len(),
{
    if events.len() > 0 {
        let init = events.drop_last();
        replay_keeps_every_payload(start, init);
        if let StreamEventModel::Line(_, text) = events.last() {
            assert(lines_of(events) =~= lines_of(init).push(text));
            payloads_of_push(lines_of(init), text);
        }
    }
}

/// A stream counts as open until its own end is reported, and no longer: the
/// end of one stream does not end the other, however many events follow.
pub proof fn stream_is_open_until_it_ends(
    start: MultiplexerModel,
    events: Seq<StreamEventModel>,
    origin: Origin,
)
    ensures
        start.replay(events).is_open(origin) <==> start.is_open(origin) && forall|i: int|
            0 <= i < events.len() ==> !(#[trigger] events[i]).ends(origin),
    decreases events.len(),
{
    if events.len() > 0 {
        let init = events.drop_last();
        stream_is_open_until_it_ends(start, init, origin);
        if !events.last().ends(origin) && forall|i: int|
            0 <= i < init.len() ==> !(#[trigger] init[i]).ends(origin) {
            assert forall|i: int| 0 <= i < events.len() implies !(#[trigger] events[i]).ends(
                origin,
            ) by {
                if i < init.len() {
                    assert(events[i] == init[i]);
                }
            }
        }
    }
}

/// Draining is over exactly when the end of each of the two streams has been
/// reported.
pub proof fn drained_when_both_streams_ended(events: Seq<StreamEventModel>)
    ensures
        MultiplexerModel::fresh().replay(events).drained() <==> (exists|i: int|
            0 <= i < events.len() && (#[trigger] events[i]).ends(Origin::Stdout)) && (exists|i: int|
            0 <= i < events.len() && (#[trigger] events[i]).ends(Origin::Stderr)),
{
    stream_is_open_until_it_ends(MultiplexerModel::fresh(), events, Origin::Stdout);
    stream_is_open_until_it_ends(MultiplexerModel::fresh(), events, Origin::Stderr);
}

/// Where one stream ends at once and the other goes on, for however long,
/// draining goes on with it: it is not over while the other stream has not
/// ended, every payload that came is kept, and the end of the other stream,
/// when it comes, ends the draining with all of them.
pub proof fn draining_outlasts_the_first_stream(
    first: StreamEventModel,
    origin: Origin,
    rest: Seq<StreamEventModel>,
    last: StreamEventModel,
)
    requires
        first.ends(origin),
        forall|i: int| 0 <= i < rest.len() ==> !(#[trigger] rest[i]).ends(origin.other()),
        last.ends(origin.other()),
    ensures
        !MultiplexerModel::fresh().replay(seq![first] + rest).drained(),
        MultiplexerModel::fresh().replay(seq![first] + rest).buffered == payloads(lines_of(rest)),
        MultiplexerModel::fresh().replay((seq![first] + rest).push(last)).drained(),
        MultiplexerModel::fresh().replay((seq![first] + rest).push(last)).buffered == payloads(
            lines_of(rest),
        ),
{
    let fresh = MultiplexerModel::fresh();
    let events = seq![first] + rest;
    stream_is_open_until_it_ends(fresh, events, origin.other());
    stream_is_open_until_it_ends(fresh, events, origin);
    assert(events[0].ends(origin));
    assert forall|i: int| 0 <= i < events.len() implies !(#[trigger] events[i]).ends(
        origin.other(),
    ) by {
        if i > 0 {
            assert(events[i] == rest[i - 1]);
        }
    }
    replay_keeps_every_payload(fresh, events);
    assert(lines_of(seq![first]) =~= Seq::<Seq<char>>::empty()) by {
        reveal_with_fuel(Seq::filter_map, 2);
    }
    lines_of_concat(seq![first], rest);
    assert(events.push(last).drop_last() =~= events);
}

/// The lines of two runs of events, one after the other, are those of the
/// first followed by those of the second.
pub proof fn lines_of_concat(first: Seq<StreamEventModel>, second: Seq<StreamEventModel>)
    ensures
        lines_of(first + second) == lines_of(first) + lines_of(second),
    decreases second.len(),
{
    if second.len() > 0 {
        let init = second.drop_last();
        lines_of_concat(first, init);
        assert((first + second).drop_last() =~= first + init);
    }
}

} // verus!
