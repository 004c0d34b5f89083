//! The life of one resolver subprocess, from the command line it is started
//! with to the verdict on its exit.
//!
//! The caller starts the process and reads its pipes; the [`Subprocess`] holds
//! what was decided so far and says what it all amounts to in the end. Both
//! streams are drained before the exit status is asked for: a child that
//! writes into a full pipe that nobody reads would never exit.

use crate::error::{CliError, Failure};
use crate::multiplexer::{
    lines_of, replay_keeps_every_payload, Action, Multiplexer, MultiplexerModel, Origin,
    StreamEvent, StreamEventModel,
};
use crate::protocol::{
    payloads, payloads_are_the_protocol_lines, protocol_lines, without_sentinel,
};
use vstd::prelude::*;

verus! {

/// How the wait for a subprocess ended.
#[derive(Debug, PartialEq, Eq)]
pub enum ProcessExit {
    /// The process exited with this status.
    Exited(i32),
    /// The process was ended from outside and left no exit status.
    Terminated,
    /// The operating system failed the wait itself, for this reason.
    WaitFailed(String),
}

/// The content of a [`ProcessExit`].
pub enum ExitModel {
    Exited(int),
    Terminated,
    WaitFailed(Seq<char>),
}

impl View for ProcessExit {
    type V = ExitModel;

    open spec fn view(&self) -> ExitModel {
        match self {
            ProcessExit::Exited(status) => ExitModel::Exited(*status as int),
            ProcessExit::Terminated => ExitModel::Terminated,
            ProcessExit::WaitFailed(cause) => ExitModel::WaitFailed(cause@),
        }
    }
}

/// What a run of `program` amounts to, given the payloads of its protocol
/// lines and the way it ended: the payloads after exit status 0 and an error
/// after anything else, whatever the payloads are.
pub open spec fn verdict(program: Seq<char>, lines: Seq<Seq<char>>, exit: ExitModel) -> Result<
    Seq<Seq<char>>,
    Failure,
> {
    match exit {
        ExitModel::Exited(status) => if status == 0 {
            Ok(lines)
        } else {
            Err(Failure::ResolverErrored(program))
        },
        ExitModel::Terminated => Err(Failure::ResolverErrored(program)),
        ExitModel::WaitFailed(cause) => Err(
            Failure::UnexpectedProcessFailure { program, message: cause },
        ),
    }
}

/// The state of a subprocess: its command line and its two output streams.
pub struct SubprocessModel {
    pub program: Seq<char>,
    pub args: Seq<Seq<char>>,
    pub streams: MultiplexerModel,
}

/// One run of an executable: the command line to start it with, and its two
/// output streams as far as they have been read. A run is ended once, and
/// with that it is gone.
#[derive(Debug)]
pub struct Subprocess {
    program: String,
    args: Vec<String>,
    streams: Multiplexer,
}

impl View for Subprocess {
    type V = SubprocessModel;

    closed spec fn view(&self) -> SubprocessModel {
        SubprocessModel {
            program: self.program@,
            args: self.args.deep_view(),
            streams: self.streams@,
        }
    }
}

impl Subprocess {
    /// A run of `program` with `args` that has yet to be started: nothing was
    /// read, and both streams count as open.
    pub fn new(program: String, args: Vec<String>) -> (process: Subprocess)
        ensures
            process@ == (SubprocessModel {
                program: program@,
                args: args.deep_view(),
                streams: MultiplexerModel::fresh(),
            }),
    {
        Subprocess { program, args, streams: Multiplexer::new() }
    }

    /// The path of the executable to start.
    pub fn program(&self) -> (program: &String)
        ensures
            program@ == self@.program,
    {
        &self.program
    }

    /// The arguments to start the executable with.
    pub fn args(&self) -> (args: &Vec<String>)
        ensures
            args.deep_view() == self@.args,
    {
        &self.args
    }

    /// Whether the stream `origin` is still to be read from.
    pub fn is_open(&self, origin: Origin) -> (open: bool)
        ensures
            open == self@.streams.is_open(origin),
    {
        self.streams.is_open(origin)
    }

    /// Whether both streams have ended, so that the exit status may be asked
    /// for.
    pub fn is_drained(&self) -> (drained: bool)
        ensures
            drained == self@.streams.drained(),
    {
        self.streams.is_drained()
    }

    /// The error to report when the process could not be started.
    pub fn spawn_failed(&self) -> (error: CliError)
        ensures
            error@ == Failure::InvalidResolver(self@.program),
    {
        CliError::InvalidResolver(self.program.clone())
    }

    /// Takes in the next event from the pipes and says what to do after it.
    /// The command line stays as it is.
    pub fn step(&mut self, event: StreamEvent) -> (action: Action)
        ensures
            final(self)@ == (SubprocessModel {
                streams: old(self)@.streams.advance(event@),
                ..old(self)@
            }),
            action@ == old(self)@.streams.reaction(event@),
    {
        self.streams.step(event)
    }

    /// Ends the run, once both streams are drained and the wait for the
    /// process is over: the payloads of all protocol lines after exit status
    /// 0, an error that names the executable after any other end. What was
    /// collected from a run that failed is dropped.
    pub fn finish(self, exit: ProcessExit) -> (result: Result<Vec<String>, CliError>)
        requires
            self@.streams.drained(),
        ensures
            match result {
                Ok(lines) => verdict(self@.program, self@.streams.buffered, exit@) == Ok::<
                    Seq<Seq<char>>,
                    Failure,
                >(lines.deep_view()),
                Err(error) => verdict(self@.program, self@.streams.buffered, exit@) == Err::<
                    Seq<Seq<char>>,
                    Failure,
                >(error@),
            },
    {
        match exit {
            ProcessExit::Exited(status) => {
                if status == 0 {
                    Ok(self.streams.into_lines())
                } else {
                    Err(CliError::ResolverErrored(self.program))
                }
            },
            ProcessExit::Terminated => Err(CliError::ResolverErrored(self.program)),
            ProcessExit::WaitFailed(cause) => Err(
                CliError::UnexpectedProcessFailure { program: self.program, message: cause },
            ),
        }
    }
}

/// What a whole run of `program` amounts to: all that came from its pipes,
/// in the order in which it came, and then the way the process ended.
pub open spec fn run(program: Seq<char>, events: Seq<StreamEventModel>, exit: ExitModel) -> Result<
    Seq<Seq<char>>,
    Failure,
> {
    verdict(program, MultiplexerModel::fresh().replay(events).buffered, exit)
}

/// A run that ends with exit status 0 returns one element for each protocol
/// line that came, from either stream: as many elements as protocol lines, in
/// the order in which the lines came, each line without its sentinel, and
/// nothing of any diagnostic line.
pub proof fn successful_run_returns_the_protocol_lines(
    program: Seq<char>,
    events: Seq<StreamEventModel>,
)
    ensures
        run(program, events, ExitModel::Exited(0)) == Ok::<Seq<Seq<char>>, Failure>(
            without_sentinel(protocol_lines(lines_of(events))),
        ),
        without_sentinel(protocol_lines(lines_of(events))).len() == protocol_lines(
            lines_of(events),
        ).len(),
{
    replay_keeps_every_payload(MultiplexerModel::fresh(), events);
    payloads_are_the_protocol_lines(lines_of(events));
}

/// A run that does not end with exit status 0 gives an error that names the
/// program, and nothing of what came from its pipes: whatever came, the error
/// is the same.
pub proof fn failed_run_returns_no_output(
    program: Seq<char>,
    events: Seq<StreamEventModel>,
    others: Seq<StreamEventModel>,
    exit: ExitModel,
)
    requires
        exit != ExitModel::Exited(0),
    ensures
        run(program, events, exit) is Err,
        run(program, events, exit) == run(program, others, exit),
        exit is Exited || exit is Terminated ==> run(program, events, exit) == Err::<
            Seq<Seq<char>>,
            Failure,
        >(Failure::ResolverErrored(program)),
{
}

} // verus!
