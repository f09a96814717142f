//! One worker: the record of a worker process and the steps of its protocol.
//!
//! The pool never touches a process itself. A call on a worker is a walk
//! through [`Stage`]s: each stage names the one piece of input or output that
//! the driver has to perform on the process, and the [`Event`] that reports
//! it decides the next stage, until the stage is [`Stage::Done`].

use crate::error::PoolError;
use crate::error::PoolErrorView;
use crate::protocol::is_ready_token;
use crate::protocol::parse_reply;
use crate::protocol::ready_token;
use crate::protocol::reply_outcome;
use crate::protocol::request_line;
use crate::protocol::request_text;
use crate::protocol::strip_line_end;
use crate::protocol::stripped;
use vstd::prelude::*;

verus! {

/// What a look at the process's exit status showed.
#[derive(Debug, PartialEq, Eq)]
pub enum ExitPoll {
    /// The process has not exited.
    Running,
    /// The process has exited. Holds its exit status as text.
    Exited(String),
    /// The status could not be had. Holds the reason.
    Unknown(String),
}

/// The mathematical value of an [`ExitPoll`].
pub enum ExitPollView {
    Running,
    Exited(Seq<char>),
    Unknown(Seq<char>),
}

impl View for ExitPoll {
    type V = ExitPollView;

    open spec fn view(&self) -> ExitPollView {
        match self {
            ExitPoll::Running => ExitPollView::Running,
            ExitPoll::Exited(status) => ExitPollView::Exited(status@),
            ExitPoll::Unknown(reason) => ExitPollView::Unknown(reason@),
        }
    }
}

/// What the driver reports back after it did what a stage asked for.
#[derive(Debug, PartialEq, Eq)]
pub enum Event {
    /// One line was read from a process that should announce itself, and
    /// then its exit status was looked at.
    Ready { line: Vec<u8>, exit: ExitPoll },
    /// The exit status was looked at.
    Exit(ExitPoll),
    /// The old process was discarded and a replacement launched.
    Respawned,
    /// The request line was written and flushed.
    Sent,
    /// One line was read.
    Line(Vec<u8>),
    /// What the stage asked for could not be done. Holds the reason.
    Failed(String),
}

/// The mathematical value of an [`Event`].
pub enum EventView {
    Ready { line: Seq<u8>, exit: ExitPollView },
    Exit(ExitPollView),
    Respawned,
    Sent,
    Line(Seq<u8>),
    Failed(Seq<char>),
}

impl View for Event {
    type V = EventView;

    open spec fn view(&self) -> EventView {
        match self {
            Event::Ready { line, exit } => EventView::Ready { line: line@, exit: exit@ },
            Event::Exit(exit) => EventView::Exit(exit@),
            Event::Respawned => EventView::Respawned,
            Event::Sent => EventView::Sent,
            Event::Line(line) => EventView::Line(line@),
            Event::Failed(reason) => EventView::Failed(reason@),
        }
    }
}

/// How a call on a worker ended.
#[derive(Debug, PartialEq, Eq)]
pub enum Outcome {
    /// The ready handshake succeeded.
    Started,
    /// The worker answered the query. Holds its reply.
    Reply(String),
    /// The call failed.
    Failed(PoolError),
}

/// The mathematical value of an [`Outcome`].
pub enum OutcomeView {
    Started,
    Reply(Seq<char>),
    Failed(PoolErrorView),
}

impl View for Outcome {
    type V = OutcomeView;

    open spec fn view(&self) -> OutcomeView {
        match self {
            Outcome::Started => OutcomeView::Started,
            Outcome::Reply(reply) => OutcomeView::Reply(reply@),
            Outcome::Failed(error) => OutcomeView::Failed(error@),
        }
    }
}

/// Where a call on a worker stands, and with it what the driver does next.
#[derive(Debug, PartialEq, Eq)]
pub enum Stage {
    /// Handshake asked for by itself. Read one line, then look at the exit
    /// status; report [`Event::Ready`].
    Starting,
    /// Handshake of a worker that was queried before it had started. The
    /// driver does as for `Starting`.
    LazyStarting { query: String },
    /// Liveness check before the query goes out. Look at the exit status;
    /// report [`Event::Exit`].
    CheckingAlive { query: String },
    /// The process was found dead. Discard it and launch a replacement;
    /// report [`Event::Respawned`].
    Respawning { query: String },
    /// Handshake of the replacement. The driver does as for `Starting`.
    Restarting { query: String },
    /// Write `line` to the process and flush; report [`Event::Sent`].
    Sending { line: String },
    /// Read one line; report [`Event::Line`].
    Receiving,
    /// The call is over.
    Done(Outcome),
}

/// The mathematical value of a [`Stage`].
pub enum StageView {
    Starting,
    LazyStarting { query: Seq<char> },
    CheckingAlive { query: Seq<char> },
    Respawning { query: Seq<char> },
    Restarting { query: Seq<char> },
    Sending { line: Seq<char> },
    Receiving,
    Done(OutcomeView),
}

impl Stage {
    /// Whether the call is over.
    pub fn is_done(&self) -> (done: bool)
        ensures
            done == (self@ is Done),
    {
        match self {
            Stage::Done(_) => true,
            _ => false,
        }
    }

    /// How the call ended, once it is over.
    pub fn into_outcome(self) -> (outcome: Option<Outcome>)
        ensures
            match outcome {
                Some(o) => self@ == StageView::Done(o@),
                None => !(self@ is Done),
            },
    {
        match self {
            Stage::Done(outcome) => Some(outcome),
            _ => None,
        }
    }
}

impl View for Stage {
    type V = StageView;

    open spec fn view(&self) -> StageView {
        match self {
            Stage::Starting => StageView::Starting,
            Stage::LazyStarting { query } => StageView::LazyStarting { query: query@ },
            Stage::CheckingAlive { query } => StageView::CheckingAlive { query: query@ },
            Stage::Respawning { query } => StageView::Respawning { query: query@ },
            Stage::Restarting { query } => StageView::Restarting { query: query@ },
            Stage::Sending { line } => StageView::Sending { line: line@ },
            Stage::Receiving => StageView::Receiving,
            Stage::Done(outcome) => StageView::Done(outcome@),
        }
    }
}

/// The record of one worker process: how it is launched, and whether the
/// process that currently stands for it has completed its ready handshake.
#[derive(Debug)]
pub struct Worker {
    started: bool,
    py_path: String,
    args: Vec<String>,
}

/// The mathematical value of a [`Worker`].
pub struct WorkerView {
    pub started: bool,
    pub py_path: Seq<char>,
    pub args: Seq<Seq<char>>,
}

/// The texts of a list of strings.
pub open spec fn texts(strings: Seq<String>) -> Seq<Seq<char>> {
    strings.map_values(|s: String| s@)
}

impl View for Worker {
    type V = WorkerView;

    closed spec fn view(&self) -> WorkerView {
        WorkerView { started: self.started, py_path: self.py_path@, args: texts(self.args@) }
    }
}

/// What the ready handshake makes of the line it read and of the exit status
/// it saw afterwards. A process that has exited fails the handshake whatever
/// it wrote; one that runs passes it with the ready token and nothing else.
pub open spec fn ready_outcome(raw: Seq<u8>, exit: ExitPollView) -> Result<(), PoolErrorView> {
    match exit {
        ExitPollView::Unknown(reason) => Err(PoolErrorView::Io(reason)),
        ExitPollView::Exited(status) => Err(PoolErrorView::ProcessExited(status)),
        ExitPollView::Running => if stripped(raw) == ready_token() {
            Ok(())
        } else {
            Err(PoolErrorView::UnexpectedStartupOutput(stripped(raw)))
        },
    }
}

/// The stage at which a handshake asked for by itself begins.
pub open spec fn first_start_stage(started: bool) -> StageView {
    if started {
        StageView::Done(OutcomeView::Failed(PoolErrorView::AlreadyStarted))
    } else {
        StageView::Starting
    }
}

/// The stage at which a query begins: the handshake where the worker has not
/// started, the liveness check where it has.
pub open spec fn first_query_stage(started: bool, query: Seq<char>) -> StageView {
    if started {
        StageView::CheckingAlive { query }
    } else {
        StageView::LazyStarting { query }
    }
}

/// The last stage of a call that failed with `error`.
pub open spec fn failed(error: PoolErrorView) -> StageView {
    StageView::Done(OutcomeView::Failed(error))
}

/// The stage that follows a handshake: `next` where it succeeded.
pub open spec fn after_handshake(raw: Seq<u8>, exit: ExitPollView, next: StageView) -> StageView {
    match ready_outcome(raw, exit) {
        Ok(_) => next,
        Err(error) => failed(error),
    }
}

/// The stage that follows `stage` once `event` is reported.
///
/// A handshake leads on to what it was for. A liveness check leads to the
/// request, or to a restart where the process has exited; a restart leads to
/// the replacement's handshake and from there straight to the request. The
/// request leads to the reply, and the reply ends the call. Whatever fails
/// on the way ends the call with that failure. An event that the stage does
/// not wait for ends it with `UnexpectedEvent`.
pub open spec fn next_stage(stage: StageView, event: EventView) -> StageView {
    match stage {
        StageView::Starting => match event {
            EventView::Ready { line, exit } => after_handshake(
                line,
                exit,
                StageView::Done(OutcomeView::Started),
            ),
            EventView::Failed(reason) => failed(PoolErrorView::Io(reason)),
            _ => failed(PoolErrorView::UnexpectedEvent),
        },
        StageView::LazyStarting { query } => match event {
            EventView::Ready { line, exit } => after_handshake(
                line,
                exit,
                StageView::CheckingAlive { query },
            ),
            EventView::Failed(reason) => failed(PoolErrorView::Io(reason)),
            _ => failed(PoolErrorView::UnexpectedEvent),
        },
        StageView::CheckingAlive { query } => match event {
            EventView::Exit(exit) => if exit is Exited {
                StageView::Respawning { query }
            } else {
                StageView::Sending { line: request_text(query) }
            },
            EventView::Failed(reason) => failed(PoolErrorView::Io(reason)),
            _ => failed(PoolErrorView::UnexpectedEvent),
        },
        StageView::Respawning { query } => match event {
            EventView::Respawned => StageView::Restarting { query },
            EventView::Failed(reason) => failed(PoolErrorView::RestartFailed(reason)),
            _ => failed(PoolErrorView::UnexpectedEvent),
        },
        StageView::Restarting { query } => match event {
            EventView::Ready { line, exit } => after_handshake(
                line,
                exit,
                StageView::Sending { line: request_text(query) },
            ),
            EventView::Failed(reason) => failed(PoolErrorView::Io(reason)),
            _ => failed(PoolErrorView::UnexpectedEvent),
        },
        StageView::Sending { line } => match event {
            EventView::Sent => StageView::Receiving,
            EventView::Failed(reason) => failed(PoolErrorView::Io(reason)),
            _ => failed(PoolErrorView::UnexpectedEvent),
        },
        StageView::Receiving => match event {
            EventView::Line(raw) => match reply_outcome(raw) {
                Ok(reply) => StageView::Done(OutcomeView::Reply(reply)),
                Err(error) => failed(error),
            },
            EventView::Failed(reason) => failed(PoolErrorView::Io(reason)),
            _ => failed(PoolErrorView::UnexpectedEvent),
        },
        StageView::Done(_) => failed(PoolErrorView::UnexpectedEvent),
    }
}

/// Whether the worker counts as started once `event` is reported at `stage`:
/// a handshake that succeeds marks it started, a replacement process marks it
/// not started, and nothing else changes the mark.
pub open spec fn started_after(started: bool, stage: StageView, event: EventView) -> bool {
    match (stage, event) {
        (StageView::Starting, EventView::Ready { line, exit }) => started || ready_outcome(
            line,
            exit,
        ).is_ok(),
        (StageView::LazyStarting { .. }, EventView::Ready { line, exit }) => started
            || ready_outcome(line, exit).is_ok(),
        (StageView::Restarting { .. }, EventView::Ready { line, exit }) => started || ready_outcome(
            line,
            exit,
        ).is_ok(),
        (StageView::Respawning { .. }, EventView::Respawned) => false,
        _ => started,
    }
}

/// The largest number of events that a call at `stage` can still take before
/// it is over.
pub open spec fn steps_left(stage: StageView) -> nat {
    match stage {
        StageView::LazyStarting { .. } => 6,
        StageView::CheckingAlive { .. } => 5,
        StageView::Respawning { .. } => 4,
        StageView::Restarting { .. } => 3,
        StageView::Sending { .. } => 2,
        StageView::Receiving => 1,
        StageView::Starting => 1,
        StageView::Done(_) => 0,
    }
}

/// Every event brings a call nearer to its end, and a call that is over
/// stays over. Within one query a dead process is therefore replaced at most
/// once, and the request is written at most once.
pub proof fn lemma_every_event_makes_progress(stage: StageView, event: EventView)
    ensures
        stage is Done ==> next_stage(stage, event) is Done,
        !(stage is Done) ==> steps_left(next_stage(stage, event)) < steps_left(stage),
{
}

/// A query takes at most six events from its first stage on, a handshake at
/// most one.
pub proof fn lemma_calls_are_short(started: bool, query: Seq<char>)
    ensures
        steps_left(first_query_stage(started, query)) <= 6,
        steps_left(first_start_stage(started)) <= 1,
{
}

/// Decides the ready handshake from the line that was read and the exit
/// status that was seen after it.
pub fn check_ready(line: Vec<u8>, exit: ExitPoll) -> (outcome: Result<(), PoolError>)
    ensures
        match outcome {
            Ok(_) => ready_outcome(line@, exit@).is_ok(),
            Err(error) => ready_outcome(line@, exit@) == Err::<(), PoolErrorView>(error@),
        },
{
    match exit {
        ExitPoll::Unknown(reason) => Err(PoolError::Io(reason)),
        ExitPoll::Exited(status) => Err(PoolError::ProcessExited(status)),
        ExitPoll::Running => {
            let mut line = line;
            strip_line_end(&mut line);
            if is_ready_token(&line) {
                Ok(())
            } else {
                Err(PoolError::UnexpectedStartupOutput(line))
            }
        },
    }
}

/// Decides the liveness check: whether the process has to be replaced.
pub fn check_alive(exit: &ExitPoll) -> (dead: bool)
    ensures
        dead == (exit@ is Exited),
{
    match exit {
        ExitPoll::Exited(_) => true,
        _ => false,
    }
}

impl Worker {
    /// The record of a worker that is launched as `py_path` with `args`, and
    /// whose process has not yet announced itself.
    pub fn new(py_path: &str, args: &[String]) -> (worker: Worker)
        ensures
            worker@ == (WorkerView { started: false, py_path: py_path@, args: texts(args@) }),
    {
        let mut copied: Vec<String> = Vec::new();
        let mut i: usize = 0;
        while i < args.len()
            invariant
                i <= args.len(),
                copied.len() == i,
                forall|j: int| 0 <= j < i ==> copied[j]@ == args[j]@,
            decreases args.len() - i,
        {
            copied.push(args[i].clone());
            i = i + 1;
        }
        assert(texts(copied@) =~= texts(args@));
        Worker { started: false, py_path: py_path.to_owned(), args: copied }
    }

    /// Whether the current process has completed its ready handshake.
    pub fn is_started(&self) -> (started: bool)
        ensures
            started == self@.started,
    {
        self.started
    }

    /// The program that is launched for this worker.
    pub fn py_path(&self) -> (path: &str)
        ensures
            path@ == self@.py_path,
    {
        self.py_path.as_str()
    }

    /// The arguments that the program is launched with.
    pub fn args(&self) -> (args: &Vec<String>)
        ensures
            texts(args@) == self@.args,
    {
        &self.args
    }

    /// Begins the ready handshake. It is owed once to every process, so a
    /// worker that has started refuses it.
    pub fn wait_to_start(&self) -> (stage: Stage)
        ensures
            stage@ == first_start_stage(self@.started),
    {
        if self.started {
            Stage::Done(Outcome::Failed(PoolError::AlreadyStarted))
        } else {
            Stage::Starting
        }
    }

    /// Begins a query.
    pub fn query(&self, query: &str) -> (stage: Stage)
        ensures
            stage@ == first_query_stage(self@.started, query@),
    {
        if self.started {
            Stage::CheckingAlive { query: query.to_owned() }
        } else {
            Stage::LazyStarting { query: query.to_owned() }
        }
    }

    /// Takes the call from `stage` to the next stage, given what the driver
    /// reports of the work that `stage` asked for.
    pub fn advance(&mut self, stage: Stage, event: Event) -> (next: Stage)
        ensures
            next@ == next_stage(stage@, event@),
            final(self)@ == (WorkerView {
                started: started_after(old(self)@.started, stage@, event@),
                ..old(self)@
            }),
    {
        match stage {
            Stage::Starting => match event {
                Event::Ready { line, exit } => match check_ready(line, exit) {
                    Ok(_) => {
                        self.started = true;
                        Stage::Done(Outcome::Started)
                    },
                    Err(error) => Stage::Done(Outcome::Failed(error)),
                },
                Event::Failed(reason) => Stage::Done(Outcome::Failed(PoolError::Io(reason))),
                _ => Stage::Done(Outcome::Failed(PoolError::UnexpectedEvent)),
            },
            Stage::LazyStarting { query } => match event {
                Event::Ready { line, exit } => match check_ready(line, exit) {
                    Ok(_) => {
                        self.started = true;
                        Stage::CheckingAlive { query }
                    },
                    Err(error) => Stage::Done(Outcome::Failed(error)),
                },
                Event::Failed(reason) => Stage::Done(Outcome::Failed(PoolError::Io(reason))),
                _ => Stage::Done(Outcome::Failed(PoolError::UnexpectedEvent)),
            },
            Stage::CheckingAlive { query } => match event {
                Event::Exit(exit) => if check_alive(&exit) {
                    Stage::Respawning { query }
                } else {
                    Stage::Sending { line: request_line(query.as_str()) }
                },
                Event::Failed(reason) => Stage::Done(Outcome::Failed(PoolError::Io(reason))),
                _ => Stage::Done(Outcome::Failed(PoolError::UnexpectedEvent)),
            },
            Stage::Respawning { query } => match event {
                Event::Respawned => {
                    self.started = false;
                    Stage::Restarting { query }
                },
                Event::Failed(reason) => Stage::Done(
                    Outcome::Failed(PoolError::RestartFailed(reason)),
                ),
                _ => Stage::Done(Outcome::Failed(PoolError::UnexpectedEvent)),
            },
            Stage::Restarting { query } => match event {
                Event::Ready { line, exit } => match check_ready(line, exit) {
                    Ok(_) => {
                        self.started = true;
                        Stage::Sending { line: request_line(query.as_str()) }
                    },
                    Err(error) => Stage::Done(Outcome::Failed(error)),
                },
                Event::Failed(reason) => Stage::Done(Outcome::Failed(PoolError::Io(reason))),
                _ => Stage::Done(Outcome::Failed(PoolError::UnexpectedEvent)),
            },
            Stage::Sending { line: _ } => match event {
                Event::Sent => Stage::Receiving,
                Event::Failed(reason) => Stage::Done(Outcome::Failed(PoolError::Io(reason))),
                _ => Stage::Done(Outcome::Failed(PoolError::UnexpectedEvent)),
            },
            Stage::Receiving => match event {
                Event::Line(raw) => match parse_reply(raw) {
                    Ok(reply) => Stage::Done(Outcome::Reply(reply)),
                    Err(error) => Stage::Done(Outcome::Failed(error)),
                },
                Event::Failed(reason) => Stage::Done(Outcome::Failed(PoolError::Io(reason))),
                _ => Stage::Done(Outcome::Failed(PoolError::UnexpectedEvent)),
            },
            Stage::Done(_) => Stage::Done(Outcome::Failed(PoolError::UnexpectedEvent)),
        }
    }
}

} // verus!
