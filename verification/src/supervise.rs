//! Watching: a copy of the program does the work, and is restarted on every
//! change until the user ends it.
use crate::errors::{WatchError, WatchErrorView};
use crate::path::{FilePath, PathView};
use crate::text::texts;
use vstd::prelude::*;
use vstd::string::*;

verus! {

/// The variable that keeps a process from watching.
pub const WATCHING_PROHIBITED: &'static str = "PERSEUS_WATCHING_PROHIBITED";

/// The variable that makes a process order reloads at the reload server.
pub const USE_RELOAD_SERVER: &'static str = "PERSEUS_USE_RELOAD_SERVER";

/// The variable that names the example to run in during development.
pub const TEST_EXAMPLE: &'static str = "TEST_EXAMPLE";

/// How the copy of the program is started.
#[derive(Debug, PartialEq, Eq)]
pub struct ChildCommand {
    /// The program to start.
    pub program: FilePath,
    /// Its arguments, without its own name.
    pub args: Vec<String>,
    /// The environment variables that are set for it.
    pub set: Vec<(String, String)>,
    /// The environment variables that are then taken from it.
    pub unset: Vec<String>,
}

/// A [`ChildCommand`] in terms of what it holds.
pub struct ChildView {
    pub program: PathView,
    pub args: Seq<Seq<char>>,
    pub set: Seq<(Seq<char>, Seq<char>)>,
    pub unset: Seq<Seq<char>>,
}

impl View for ChildCommand {
    type V = ChildView;

    open spec fn view(&self) -> ChildView {
        ChildView {
            program: self.program@,
            args: texts(self.args@),
            set: self.set@.map_values(|v: (String, String)| (v.0@, v.1@)),
            unset: texts(self.unset@),
        }
    }
}

/// How the copy of the program is started that was itself started as `program`
/// with `args`. During development it runs where its parent runs.
pub open spec fn child(program: PathView, args: Seq<Seq<char>>, debug: bool) -> ChildView {
    ChildView {
        program,
        args: args.skip(1),
        set: seq![(WATCHING_PROHIBITED@, "true"@), (USE_RELOAD_SERVER@, "true"@)],
        unset: if debug {
            seq![TEST_EXAMPLE@]
        } else {
            Seq::empty()
        },
    }
}

/// How to start the copy of the program. `args` are the arguments of this
/// process, the first of which is its own name.
pub fn child_command(program: FilePath, args: Vec<String>, debug: bool) -> (command: ChildCommand)
    requires
        args@.len() > 0,
    ensures
        command@ == child(program@, texts(args@), debug),
{
    let ghost all = args@;
    let mut args = args;
    args.remove(0);
    let set = vec![
        (WATCHING_PROHIBITED.to_owned(), "true".to_owned()),
        (USE_RELOAD_SERVER.to_owned(), "true".to_owned()),
    ];
    let unset: Vec<String> = if debug {
        vec![TEST_EXAMPLE.to_owned()]
    } else {
        Vec::new()
    };
    let command = ChildCommand { program, args, set, unset };
    assert(command@.args =~= texts(all).skip(1));
    assert(command@.set =~= child(program@, texts(all), debug).set);
    assert(command@.unset =~= child(program@, texts(all), debug).unset);
    command
}

/// What a watching process is told from outside.
#[derive(Clone, Copy, PartialEq, Eq, Structural, Debug)]
pub enum Event {
    /// Something changed: restart the copy of the program.
    Reload,
    /// Stop the copy of the program, and stop watching.
    Terminate,
}

/// What the outside world is asked to do next.
#[derive(Clone, Copy, PartialEq, Eq, Structural, Debug)]
pub enum Duty {
    /// Start the copy of the program, in a process group of its own.
    Spawn,
    /// Wait for an event.
    Await,
    /// Kill the copy of the program and its children. Whether that works makes no
    /// difference: it does not where the copy has ended already.
    Kill,
    /// Nothing: watching is over.
    Stop,
}

/// What came of it.
#[derive(Debug, PartialEq, Eq)]
pub enum Outcome<E> {
    /// The copy of the program was started, or killed.
    Done,
    /// The copy of the program could not be started, or killed, or no event can
    /// arrive any more.
    Failed(E),
    /// An event arrived.
    Arrived(Event),
}

/// How far the watching process has come.
pub enum WatchStage<E> {
    /// The copy of the program is to be started.
    Starting,
    /// The copy of the program is running.
    Running,
    /// The copy of the program is to be killed, and started again.
    Restarting,
    /// The copy of the program is to be killed for good.
    Stopping,
    /// Over.
    Over(Result<i32, WatchErrorView<E>>),
}

/// The watching process as a mathematical state.
pub struct WatchState<E> {
    pub command: ChildView,
    pub stage: WatchStage<E>,
}

impl<E> WatchState<E> {
    /// What the outside world is asked to do in this state.
    pub open spec fn duty(self) -> Duty {
        match self.stage {
            WatchStage::Starting => Duty::Spawn,
            WatchStage::Running => Duty::Await,
            WatchStage::Restarting => Duty::Kill,
            WatchStage::Stopping => Duty::Kill,
            WatchStage::Over(_) => Duty::Stop,
        }
    }

    /// The state after an outcome. One that does not belong to the duty of the
    /// state changes nothing.
    pub open spec fn step(self, outcome: Outcome<E>) -> WatchState<E> {
        let stage = match (self.stage, outcome) {
            (WatchStage::Starting, Outcome::Done) => WatchStage::Running,
            (WatchStage::Starting, Outcome::Failed(source)) => {
                WatchStage::Over(Err(WatchErrorView::SpawnSelfFailed { source }))
            },
            (WatchStage::Running, Outcome::Arrived(Event::Reload)) => WatchStage::Restarting,
            (WatchStage::Running, Outcome::Arrived(Event::Terminate)) => WatchStage::Stopping,
            (WatchStage::Running, Outcome::Failed(source)) => {
                WatchStage::Over(Err(WatchErrorView::WatcherError { source }))
            },
            (WatchStage::Restarting, Outcome::Done) => WatchStage::Starting,
            (WatchStage::Restarting, Outcome::Failed(_)) => WatchStage::Starting,
            (WatchStage::Stopping, Outcome::Done) => WatchStage::Over(Ok(0)),
            (WatchStage::Stopping, Outcome::Failed(_)) => WatchStage::Over(Ok(0)),
            _ => self.stage,
        };
        WatchState { stage, ..self }
    }
}

/// How far the watching process has come.
enum Phase<E> {
    Starting,
    Running,
    Restarting,
    Stopping,
    Over(Result<i32, WatchError<E>>),
}

impl<E> Phase<E> {
    spec fn model(self) -> WatchStage<E> {
        match self {
            Phase::Starting => WatchStage::Starting,
            Phase::Running => WatchStage::Running,
            Phase::Restarting => WatchStage::Restarting,
            Phase::Stopping => WatchStage::Stopping,
            Phase::Over(Ok(code)) => WatchStage::Over(Ok(code)),
            Phase::Over(Err(error)) => WatchStage::Over(Err(error@)),
        }
    }
}

/// The watching process. `E` is what the outside world reports as a failure.
pub struct Supervisor<E> {
    command: ChildCommand,
    phase: Phase<E>,
}

impl<E> View for Supervisor<E> {
    type V = WatchState<E>;

    closed spec fn view(&self) -> WatchState<E> {
        WatchState { command: self.command@, stage: self.phase.model() }
    }
}

impl<E> Supervisor<E> {
    /// A watching process that has not started anything yet.
    pub fn new(command: ChildCommand) -> (supervisor: Supervisor<E>)
        ensures
            supervisor@ == (WatchState::<E> {
                command: command@,
                stage: WatchStage::Starting,
            }),
    {
        Supervisor { command, phase: Phase::Starting }
    }

    /// How to start the copy of the program.
    pub fn command(&self) -> (command: &ChildCommand)
        ensures
            command@ == self@.command,
    {
        &self.command
    }

    /// What the outside world is to do next.
    pub fn duty(&self) -> (duty: Duty)
        ensures
            duty == self@.duty(),
    {
        match &self.phase {
            Phase::Starting => Duty::Spawn,
            Phase::Running => Duty::Await,
            Phase::Restarting => Duty::Kill,
            Phase::Stopping => Duty::Kill,
            Phase::Over(_) => Duty::Stop,
        }
    }

    /// Takes what came of it.
    pub fn handle(self, outcome: Outcome<E>) -> (next: Supervisor<E>)
        ensures
            next@ == self@.step(outcome),
    {
        let Supervisor { command, phase } = self;
        let phase = match (phase, outcome) {
            (Phase::Starting, Outcome::Done) => Phase::Running,
            (Phase::Starting, Outcome::Failed(source)) => {
                Phase::Over(Err(WatchError::SpawnSelfFailed { source }))
            },
            (Phase::Running, Outcome::Arrived(Event::Reload)) => Phase::Restarting,
            (Phase::Running, Outcome::Arrived(Event::Terminate)) => Phase::Stopping,
            (Phase::Running, Outcome::Failed(source)) => {
                Phase::Over(Err(WatchError::WatcherError { source }))
            },
            (Phase::Restarting, Outcome::Done) => Phase::Starting,
            (Phase::Restarting, Outcome::Failed(_)) => Phase::Starting,
            (Phase::Stopping, Outcome::Done) => Phase::Over(Ok(0)),
            (Phase::Stopping, Outcome::Failed(_)) => Phase::Over(Ok(0)),
            (phase, _) => phase,
        };
        Supervisor { command, phase }
    }

    /// How watching ended, if it has: with an exit code or a failure.
    pub fn into_result(self) -> (result: Option<Result<i32, WatchError<E>>>)
        ensures
            match result {
                Some(Ok(code)) => self@.stage == WatchStage::<E>::Over(Ok(code)),
                Some(Err(error)) => self@.stage == WatchStage::Over(Err(error@)),
                None => self@.stage !is Over,
            },
    {
        match self.phase {
            Phase::Over(result) => Some(result),
            _ => None,
        }
    }
}

} // verus!
