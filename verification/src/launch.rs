//! From the command line to the decision whether the command is watched or
//! carried out once, and on to what is decided.
use crate::dispatch::{started, Execution, ExecutionState, Notice};
use crate::opts::{Opts, Subcommand};
use crate::path::{FilePath, PathView};
use crate::setup::{initial, Setup, SetupState};
use crate::supervise::WATCHING_PROHIBITED;
use crate::text::texts;
use vstd::prelude::*;

verus! {

/// Whether a process may watch, by what it finds in the variable that prohibits
/// it: as long as there is nothing in it.
pub open spec fn may_watch(variable: Option<Seq<char>>) -> bool {
    variable is None
}

/// The custom entries to watch by, if the command is to be watched: the user
/// asked for it, and the process may.
pub open spec fn watch_choice(subcmd: Subcommand, allowed: bool) -> Option<Seq<Seq<char>>> {
    match subcmd.watching() {
        Some(watching) => if watching.watch && allowed {
            Some(texts(watching.custom_watch@))
        } else {
            None
        },
        None => None,
    }
}

/// What a list of texts that may be missing holds.
pub open spec fn chosen(custom: Option<Vec<String>>) -> Option<Seq<Seq<char>>> {
    match custom {
        Some(custom) => Some(texts(custom@)),
        None => None,
    }
}

/// What a text that may be missing holds.
pub open spec fn content(text: Option<String>) -> Option<Seq<char>> {
    match text {
        Some(text) => Some(text@),
        None => None,
    }
}

/// The custom entries to watch by, if the command is to be watched.
pub fn choose_watch(subcmd: &Subcommand, allowed: bool) -> (custom: Option<Vec<String>>)
    ensures
        chosen(custom) == watch_choice(*subcmd, allowed),
{
    match subcmd.watch_opts() {
        Some(watching) => {
            if watching.watch && allowed {
                let custom = watching.custom_watch.clone();
                assert(texts(custom@) =~= texts(watching.custom_watch@));
                Some(custom)
            } else {
                None
            }
        },
        None => None,
    }
}

/// Where the reload server listens, if it is wanted.
pub open spec fn reload_server(opts: Opts) -> Option<(Seq<char>, u16)> {
    if opts.no_browser_reload {
        None
    } else {
        Some(opts.reload_server@)
    }
}

/// The setup of the watcher for the custom entries `custom`. The names in
/// `passed_over` are never watched at the top level of the current directory.
pub fn watch_setup<E>(
    opts: &Opts,
    custom: Vec<String>,
    passed_over: Vec<String>,
) -> (setup: Setup<E>)
    ensures
        setup@ == initial::<E>(texts(custom@), reload_server(*opts), texts(passed_over@)),
{
    if opts.no_browser_reload {
        Setup::new(custom, None, passed_over)
    } else {
        Setup::new(custom, Some(opts.reload_server.duplicate()), passed_over)
    }
}

/// What is done once it is decided whether to watch. `S` and `E` are what the
/// outside world reports as a failure on either course.
pub enum Course<S, E> {
    /// The command is watched, which is set up first.
    Watch(Setup<S>),
    /// The command is carried out once.
    Once(Execution<E>),
}

/// A [`Course`] in terms of what it holds.
pub enum CourseView<S, E> {
    Watch(SetupState<S>),
    Once(ExecutionState<E>),
}

impl<S, E> View for Course<S, E> {
    type V = CourseView<S, E>;

    open spec fn view(&self) -> CourseView<S, E> {
        match *self {
            Course::Watch(setup) => CourseView::Watch(setup@),
            Course::Once(execution) => CourseView::Once(execution@),
        }
    }
}

/// What is done in the directory `dir` once it is decided whether to watch: with
/// custom entries to watch by, the setup for them, and otherwise the command
/// itself.
pub open spec fn decided_course<S, E>(
    dir: PathView,
    opts: Opts,
    decision: Option<Seq<Seq<char>>>,
    passed_over: Seq<Seq<char>>,
) -> CourseView<S, E> {
    match decision {
        Some(custom) => CourseView::Watch(initial(custom, reload_server(opts), passed_over)),
        None => CourseView::Once(started(dir, opts.subcmd, opts.reload_server@)),
    }
}

/// What is done in the directory `dir` once it is decided whether to watch.
pub fn course<S, E>(
    dir: &FilePath,
    opts: &Opts,
    decision: Option<Vec<String>>,
    passed_over: Vec<String>,
) -> (course: Course<S, E>)
    ensures
        course@ == decided_course::<S, E>(dir@, *opts, chosen(decision), texts(passed_over@)),
{
    match decision {
        Some(custom) => Course::Watch(watch_setup(opts, custom, passed_over)),
        None => Course::Once(Execution::new(dir, opts)),
    }
}

/// What the outside world is asked to do next.
#[derive(Clone, Copy, PartialEq, Eq, Debug)]
pub enum Request {
    /// Tell the user something.
    Notify(Notice),
    /// Make sure that everything is installed that commands rely on.
    CheckEnvironment,
    /// Read the environment variable of this name.
    ReadVariable(&'static str),
    /// Nothing: the decision is made.
    Stop,
}

/// What came of it.
#[derive(Debug, PartialEq, Eq)]
pub enum Answer<E> {
    /// It was done.
    Done,
    /// It failed.
    Failed(E),
    /// What is in the variable, if there is anything that can be read.
    Variable(Option<String>),
}

/// An [`Answer`] in terms of what it holds.
pub enum AnswerView<E> {
    Done,
    Failed(E),
    Variable(Option<Seq<char>>),
}

impl<E> View for Answer<E> {
    type V = AnswerView<E>;

    open spec fn view(&self) -> AnswerView<E> {
        match *self {
            Answer::Done => AnswerView::Done,
            Answer::Failed(error) => AnswerView::Failed(error),
            Answer::Variable(text) => AnswerView::Variable(content(text)),
        }
    }
}

/// How far the decision has come.
pub enum LaunchStage<E> {
    /// The user is told that the program runs on a single thread.
    Noting,
    /// The environment is checked.
    Checking,
    /// The variable that prohibits watching is read.
    Asking,
    /// Over: with the custom entries to watch by, with nothing to watch, or with
    /// a failure.
    Over(Result<Option<Seq<Seq<char>>>, E>),
}

/// The way to the decision as a mathematical state.
pub struct LaunchState<E> {
    pub subcmd: Subcommand,
    pub stage: LaunchStage<E>,
}

impl<E> LaunchState<E> {
    /// What the outside world is asked to do in this state.
    pub open spec fn request(self) -> Request {
        match self.stage {
            LaunchStage::Noting => Request::Notify(Notice::Sequential),
            LaunchStage::Checking => Request::CheckEnvironment,
            LaunchStage::Asking => Request::ReadVariable(WATCHING_PROHIBITED),
            LaunchStage::Over(_) => Request::Stop,
        }
    }

    /// The state after an answer. One that does not belong to the request of the
    /// state changes nothing.
    pub open spec fn step(self, answer: AnswerView<E>) -> LaunchState<E> {
        let stage = match (self.stage, answer) {
            (LaunchStage::Noting, AnswerView::Done) => LaunchStage::Checking,
            (LaunchStage::Checking, AnswerView::Done) => LaunchStage::Asking,
            (LaunchStage::Checking, AnswerView::Failed(error)) => LaunchStage::Over(Err(error)),
            (LaunchStage::Asking, AnswerView::Variable(variable)) => {
                LaunchStage::Over(Ok(watch_choice(self.subcmd, may_watch(variable))))
            },
            _ => self.stage,
        };
        LaunchState { stage, ..self }
    }
}

/// The state in which the way to the decision starts.
pub open spec fn launched<E>(opts: Opts) -> LaunchState<E> {
    LaunchState {
        subcmd: opts.subcmd,
        stage: if opts.sequential {
            LaunchStage::Noting
        } else {
            LaunchStage::Checking
        },
    }
}

/// How far the decision has come.
enum Phase<E> {
    Noting,
    Checking,
    Asking,
    Over(Result<Option<Vec<String>>, E>),
}

impl<E> Phase<E> {
    spec fn model(self) -> LaunchStage<E> {
        match self {
            Phase::Noting => LaunchStage::Noting,
            Phase::Checking => LaunchStage::Checking,
            Phase::Asking => LaunchStage::Asking,
            Phase::Over(Ok(custom)) => LaunchStage::Over(Ok(chosen(custom))),
            Phase::Over(Err(error)) => LaunchStage::Over(Err(error)),
        }
    }
}

/// The way to the decision. `E` is what the outside world reports as a failure.
pub struct Launch<'a, E> {
    subcmd: &'a Subcommand,
    phase: Phase<E>,
}

impl<'a, E> View for Launch<'a, E> {
    type V = LaunchState<E>;

    closed spec fn view(&self) -> LaunchState<E> {
        LaunchState { subcmd: *self.subcmd, stage: self.phase.model() }
    }
}

impl<'a, E> Launch<'a, E> {
    /// The way to the decision for this command line.
    pub fn new(opts: &'a Opts) -> (launch: Launch<'a, E>)
        ensures
            launch@ == launched::<E>(*opts),
    {
        let phase = if opts.sequential {
            Phase::Noting
        } else {
            Phase::Checking
        };
        Launch { subcmd: &opts.subcmd, phase }
    }

    /// What the outside world is to do next.
    pub fn request(&self) -> (request: Request)
        ensures
            request == self@.request(),
    {
        match &self.phase {
            Phase::Noting => Request::Notify(Notice::Sequential),
            Phase::Checking => Request::CheckEnvironment,
            Phase::Asking => Request::ReadVariable(WATCHING_PROHIBITED),
            Phase::Over(_) => Request::Stop,
        }
    }

    /// Takes what came of it.
    pub fn handle(self, answer: Answer<E>) -> (next: Launch<'a, E>)
        ensures
            next@ == self@.step(answer@),
    {
        let Launch { subcmd, phase } = self;
        let phase = match (phase, answer) {
            (Phase::Noting, Answer::Done) => Phase::Checking,
            (Phase::Checking, Answer::Done) => Phase::Asking,
            (Phase::Checking, Answer::Failed(error)) => Phase::Over(Err(error)),
            (Phase::Asking, Answer::Variable(variable)) => {
                Phase::Over(Ok(choose_watch(subcmd, variable.is_none())))
            },
            (phase, _) => phase,
        };
        Launch { subcmd, phase }
    }

    /// The decision, once it is made: the custom entries to watch by, or that the
    /// command is carried out once.
    pub fn into_result(self) -> (result: Option<Result<Option<Vec<String>>, E>>)
        ensures
            match result {
                Some(Ok(custom)) => self@.stage == LaunchStage::<E>::Over(Ok(chosen(custom))),
                Some(Err(error)) => self@.stage == LaunchStage::Over(Err(error)),
                None => self@.stage !is Over,
            },
    {
        match self.phase {
            Phase::Over(result) => Some(result),
            _ => None,
        }
    }
}

} // verus!
