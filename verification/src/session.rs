//! A whole run of the program: from the current directory to the exit code.
use crate::path::{EntryPath, EntryView, FilePath, PathView};
use crate::supervise::TEST_EXAMPLE;
use vstd::prelude::*;

verus! {

/// The exit code that a process can really end with: `code`, or 1 if it does not
/// fit.
pub open spec fn exit_code(code: i32) -> u8 {
    if 0 <= code <= 255 {
        code as u8
    } else {
        1
    }
}

/// The exit code that a process can really end with.
pub fn exit_status(code: i32) -> (status: u8)
    ensures
        status == exit_code(code),
{
    if 0 <= code && code <= 255 {
        code as u8
    } else {
        1
    }
}

/// The name of the environment variable to read before anything else, if there is
/// one: during development, the one that names the directory to run in.
pub open spec fn startup_name(debug: bool) -> Option<Seq<char>> {
    if debug {
        Some(TEST_EXAMPLE@)
    } else {
        None
    }
}

/// The name of the environment variable to read before anything else, if there is
/// one.
pub fn startup_variable(debug: bool) -> (name: Option<&'static str>)
    ensures
        match name {
            Some(name) => startup_name(debug) == Some(name@),
            None => startup_name(debug) is None,
        },
{
    if debug {
        Some(TEST_EXAMPLE)
    } else {
        None
    }
}

/// The directory to run in, if it is not the current one: during development,
/// the one that the variable for it names.
pub open spec fn startup<T>(debug: bool, test_example: Option<T>) -> Option<T> {
    if debug {
        test_example
    } else {
        None
    }
}

/// The directory to run in, if it is not the current one.
pub fn startup_dir(debug: bool, test_example: Option<String>) -> (dir: Option<String>)
    ensures
        dir == startup(debug, test_example),
{
    if debug {
        test_example
    } else {
        None
    }
}

/// What the outside world is asked to do next.
#[derive(Debug, PartialEq, Eq)]
pub enum Errand {
    /// Find the current directory.
    FindCurrentDir,
    /// Run the command that the user asked for, in this directory.
    RunCommand(FilePath),
    /// Delete the tools of the project in this directory.
    DeleteLocalTools(FilePath),
    /// Find the directory of the tools that all projects share.
    LocateSharedTools,
    /// Find out whether anything is at this path.
    Probe(EntryPath),
    /// Delete this directory and all that is in it.
    RemoveTree(EntryPath),
    /// End the process with this exit code.
    Exit(i32),
}

/// What came of it.
#[derive(Debug, PartialEq, Eq)]
pub enum News<E> {
    /// It was done.
    Done,
    /// It failed.
    Failed(E),
    /// The current directory.
    Found(FilePath),
    /// The command ended with an exit code.
    Exited(i32),
    /// The command failed. `install` tells whether that was while tools were
    /// installed.
    CommandFailed { install: bool, error: E },
    /// Where the shared tools are kept, if the user has a place for them.
    Located(Option<EntryPath>),
    /// Whether anything is there.
    Exists(bool),
}

/// A failure that the user is told of.
#[derive(Debug, PartialEq, Eq)]
pub enum Report<E> {
    /// There is no current directory.
    CurrentDirUnavailable(E),
    /// The tools of the project could not be deleted.
    LocalToolsNotDeleted(E),
    /// The tools that all projects share could not be deleted.
    RemoveArtifactsFailed { target: EntryPath, source: E },
    /// The command failed.
    CommandFailed(E),
}

/// An [`Errand`] in terms of what it holds.
pub enum ErrandView {
    FindCurrentDir,
    RunCommand(PathView),
    DeleteLocalTools(PathView),
    LocateSharedTools,
    Probe(EntryView),
    RemoveTree(EntryView),
    Exit(i32),
}

/// [`News`] in terms of what they hold.
pub enum NewsView<E> {
    Done,
    Failed(E),
    Found(PathView),
    Exited(i32),
    CommandFailed { install: bool, error: E },
    Located(Option<EntryView>),
    Exists(bool),
}

/// A [`Report`] in terms of what it holds.
pub enum ReportView<E> {
    CurrentDirUnavailable(E),
    LocalToolsNotDeleted(E),
    RemoveArtifactsFailed { target: EntryView, source: E },
    CommandFailed(E),
}

impl View for Errand {
    type V = ErrandView;

    open spec fn view(&self) -> ErrandView {
        match *self {
            Errand::FindCurrentDir => ErrandView::FindCurrentDir,
            Errand::RunCommand(dir) => ErrandView::RunCommand(dir@),
            Errand::DeleteLocalTools(dir) => ErrandView::DeleteLocalTools(dir@),
            Errand::LocateSharedTools => ErrandView::LocateSharedTools,
            Errand::Probe(path) => ErrandView::Probe(path@),
            Errand::RemoveTree(path) => ErrandView::RemoveTree(path@),
            Errand::Exit(code) => ErrandView::Exit(code),
        }
    }
}

impl<E> View for News<E> {
    type V = NewsView<E>;

    open spec fn view(&self) -> NewsView<E> {
        match *self {
            News::Done => NewsView::Done,
            News::Failed(error) => NewsView::Failed(error),
            News::Found(dir) => NewsView::Found(dir@),
            News::Exited(code) => NewsView::Exited(code),
            News::CommandFailed { install, error } => NewsView::CommandFailed { install, error },
            News::Located(Some(path)) => NewsView::Located(Some(path@)),
            News::Located(None) => NewsView::Located(None),
            News::Exists(exists) => NewsView::Exists(exists),
        }
    }
}

impl<E> View for Report<E> {
    type V = ReportView<E>;

    open spec fn view(&self) -> ReportView<E> {
        match *self {
            Report::CurrentDirUnavailable(error) => ReportView::CurrentDirUnavailable(error),
            Report::LocalToolsNotDeleted(error) => ReportView::LocalToolsNotDeleted(error),
            Report::RemoveArtifactsFailed { target, source } => {
                ReportView::RemoveArtifactsFailed { target: target@, source }
            },
            Report::CommandFailed(error) => ReportView::CommandFailed(error),
        }
    }
}

/// What a list of reports holds.
pub open spec fn reports<E>(list: Seq<Report<E>>) -> Seq<ReportView<E>> {
    list.map_values(|r: Report<E>| r@)
}

/// How far a run has come, as a mathematical state. The directory that was found
/// at the start is kept as long as anything is done there. Where tools are cleaned
/// up, the failure of the command is kept for the end.
pub enum SessionState<E> {
    /// The current directory is to be found.
    Starting,
    /// The command is to be run in this directory.
    Running(PathView),
    /// The tools of the project in this directory are to be deleted.
    CleaningLocal(E, PathView),
    /// The shared tools are to be found.
    Locating(E),
    /// The shared tools are to be looked for at this path.
    Probing(E, EntryView),
    /// The shared tools are to be deleted at this path.
    CleaningShared(E, EntryView),
    /// Over.
    Over(i32),
}

impl<E> SessionState<E> {
    /// What the outside world is asked to do in this state.
    pub open spec fn errand(self) -> ErrandView {
        match self {
            SessionState::Starting => ErrandView::FindCurrentDir,
            SessionState::Running(dir) => ErrandView::RunCommand(dir),
            SessionState::CleaningLocal(_, dir) => ErrandView::DeleteLocalTools(dir),
            SessionState::Locating(_) => ErrandView::LocateSharedTools,
            SessionState::Probing(_, path) => ErrandView::Probe(path),
            SessionState::CleaningShared(_, path) => ErrandView::RemoveTree(path),
            SessionState::Over(code) => ErrandView::Exit(code),
        }
    }

    /// The state after some news, and what the user is told of. News that do not
    /// belong to the errand of the state change nothing.
    pub open spec fn step(self, news: NewsView<E>) -> (SessionState<E>, Seq<ReportView<E>>) {
        let none = Seq::<ReportView<E>>::empty();
        match (self, news) {
            (SessionState::Starting, NewsView::Found(dir)) => (SessionState::Running(dir), none),
            (SessionState::Starting, NewsView::Failed(error)) => {
                (SessionState::Over(1), seq![ReportView::CurrentDirUnavailable(error)])
            },
            (SessionState::Running(_), NewsView::Exited(code)) => (SessionState::Over(code), none),
            (SessionState::Running(dir), NewsView::CommandFailed { install, error }) => if install {
                (SessionState::CleaningLocal(error, dir), none)
            } else {
                (SessionState::Over(1), seq![ReportView::CommandFailed(error)])
            },
            (SessionState::CleaningLocal(error, _), NewsView::Done) => {
                (SessionState::Locating(error), none)
            },
            (SessionState::CleaningLocal(error, _), NewsView::Failed(source)) => {
                (SessionState::Locating(error), seq![ReportView::LocalToolsNotDeleted(source)])
            },
            (SessionState::Locating(error), NewsView::Located(Some(path))) => {
                (SessionState::Probing(error, path), none)
            },
            (SessionState::Locating(error), NewsView::Located(None)) => {
                (SessionState::Over(1), seq![ReportView::CommandFailed(error)])
            },
            (SessionState::Probing(error, path), NewsView::Exists(true)) => {
                (SessionState::CleaningShared(error, path), none)
            },
            (SessionState::Probing(error, _), NewsView::Exists(false)) => {
                (SessionState::Over(1), seq![ReportView::CommandFailed(error)])
            },
            (SessionState::CleaningShared(error, _), NewsView::Done) => {
                (SessionState::Over(1), seq![ReportView::CommandFailed(error)])
            },
            (SessionState::CleaningShared(error, target), NewsView::Failed(source)) => (
                SessionState::Over(1),
                seq![
                    ReportView::RemoveArtifactsFailed { target, source },
                    ReportView::CommandFailed(error),
                ],
            ),
            _ => (self, none),
        }
    }
}

/// A run of the program. `E` is what the outside world reports as a failure.
pub struct Session<E> {
    phase: Phase<E>,
}

/// How far a run has come.
enum Phase<E> {
    Starting,
    Running(FilePath),
    CleaningLocal(E, FilePath),
    Locating(E),
    Probing(E, EntryPath),
    CleaningShared(E, EntryPath),
    Over(i32),
}

impl<E> View for Session<E> {
    type V = SessionState<E>;

    closed spec fn view(&self) -> SessionState<E> {
        match self.phase {
            Phase::Starting => SessionState::Starting,
            Phase::Running(dir) => SessionState::Running(dir@),
            Phase::CleaningLocal(error, dir) => SessionState::CleaningLocal(error, dir@),
            Phase::Locating(error) => SessionState::Locating(error),
            Phase::Probing(error, path) => SessionState::Probing(error, path@),
            Phase::CleaningShared(error, path) => SessionState::CleaningShared(error, path@),
            Phase::Over(code) => SessionState::Over(code),
        }
    }
}

impl<E> Session<E> {
    /// A run that has not done anything yet.
    pub fn new() -> (session: Session<E>)
        ensures
            session@ == SessionState::<E>::Starting,
    {
        Session { phase: Phase::Starting }
    }

    /// What the outside world is to do next.
    pub fn errand(&self) -> (errand: Errand)
        ensures
            errand@ == self@.errand(),
    {
        match &self.phase {
            Phase::Starting => Errand::FindCurrentDir,
            Phase::Running(dir) => Errand::RunCommand(dir.duplicate()),
            Phase::CleaningLocal(_, dir) => Errand::DeleteLocalTools(dir.duplicate()),
            Phase::Locating(_) => Errand::LocateSharedTools,
            Phase::Probing(_, path) => Errand::Probe(path.duplicate()),
            Phase::CleaningShared(_, path) => Errand::RemoveTree(path.duplicate()),
            Phase::Over(code) => Errand::Exit(*code),
        }
    }

    /// Takes what came of it, and says what the user is to be told of.
    pub fn handle(self, news: News<E>) -> (next: (Session<E>, Vec<Report<E>>))
        ensures
            (next.0@, reports(next.1@)) == self@.step(news@),
    {
        let mut told: Vec<Report<E>> = Vec::new();
        let phase = match (self.phase, news) {
            (Phase::Starting, News::Found(dir)) => Phase::Running(dir),
            (Phase::Starting, News::Failed(error)) => {
                told.push(Report::CurrentDirUnavailable(error));
                Phase::Over(1)
            },
            (Phase::Running(_), News::Exited(code)) => Phase::Over(code),
            (Phase::Running(dir), News::CommandFailed { install, error }) => {
                if install {
                    Phase::CleaningLocal(error, dir)
                } else {
                    told.push(Report::CommandFailed(error));
                    Phase::Over(1)
                }
            },
            (Phase::CleaningLocal(error, _), News::Done) => Phase::Locating(error),
            (Phase::CleaningLocal(error, _), News::Failed(source)) => {
                told.push(Report::LocalToolsNotDeleted(source));
                Phase::Locating(error)
            },
            (Phase::Locating(error), News::Located(Some(path))) => Phase::Probing(error, path),
            (Phase::Locating(error), News::Located(None)) => {
                told.push(Report::CommandFailed(error));
                Phase::Over(1)
            },
            (Phase::Probing(error, path), News::Exists(exists)) => {
                if exists {
                    Phase::CleaningShared(error, path)
                } else {
                    told.push(Report::CommandFailed(error));
                    Phase::Over(1)
                }
            },
            (Phase::CleaningShared(error, _), News::Done) => {
                told.push(Report::CommandFailed(error));
                Phase::Over(1)
            },
            (Phase::CleaningShared(error, target), News::Failed(source)) => {
                told.push(Report::RemoveArtifactsFailed { target, source });
                told.push(Report::CommandFailed(error));
                Phase::Over(1)
            },
            (phase, _) => phase,
        };
        let next = Session { phase };
        assert(reports(told@) =~= self@.step(news@).1);
        (next, told)
    }
}

} // verus!
