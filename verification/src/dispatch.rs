//! Carrying out a command: which steps it takes, in what order, and with which
//! exit code it ends.
use crate::opts::{Address, Opts, SnoopSubcommand, Subcommand};
use crate::path::{FilePath, PathView};
use vstd::prelude::*;

verus! {

/// What earlier runs left below the distribution directory.
#[derive(Clone, Copy, PartialEq, Eq, Structural, Debug)]
pub enum Artifacts {
    Static,
    Mutable,
    Exported,
    Pkg,
    Tools,
}

impl Artifacts {
    /// The name of the directory that holds them.
    pub fn name(self) -> (name: &'static str)
        ensures
            name@ == (match self {
                Artifacts::Static => "static"@,
                Artifacts::Mutable => "mutable"@,
                Artifacts::Exported => "exported"@,
                Artifacts::Pkg => "pkg"@,
                Artifacts::Tools => "tools"@,
            }),
    {
        match self {
            Artifacts::Static => "static",
            Artifacts::Mutable => "mutable",
            Artifacts::Exported => "exported",
            Artifacts::Pkg => "pkg",
            Artifacts::Tools => "tools",
        }
    }
}

/// Something that the user is told on the way.
#[derive(Clone, Copy, PartialEq, Eq, Structural, Debug)]
pub enum Notice {
    /// The program runs on a single thread.
    Sequential,
    /// The next run will be slow.
    ArtifactsDeleted,
    /// Watching a snooping server is not a good idea.
    SnoopServeWatched,
}

impl Notice {
    /// What the user is told.
    pub fn text(self) -> (text: &'static str)
        ensures
            text@ == (match self {
                Notice::Sequential => "Note: the Perseus CLI is running in single-threaded mode, which is less performant on most modern systems. You can switch to multi-threaded mode by removing the `--sequential` flag. If you've deliberately enabled single-threaded mode, you can safely ignore this."@,
                Notice::ArtifactsDeleted => "[NOTE]: Build artifacts have been deleted, the next run will take some time."@,
                Notice::SnoopServeWatched => "[WARNING]: Watching `snoop serve` may not be a good idea, because it requires you to have run `perseus build` first. It's not recommended to do this unless you have `perseus build` on a separate watch loop."@,
            }),
    {
        match self {
            Notice::Sequential => "Note: the Perseus CLI is running in single-threaded mode, which is less performant on most modern systems. You can switch to multi-threaded mode by removing the `--sequential` flag. If you've deliberately enabled single-threaded mode, you can safely ignore this.",
            Notice::ArtifactsDeleted => "[NOTE]: Build artifacts have been deleted, the next run will take some time.",
            Notice::SnoopServeWatched => "[WARNING]: Watching `snoop serve` may not be a good idea, because it requires you to have run `perseus build` first. It's not recommended to do this unless you have `perseus build` on a separate watch loop.",
        }
    }

    /// Whether the user is told on the error stream.
    pub fn on_error_stream(self) -> (on_error_stream: bool)
        ensures
            on_error_stream == (self != Notice::Sequential),
    {
        self != Notice::Sequential
    }
}

/// The work that a command is about.
#[derive(Clone, Copy, PartialEq, Eq, Structural, Debug)]
pub enum Task {
    Build,
    Export,
    Serve,
    Test,
    Deploy,
    Tinker,
    SnoopBuild,
    SnoopWasmBuild,
    SnoopServe,
    ExportErrorPage,
    New,
    Init,
    Check,
}

/// A step of a command, with the directory of the project that it acts in.
#[derive(Debug, PartialEq, Eq)]
pub enum Step {
    /// Make sure that the distribution directory exists.
    CreateDist(FilePath),
    /// Make sure that the tools are installed.
    InstallTools(FilePath),
    /// Delete the distribution directory.
    DeleteDist(FilePath),
    /// Delete what earlier runs left behind.
    DeleteArtifacts(FilePath, Artifacts),
    /// Tell the user something.
    Notify(Notice),
    /// Do the work, which ends with an exit code.
    Run(FilePath, Task),
    /// Tell the browsers that are connected at this address to reload.
    OrderReload(Address),
    /// Serve the exported app at this address, which ends with an exit code.
    ServeExported(FilePath, Address),
}

/// A [`Step`] in terms of what it holds.
pub enum StepView {
    CreateDist(PathView),
    InstallTools(PathView),
    DeleteDist(PathView),
    DeleteArtifacts(PathView, Artifacts),
    Notify(Notice),
    Run(PathView, Task),
    OrderReload(Seq<char>, u16),
    ServeExported(PathView, Seq<char>, u16),
}

impl StepView {
    /// The directory that the step acts in, if it acts in one.
    pub open spec fn acts_in(self) -> Option<PathView> {
        match self {
            StepView::CreateDist(dir) => Some(dir),
            StepView::InstallTools(dir) => Some(dir),
            StepView::DeleteDist(dir) => Some(dir),
            StepView::DeleteArtifacts(dir, _) => Some(dir),
            StepView::Notify(_) => None,
            StepView::Run(dir, _) => Some(dir),
            StepView::OrderReload(..) => None,
            StepView::ServeExported(dir, ..) => Some(dir),
        }
    }
}

impl View for Step {
    type V = StepView;

    open spec fn view(&self) -> StepView {
        match *self {
            Step::CreateDist(dir) => StepView::CreateDist(dir@),
            Step::InstallTools(dir) => StepView::InstallTools(dir@),
            Step::DeleteDist(dir) => StepView::DeleteDist(dir@),
            Step::DeleteArtifacts(dir, artifacts) => StepView::DeleteArtifacts(dir@, artifacts),
            Step::Notify(notice) => StepView::Notify(notice),
            Step::Run(dir, task) => StepView::Run(dir@, task),
            Step::OrderReload(address) => StepView::OrderReload(address@.0, address@.1),
            Step::ServeExported(dir, address) => {
                StepView::ServeExported(dir@, address@.0, address@.1)
            },
        }
    }
}

impl Step {
    /// A copy of the step.
    pub fn duplicate(&self) -> (copy: Step)
        ensures
            copy@ == self@,
    {
        match self {
            Step::CreateDist(dir) => Step::CreateDist(dir.duplicate()),
            Step::InstallTools(dir) => Step::InstallTools(dir.duplicate()),
            Step::DeleteDist(dir) => Step::DeleteDist(dir.duplicate()),
            Step::DeleteArtifacts(dir, artifacts) => {
                Step::DeleteArtifacts(dir.duplicate(), *artifacts)
            },
            Step::Notify(notice) => Step::Notify(*notice),
            Step::Run(dir, task) => Step::Run(dir.duplicate(), *task),
            Step::OrderReload(address) => Step::OrderReload(address.duplicate()),
            Step::ServeExported(dir, address) => {
                Step::ServeExported(dir.duplicate(), address.duplicate())
            },
        }
    }
}

/// What a list of steps holds.
pub open spec fn steps(list: Seq<Step>) -> Seq<StepView> {
    list.map_values(|s: Step| s@)
}

/// Whether a command needs the tools: all but starting a project and cleaning up
/// do.
pub open spec fn needs_tools(subcmd: Subcommand) -> bool {
    !(subcmd is Clean || subcmd is New || subcmd is Init)
}

/// The steps that make the directory and the tools available.
pub open spec fn preparation(dir: PathView, subcmd: Subcommand) -> Seq<StepView> {
    if needs_tools(subcmd) {
        seq![StepView::CreateDist(dir), StepView::InstallTools(dir)]
    } else {
        Seq::empty()
    }
}

/// The artifacts that a command makes anew, and which are deleted before.
pub open spec fn outdated(subcmd: Subcommand) -> Seq<Artifacts> {
    match subcmd {
        Subcommand::Build(_) => seq![Artifacts::Static, Artifacts::Mutable],
        Subcommand::Export { .. } => {
            seq![Artifacts::Static, Artifacts::Mutable, Artifacts::Exported]
        },
        Subcommand::Serve { no_build, .. } if !no_build => {
            seq![Artifacts::Static, Artifacts::Mutable]
        },
        Subcommand::Test { no_build, .. } if !no_build => {
            seq![Artifacts::Static, Artifacts::Mutable]
        },
        Subcommand::Deploy => {
            seq![Artifacts::Static, Artifacts::Mutable, Artifacts::Exported, Artifacts::Pkg]
        },
        Subcommand::Check(_) => seq![Artifacts::Static, Artifacts::Mutable],
        _ => Seq::empty(),
    }
}

/// The steps that delete what is outdated.
pub open spec fn cleanup(dir: PathView, subcmd: Subcommand) -> Seq<StepView> {
    match subcmd {
        Subcommand::Clean => seq![StepView::DeleteDist(dir)],
        Subcommand::Tinker { no_clean } if !no_clean => seq![StepView::DeleteDist(dir)],
        _ => outdated(subcmd).map_values(|a: Artifacts| StepView::DeleteArtifacts(dir, a)),
    }
}

/// The steps that a command is about. `reload` is where browsers are told to
/// reload.
pub open spec fn work(
    dir: PathView,
    subcmd: Subcommand,
    reload: (Seq<char>, u16),
) -> Seq<StepView> {
    match subcmd {
        Subcommand::Build(_) => seq![StepView::Run(dir, Task::Build)],
        Subcommand::Export { serve, address, .. } => if serve {
            seq![
                StepView::Run(dir, Task::Export),
                StepView::OrderReload(reload.0, reload.1),
                StepView::ServeExported(dir, address@.0, address@.1),
            ]
        } else {
            seq![StepView::Run(dir, Task::Export)]
        },
        Subcommand::Serve { .. } => seq![StepView::Run(dir, Task::Serve)],
        Subcommand::Test { .. } => seq![StepView::Run(dir, Task::Test)],
        Subcommand::Clean => seq![StepView::Notify(Notice::ArtifactsDeleted)],
        Subcommand::Deploy => seq![StepView::Run(dir, Task::Deploy)],
        Subcommand::Tinker { .. } => seq![StepView::Run(dir, Task::Tinker)],
        Subcommand::Snoop(SnoopSubcommand::Build(_)) => seq![StepView::Run(dir, Task::SnoopBuild)],
        Subcommand::Snoop(SnoopSubcommand::WasmBuild(_)) => {
            seq![StepView::Run(dir, Task::SnoopWasmBuild)]
        },
        Subcommand::Snoop(SnoopSubcommand::Serve(watching)) => if watching.watch {
            seq![StepView::Notify(Notice::SnoopServeWatched), StepView::Run(dir, Task::SnoopServe)]
        } else {
            seq![StepView::Run(dir, Task::SnoopServe)]
        },
        Subcommand::ExportErrorPage => seq![StepView::Run(dir, Task::ExportErrorPage)],
        Subcommand::New => seq![StepView::Run(dir, Task::New)],
        Subcommand::Init => seq![StepView::Run(dir, Task::Init)],
        Subcommand::Check(_) => seq![StepView::Run(dir, Task::Check)],
    }
}

/// All steps of a command in the directory `dir`, in order.
pub open spec fn plan(
    dir: PathView,
    subcmd: Subcommand,
    reload: (Seq<char>, u16),
) -> Seq<StepView> {
    preparation(dir, subcmd) + cleanup(dir, subcmd) + work(dir, subcmd, reload)
}

/// The artifacts that a command makes anew.
fn outdated_artifacts(subcmd: &Subcommand) -> (list: Vec<Artifacts>)
    ensures
        list@ == outdated(*subcmd),
{
    let none: Vec<Artifacts> = Vec::new();
    match subcmd {
        Subcommand::Build(_) => vec![Artifacts::Static, Artifacts::Mutable],
        Subcommand::Export { .. } => {
            vec![Artifacts::Static, Artifacts::Mutable, Artifacts::Exported]
        },
        Subcommand::Serve { no_build, .. } => {
            if *no_build {
                none
            } else {
                vec![Artifacts::Static, Artifacts::Mutable]
            }
        },
        Subcommand::Test { no_build, .. } => {
            if *no_build {
                none
            } else {
                vec![Artifacts::Static, Artifacts::Mutable]
            }
        },
        Subcommand::Deploy => {
            vec![Artifacts::Static, Artifacts::Mutable, Artifacts::Exported, Artifacts::Pkg]
        },
        Subcommand::Check(_) => vec![Artifacts::Static, Artifacts::Mutable],
        _ => none,
    }
}

/// The steps that make the directory and the tools available.
fn preparation_steps(dir: &FilePath, subcmd: &Subcommand) -> (list: Vec<Step>)
    ensures
        steps(list@) == preparation(dir@, *subcmd),
{
    let list: Vec<Step> = match subcmd {
        Subcommand::Clean | Subcommand::New | Subcommand::Init => Vec::new(),
        _ => vec![Step::CreateDist(dir.duplicate()), Step::InstallTools(dir.duplicate())],
    };
    assert(steps(list@) =~= preparation(dir@, *subcmd));
    list
}

/// The steps that delete what is outdated.
fn cleanup_steps(dir: &FilePath, subcmd: &Subcommand) -> (list: Vec<Step>)
    ensures
        steps(list@) == cleanup(dir@, *subcmd),
{
    let whole = match subcmd {
        Subcommand::Clean => true,
        Subcommand::Tinker { no_clean } => !*no_clean,
        _ => false,
    };
    let mut list: Vec<Step> = Vec::new();
    if whole {
        list.push(Step::DeleteDist(dir.duplicate()));
    } else {
        let artifacts = outdated_artifacts(subcmd);
        let mut i: usize = 0;
        while i < artifacts.len()
            invariant
                i <= artifacts@.len(),
                list@.len() == i,
                forall|k: int|
                    0 <= k < i ==> #[trigger] list@[k]@ == StepView::DeleteArtifacts(
                        dir@,
                        artifacts@[k],
                    ),
            decreases artifacts@.len() - i,
        {
            list.push(Step::DeleteArtifacts(dir.duplicate(), artifacts[i]));
            i += 1;
        }
    }
    assert(steps(list@) =~= cleanup(dir@, *subcmd));
    list
}

/// The steps that a command is about.
fn work_steps(dir: &FilePath, subcmd: &Subcommand, reload: &Address) -> (list: Vec<Step>)
    ensures
        steps(list@) == work(dir@, *subcmd, reload@),
{
    let list: Vec<Step> = match subcmd {
        Subcommand::Build(_) => vec![Step::Run(dir.duplicate(), Task::Build)],
        Subcommand::Export { serve, address, .. } => {
            if *serve {
                vec![
                    Step::Run(dir.duplicate(), Task::Export),
                    Step::OrderReload(reload.duplicate()),
                    Step::ServeExported(dir.duplicate(), address.duplicate()),
                ]
            } else {
                vec![Step::Run(dir.duplicate(), Task::Export)]
            }
        },
        Subcommand::Serve { .. } => vec![Step::Run(dir.duplicate(), Task::Serve)],
        Subcommand::Test { .. } => vec![Step::Run(dir.duplicate(), Task::Test)],
        Subcommand::Clean => vec![Step::Notify(Notice::ArtifactsDeleted)],
        Subcommand::Deploy => vec![Step::Run(dir.duplicate(), Task::Deploy)],
        Subcommand::Tinker { .. } => vec![Step::Run(dir.duplicate(), Task::Tinker)],
        Subcommand::Snoop(SnoopSubcommand::Build(_)) => {
            vec![Step::Run(dir.duplicate(), Task::SnoopBuild)]
        },
        Subcommand::Snoop(SnoopSubcommand::WasmBuild(_)) => {
            vec![Step::Run(dir.duplicate(), Task::SnoopWasmBuild)]
        },
        Subcommand::Snoop(SnoopSubcommand::Serve(watching)) => {
            if watching.watch {
                vec![
                    Step::Notify(Notice::SnoopServeWatched),
                    Step::Run(dir.duplicate(), Task::SnoopServe),
                ]
            } else {
                vec![Step::Run(dir.duplicate(), Task::SnoopServe)]
            }
        },
        Subcommand::ExportErrorPage => vec![Step::Run(dir.duplicate(), Task::ExportErrorPage)],
        Subcommand::New => vec![Step::Run(dir.duplicate(), Task::New)],
        Subcommand::Init => vec![Step::Run(dir.duplicate(), Task::Init)],
        Subcommand::Check(_) => vec![Step::Run(dir.duplicate(), Task::Check)],
    };
    assert(steps(list@) =~= work(dir@, *subcmd, reload@));
    list
}

/// All steps of the command that the user asked for in the directory `dir`, in
/// order.
pub fn command_steps(dir: &FilePath, opts: &Opts) -> (list: Vec<Step>)
    ensures
        steps(list@) == plan(dir@, opts.subcmd, opts.reload_server@),
{
    let mut list = preparation_steps(dir, &opts.subcmd);
    let mut cleanup = cleanup_steps(dir, &opts.subcmd);
    let mut work = work_steps(dir, &opts.subcmd, &opts.reload_server);
    let ghost parts = (list@, cleanup@, work@);
    list.append(&mut cleanup);
    list.append(&mut work);
    assert(list@ =~= parts.0 + parts.1 + parts.2);
    assert(steps(list@) =~= plan(dir@, opts.subcmd, opts.reload_server@));
    list
}

/// What came of a step.
#[derive(Debug, PartialEq, Eq)]
pub enum StepReply<E> {
    /// It was done.
    Done,
    /// It ended with an exit code.
    Exited(i32),
    /// It failed.
    Failed(E),
}

impl<E> StepReply<E> {
    /// How the command ends with this reply, if it does: a failure ends it, and
    /// so does an exit code other than zero.
    pub open spec fn stop(self) -> Option<Result<i32, E>> {
        match self {
            StepReply::Failed(error) => Some(Err(error)),
            StepReply::Exited(code) if code != 0 => Some(Ok(code)),
            _ => None,
        }
    }
}

/// The execution of a command as a mathematical state.
pub struct ExecutionState<E> {
    pub steps: Seq<StepView>,
    /// How many steps have been done.
    pub done: int,
    /// How the command ended, if it has.
    pub end: Option<Result<i32, E>>,
}

impl<E> ExecutionState<E> {
    /// The step to do now, if the command has not ended.
    pub open spec fn current(self) -> Option<StepView> {
        if self.end is None {
            Some(self.steps[self.done])
        } else {
            None
        }
    }

    /// The state after a reply. Once the command has ended nothing changes.
    pub open spec fn step(self, reply: StepReply<E>) -> ExecutionState<E> {
        if self.end is Some {
            self
        } else if reply.stop() is Some {
            ExecutionState { end: reply.stop(), ..self }
        } else if self.done + 1 < self.steps.len() {
            ExecutionState { done: self.done + 1, ..self }
        } else {
            ExecutionState { done: self.done + 1, end: Some(Ok(0)), ..self }
        }
    }
}

/// The state in which the execution of a command starts.
pub open spec fn started<E>(
    dir: PathView,
    subcmd: Subcommand,
    reload: (Seq<char>, u16),
) -> ExecutionState<E> {
    ExecutionState { steps: plan(dir, subcmd, reload), done: 0, end: None }
}

/// The execution of a command. `E` is what the outside world reports as a
/// failure.
pub struct Execution<E> {
    list: Vec<Step>,
    done: usize,
    end: Option<Result<i32, E>>,
}

impl<E> View for Execution<E> {
    type V = ExecutionState<E>;

    closed spec fn view(&self) -> ExecutionState<E> {
        ExecutionState { steps: steps(self.list@), done: self.done as int, end: self.end }
    }
}

impl<E> Execution<E> {
    /// As long as the command has not ended there is a step to do.
    #[verifier::type_invariant]
    spec fn in_bounds(self) -> bool {
        self.end is None ==> self.done < self.list.len()
    }

    /// The execution of the command that the user asked for in the directory `dir`.
    pub fn new(dir: &FilePath, opts: &Opts) -> (execution: Execution<E>)
        ensures
            execution@ == started::<E>(dir@, opts.subcmd, opts.reload_server@),
    {
        let list = command_steps(dir, opts);
        assert(list@.len() == plan(dir@, opts.subcmd, opts.reload_server@).len());
        Execution { list, done: 0, end: None }
    }

    /// The step to do now, if the command has not ended.
    pub fn current(&self) -> (step: Option<Step>)
        ensures
            match step {
                Some(step) => self@.current() == Some(step@),
                None => self@.current() is None,
            },
    {
        proof {
            use_type_invariant(self);
        }
        match self.end {
            None => Some(self.list[self.done].duplicate()),
            Some(_) => None,
        }
    }

    /// Takes what came of the step.
    pub fn handle(self, reply: StepReply<E>) -> (next: Execution<E>)
        ensures
            next@ == self@.step(reply),
    {
        proof {
            use_type_invariant(&self);
        }
        let Execution { list, done, end } = self;
        match end {
            Some(end) => Execution { list, done, end: Some(end) },
            None => match reply {
                StepReply::Failed(error) => Execution { list, done, end: Some(Err(error)) },
                StepReply::Exited(code) if code != 0 => {
                    Execution { list, done, end: Some(Ok(code)) }
                },
                _ => {
                    if done + 1 < list.len() {
                        Execution { list, done: done + 1, end: None }
                    } else {
                        Execution { list, done: done + 1, end: Some(Ok(0)) }
                    }
                },
            },
        }
    }

    /// How the command ended, if it has.
    pub fn into_result(self) -> (result: Option<Result<i32, E>>)
        ensures
            result == self@.end,
    {
        self.end
    }
}

} // verus!
