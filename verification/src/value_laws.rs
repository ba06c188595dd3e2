//! What can be relied on of the mathematical values that stand for paths, texts,
//! and what the state machines ask for and are told: they hold what the values
//! hold, no more and no less.
use crate::dispatch::{steps, Artifacts, Notice, Step, StepView, Task};
use crate::errors::{Subject, SubjectView, WatchError, WatchErrorView};
use crate::launch::{chosen, content, Answer, AnswerView};
use crate::opts::Address;
use crate::path::{lists, paths, EntryPath, FilePath, PathView};
use crate::session::{
    reports, Errand, ErrandView, News, NewsView, Report, ReportView,
};
use crate::setup::{Action, ActionView, Reply, ReplyView};
use crate::supervise::ChildCommand;
use crate::text::texts;
use vstd::prelude::*;

verus! {

// ---- Paths ----

/// Two paths are the same exactly if they have equally many components and agree
/// in each of them. How they are spelled makes no difference.
pub proof fn same_paths_agree_in_every_component(p: PathView, q: PathView)
    ensures
        p.same(q) <==> p.components.len() == q.components.len() && (forall|i: int|
            0 <= i < p.components.len() ==> #[trigger] p.components[i] == q.components[i]),
{
    if p.components.len() == q.components.len() && (forall|i: int|
        0 <= i < p.components.len() ==> #[trigger] p.components[i] == q.components[i]) {
        assert(p.components =~= q.components);
    }
}

/// Paths that differ in the number of their components, or in any one of them, are
/// different paths.
pub proof fn one_other_component_makes_another_path(p: PathView, q: PathView, i: int)
    requires
        p.components.len() != q.components.len() || (0 <= i < p.components.len()
            && p.components[i] != q.components[i]),
    ensures
        !p.same(q),
        !lists(seq![p], q),
{
    assert(seq![p].len() == 1);
    assert(forall|k: int| 0 <= k < seq![p].len() ==> #[trigger] seq![p][k] == p);
}

/// A path is on a list exactly if an entry of the list agrees with it in the number
/// of components and in each of them.
pub proof fn a_list_holds_the_paths_on_it(list: Seq<PathView>, path: PathView)
    ensures
        lists(list, path) <==> exists|k: int|
            0 <= k < list.len() && (#[trigger] list[k]).components.len() == path.components.len()
                && (forall|i: int|
                0 <= i < path.components.len() ==> list[k].components[i] == path.components[i]),
{
    if lists(list, path) {
        let k = choose|k: int| 0 <= k < list.len() && (#[trigger] list[k]).same(path);
        same_paths_agree_in_every_component(list[k], path);
        assert(list[k].components == path.components);
    }
    if exists|k: int|
        0 <= k < list.len() && (#[trigger] list[k]).components.len() == path.components.len()
            && (forall|i: int|
            0 <= i < path.components.len() ==> list[k].components[i] == path.components[i]) {
        let k = choose|k: int|
            0 <= k < list.len() && (#[trigger] list[k]).components.len() == path.components.len()
                && (forall|i: int|
                0 <= i < path.components.len() ==> list[k].components[i] == path.components[i]);
        assert(list[k].components =~= path.components);
        assert(list[k].same(path));
    }
}

/// A path is known by its spelling and its components, byte for byte.
pub proof fn a_path_holds_its_bytes(path: FilePath)
    ensures
        path@.spelling == path.spelling@,
        path@.components.len() == path.components@.len(),
        forall|i: int|
            0 <= i < path.components@.len() ==> #[trigger] path@.components[i]
                == path.components@[i]@,
{
}

/// The path of an entry is known by its directory and its name.
pub proof fn an_entry_holds_its_directory_and_name(path: EntryPath)
    ensures
        path@.dir == path.dir@,
        path@.name == path.name@,
{
}

// ---- Lists and options ----

/// A list is known by its entries, each in its place.
pub proof fn lists_hold_their_entries<E>(
    strings: Seq<String>,
    files: Seq<FilePath>,
    orders: Seq<Step>,
    news: Seq<Report<E>>,
)
    ensures
        texts(strings).len() == strings.len(),
        forall|i: int| 0 <= i < strings.len() ==> #[trigger] texts(strings)[i] == strings[i]@,
        paths(files).len() == files.len(),
        forall|i: int| 0 <= i < files.len() ==> #[trigger] paths(files)[i] == files[i]@,
        steps(orders).len() == orders.len(),
        forall|i: int| 0 <= i < orders.len() ==> #[trigger] steps(orders)[i] == orders[i]@,
        reports(news).len() == news.len(),
        forall|i: int| 0 <= i < news.len() ==> #[trigger] reports(news)[i] == news[i]@,
{
}

/// What may be missing is known by whether it is there, and by what it holds.
pub proof fn options_hold_what_is_there(list: Vec<String>, text: String)
    ensures
        chosen(None) is None,
        chosen(Some(list)) matches Some(held) && held.len() == list@.len() && (forall|i: int|
            0 <= i < list@.len() ==> #[trigger] held[i] == list@[i]@),
        content(None) is None,
        content(Some(text)) == Some(text@),
{
}

/// An address is known by its host and its port.
pub proof fn an_address_holds_host_and_port(address: Address)
    ensures
        address@.0 == address.host@,
        address@.1 == address.port,
{
}

/// The command of a copy is known by its program, its arguments, and the variables
/// that are set and taken away, each in its place.
pub proof fn a_command_holds_what_it_starts(command: ChildCommand)
    ensures
        command@.program == command.program@,
        command@.args.len() == command.args@.len(),
        forall|i: int|
            0 <= i < command.args@.len() ==> #[trigger] command@.args[i] == command.args@[i]@,
        command@.set.len() == command.set@.len(),
        forall|i: int|
            0 <= i < command.set@.len() ==> #[trigger] command@.set[i] == (
                command.set@[i].0@,
                command.set@[i].1@,
            ),
        command@.unset.len() == command.unset@.len(),
        forall|i: int|
            0 <= i < command.unset@.len() ==> #[trigger] command@.unset[i] == command.unset@[i]@,
{
}

// ---- What is asked for, and what is told ----

/// A step is known by its kind, and by everything that it holds.
pub proof fn a_step_holds_what_is_to_be_done(
    dir: FilePath,
    artifacts: Artifacts,
    notice: Notice,
    task: Task,
    address: Address,
)
    ensures
        Step::CreateDist(dir)@ == StepView::CreateDist(dir@),
        Step::InstallTools(dir)@ == StepView::InstallTools(dir@),
        Step::DeleteDist(dir)@ == StepView::DeleteDist(dir@),
        Step::DeleteArtifacts(dir, artifacts)@ == StepView::DeleteArtifacts(dir@, artifacts),
        Step::Notify(notice)@ == StepView::Notify(notice),
        Step::Run(dir, task)@ == StepView::Run(dir@, task),
        Step::OrderReload(address)@ == StepView::OrderReload(address.host@, address.port),
        Step::ServeExported(dir, address)@ == StepView::ServeExported(
            dir@,
            address.host@,
            address.port,
        ),
{
}

/// An action of a setup is known by its kind, and by what it holds.
pub proof fn an_action_holds_what_is_to_be_done(name: String, address: Address, path: FilePath)
    ensures
        Action::ResolveName(name)@ == ActionView::ResolveName(name@),
        Action::InstallHandler@ == ActionView::InstallHandler,
        Action::StartReloadServer(address)@ == ActionView::StartReloadServer(
            address.host@,
            address.port,
        ),
        Action::LocateSelf@ == ActionView::LocateSelf,
        Action::CreateWatcher@ == ActionView::CreateWatcher,
        Action::Probe(path)@ == ActionView::Probe(path@),
        Action::OpenTree(path)@ == ActionView::OpenTree(path@),
        Action::NextInTree@ == ActionView::NextInTree,
        Action::ListCurrentDir@ == ActionView::ListCurrentDir,
        Action::NextEntry@ == ActionView::NextEntry,
        Action::Resolve(path)@ == ActionView::Resolve(path@),
        Action::Watch(path)@ == ActionView::Watch(path@),
        Action::Stop@ == ActionView::Stop,
{
}

/// A reply to a setup is known by its kind, and by what it holds.
pub proof fn a_reply_holds_what_was_found<E>(
    source: E,
    path: FilePath,
    command: ChildCommand,
    is_dir: bool,
    name: String,
)
    ensures
        Reply::<E>::Done@ == ReplyView::<E>::Done,
        Reply::Failed(source)@ == ReplyView::Failed(source),
        Reply::<E>::Resolved(path)@ == ReplyView::<E>::Resolved(path@),
        Reply::<E>::Located(command)@ == ReplyView::<E>::Located(command@),
        Reply::<E>::Directory(is_dir)@ == ReplyView::<E>::Directory(is_dir),
        Reply::<E>::Entry(name, path)@ == ReplyView::<E>::Entry(name@, path@),
        Reply::<E>::Walked(path)@ == ReplyView::<E>::Walked(path@),
        Reply::<E>::Exhausted@ == ReplyView::<E>::Exhausted,
{
}

/// An answer on the way to the decision is known by its kind, and by what it holds.
pub proof fn an_answer_holds_what_was_found<E>(error: E, text: String)
    ensures
        Answer::<E>::Done@ == AnswerView::<E>::Done,
        Answer::Failed(error)@ == AnswerView::Failed(error),
        Answer::<E>::Variable(Some(text))@ == AnswerView::<E>::Variable(Some(text@)),
        Answer::<E>::Variable(None)@ == AnswerView::<E>::Variable(None),
{
}

/// An errand of a run is known by its kind, and by what it holds.
pub proof fn an_errand_holds_what_is_to_be_done(dir: FilePath, entry: EntryPath, code: i32)
    ensures
        Errand::FindCurrentDir@ == ErrandView::FindCurrentDir,
        Errand::RunCommand(dir)@ == ErrandView::RunCommand(dir@),
        Errand::DeleteLocalTools(dir)@ == ErrandView::DeleteLocalTools(dir@),
        Errand::LocateSharedTools@ == ErrandView::LocateSharedTools,
        Errand::Probe(entry)@ == ErrandView::Probe(entry@),
        Errand::RemoveTree(entry)@ == ErrandView::RemoveTree(entry@),
        Errand::Exit(code)@ == ErrandView::Exit(code),
{
}

/// News of a run are known by their kind, and by what they hold.
pub proof fn news_hold_what_happened<E>(
    error: E,
    dir: FilePath,
    code: i32,
    install: bool,
    entry: EntryPath,
    exists: bool,
)
    ensures
        News::<E>::Done@ == NewsView::<E>::Done,
        News::Failed(error)@ == NewsView::Failed(error),
        News::<E>::Found(dir)@ == NewsView::<E>::Found(dir@),
        News::<E>::Exited(code)@ == NewsView::<E>::Exited(code),
        (News::CommandFailed { install, error })@ == (NewsView::CommandFailed { install, error }),
        News::<E>::Located(Some(entry))@ == NewsView::<E>::Located(Some(entry@)),
        News::<E>::Located(None)@ == NewsView::<E>::Located(None),
        News::<E>::Exists(exists)@ == NewsView::<E>::Exists(exists),
{
}

/// A report is known by its kind, and by what it holds.
pub proof fn a_report_holds_what_failed<E>(error: E, target: EntryPath)
    ensures
        Report::CurrentDirUnavailable(error)@ == ReportView::CurrentDirUnavailable(error),
        Report::LocalToolsNotDeleted(error)@ == ReportView::LocalToolsNotDeleted(error),
        (Report::RemoveArtifactsFailed { target, source: error })@ == (
        ReportView::RemoveArtifactsFailed { target: target@, source: error }),
        Report::CommandFailed(error)@ == ReportView::CommandFailed(error),
{
}

/// A failure while watching is known by its kind, the file that it is about, and
/// what the outside world reported.
pub proof fn a_failure_holds_its_file_and_source<E>(
    name: String,
    path: FilePath,
    filename: Subject,
    source: E,
)
    ensures
        Subject::Named(name)@ == SubjectView::Named(name@),
        Subject::At(path)@ == SubjectView::At(path@),
        (WatchError::WatchFileNotResolved { filename, source })@ == (
        WatchErrorView::WatchFileNotResolved { filename: filename@, source }),
        (WatchError::GetSelfPathFailed { source })@ == (WatchErrorView::GetSelfPathFailed {
            source,
        }),
        (WatchError::WatcherSetupFailed { source })@ == (WatchErrorView::WatcherSetupFailed {
            source,
        }),
        (WatchError::ReadCustomDirEntryFailed { source })@ == (
        WatchErrorView::ReadCustomDirEntryFailed { source }),
        (WatchError::ReadCurrentDirFailed { source })@ == (WatchErrorView::ReadCurrentDirFailed {
            source,
        }),
        (WatchError::ReadDirEntryFailed { source })@ == (WatchErrorView::ReadDirEntryFailed {
            source,
        }),
        (WatchError::WatchFileFailed { filename, source })@ == (WatchErrorView::WatchFileFailed {
            filename: filename@,
            source,
        }),
        (WatchError::SpawnSelfFailed { source })@ == (WatchErrorView::SpawnSelfFailed { source }),
        (WatchError::WatcherError { source })@ == (WatchErrorView::WatcherError { source }),
{
}

} // verus!
