//! Setting up the watcher: which files are watched, and in what order the
//! outside world is asked to prepare for it.
//!
//! [`Setup`] is a state machine. It names the next thing to do
//! ([`Setup::action`]) and takes what came of it ([`Setup::handle`]), until
//! there is nothing left to do or something failed.
use crate::errors::{Subject, SubjectView, WatchError, WatchErrorView};
use crate::opts::Address;
use crate::path::{lists, lists_path, paths, FilePath, PathView};
use crate::supervise::{ChildCommand, ChildView, Supervisor, WatchStage};
use crate::text::{lists_text, texts};
use vstd::prelude::*;
use vstd::string::*;

verus! {

/// What the outside world is asked to do next.
#[derive(Debug, PartialEq, Eq)]
pub enum Action {
    /// Make the text that the user wrote into a full path.
    ResolveName(String),
    /// Install the handler for termination signals.
    InstallHandler,
    /// Start the browser-reloading server in the background.
    StartReloadServer(Address),
    /// Find the running program, and how to start a copy of it.
    LocateSelf,
    /// Create the file watcher.
    CreateWatcher,
    /// Find out whether this path is a directory.
    Probe(FilePath),
    /// Start walking the tree at this directory, following links.
    OpenTree(FilePath),
    /// Read the next entry of the tree that was opened last.
    NextInTree,
    /// Start listing the current directory.
    ListCurrentDir,
    /// Read the next entry of the current directory.
    NextEntry,
    /// Make a path that was found into a full path.
    Resolve(FilePath),
    /// Add this path to the watcher.
    Watch(FilePath),
    /// Nothing: the setup is over.
    Stop,
}

/// What came of an action.
#[derive(Debug, PartialEq, Eq)]
pub enum Reply<E> {
    /// It was performed.
    Done,
    /// It failed.
    Failed(E),
    /// The full path.
    Resolved(FilePath),
    /// How to start a copy of the running program.
    Located(ChildCommand),
    /// Whether the path is a directory.
    Directory(bool),
    /// An entry of the current directory: its name and its path.
    Entry(String, FilePath),
    /// An entry of a tree.
    Walked(FilePath),
    /// There are no more entries.
    Exhausted,
}

/// An [`Action`] in terms of what it holds.
pub enum ActionView {
    ResolveName(Seq<char>),
    InstallHandler,
    StartReloadServer(Seq<char>, u16),
    LocateSelf,
    CreateWatcher,
    Probe(PathView),
    OpenTree(PathView),
    NextInTree,
    ListCurrentDir,
    NextEntry,
    Resolve(PathView),
    Watch(PathView),
    Stop,
}

/// A [`Reply`] in terms of what it holds.
pub enum ReplyView<E> {
    Done,
    Failed(E),
    Resolved(PathView),
    Located(ChildView),
    Directory(bool),
    Entry(Seq<char>, PathView),
    Walked(PathView),
    Exhausted,
}

impl View for Action {
    type V = ActionView;

    open spec fn view(&self) -> ActionView {
        match self {
            Action::ResolveName(name) => ActionView::ResolveName(name@),
            Action::InstallHandler => ActionView::InstallHandler,
            Action::StartReloadServer(server) => {
                ActionView::StartReloadServer(server@.0, server@.1)
            },
            Action::LocateSelf => ActionView::LocateSelf,
            Action::CreateWatcher => ActionView::CreateWatcher,
            Action::Probe(path) => ActionView::Probe(path@),
            Action::OpenTree(path) => ActionView::OpenTree(path@),
            Action::NextInTree => ActionView::NextInTree,
            Action::ListCurrentDir => ActionView::ListCurrentDir,
            Action::NextEntry => ActionView::NextEntry,
            Action::Resolve(path) => ActionView::Resolve(path@),
            Action::Watch(path) => ActionView::Watch(path@),
            Action::Stop => ActionView::Stop,
        }
    }
}

impl<E> View for Reply<E> {
    type V = ReplyView<E>;

    open spec fn view(&self) -> ReplyView<E> {
        match *self {
            Reply::Done => ReplyView::Done,
            Reply::Failed(source) => ReplyView::Failed(source),
            Reply::Resolved(path) => ReplyView::Resolved(path@),
            Reply::Located(command) => ReplyView::Located(command@),
            Reply::Directory(is_dir) => ReplyView::Directory(is_dir),
            Reply::Entry(name, path) => ReplyView::Entry(name@, path@),
            Reply::Walked(path) => ReplyView::Walked(path@),
            Reply::Exhausted => ReplyView::Exhausted,
        }
    }
}

/// Whether a custom watch entry excludes what it names.
pub open spec fn excluding(custom: Seq<char>) -> bool {
    custom.len() > 0 && custom[0] == '!'
}

/// What a custom watch entry names: all of it, or what follows the mark of an
/// exclusion.
pub open spec fn named(custom: Seq<char>) -> Seq<char> {
    if excluding(custom) {
        custom.skip(1)
    } else {
        custom
    }
}

/// Whether a custom watch entry excludes what it names.
pub fn is_excluding(custom: &String) -> (excludes: bool)
    ensures
        excludes == excluding(custom@),
{
    let text = custom.as_str();
    text.unicode_len() > 0 && text.get_char(0) == '!'
}

/// What a custom watch entry names.
pub fn watched_name(custom: &String) -> (name: String)
    ensures
        name@ == named(custom@),
{
    if is_excluding(custom) {
        let text = custom.as_str();
        let name = text.substring_char(1, text.unicode_len()).to_owned();
        assert(name@ =~= custom@.skip(1));
        name
    } else {
        custom.clone()
    }
}

/// Where a path under examination came from.
pub enum OriginView {
    /// The exclusion at this position.
    Exclude(int),
    /// The listing of the current directory.
    CurrentDir,
    /// The extra entry to watch at this position.
    Include(int),
}

/// How far the setup has come.
pub enum StageView<E> {
    /// Resolving the custom entry at this position.
    Custom(int),
    /// Installing the handler for termination signals.
    Handler,
    /// Starting the browser-reloading server at this host and port.
    Server(Seq<char>, u16),
    /// Finding the running program.
    Locate,
    /// Creating the watcher.
    Create,
    /// Asking whether a full path is a directory.
    Root(OriginView, PathView),
    /// Opening the tree at a directory.
    Open(OriginView, PathView),
    /// Reading the next entry of a tree.
    Tree(OriginView),
    /// Asking whether an entry of a tree is a directory.
    Leaf(OriginView, PathView),
    /// Resolving an entry of a tree that is no directory.
    Full(OriginView, PathView),
    /// Watching a full path, which came out of a tree or stood by itself.
    Watch(OriginView, bool, PathView),
    /// Starting to list the current directory.
    List,
    /// Reading the next entry of the current directory.
    Entries,
    /// Resolving an entry of the current directory.
    Entry(PathView),
    /// Over.
    Over(Result<(), WatchErrorView<E>>),
}

/// The setup as a mathematical state.
pub struct SetupState<E> {
    /// The custom entries, as the user wrote them.
    pub custom: Seq<Seq<char>>,
    /// Host and port of the browser-reloading server, if it is wanted.
    pub server: Option<(Seq<char>, u16)>,
    /// The names that are passed over at the top level of the current directory.
    pub passed_over: Seq<Seq<char>>,
    /// The full paths of the extra entries to watch.
    pub includes: Seq<PathView>,
    /// The full paths of the exclusions.
    pub excludes: Seq<PathView>,
    /// Every path that an exclusion covers.
    pub excluded: Seq<PathView>,
    /// How to start a copy of the running program, once that is known.
    pub command: Option<ChildView>,
    pub stage: StageView<E>,
}

impl<E> SetupState<E> {
    /// The same state at another stage.
    pub open spec fn at(self, stage: StageView<E>) -> SetupState<E> {
        SetupState { stage, ..self }
    }

    /// The state after a failure.
    pub open spec fn failed(self, error: WatchErrorView<E>) -> SetupState<E> {
        self.at(StageView::Over(Err(error)))
    }

    /// On to the custom entry at `i`, or past the last of them.
    pub open spec fn at_custom(self, i: int) -> SetupState<E> {
        self.at(
            if i < self.custom.len() {
                StageView::Custom(i)
            } else {
                StageView::Handler
            },
        )
    }

    /// On to the exclusion at `i`, or past the last of them.
    pub open spec fn at_exclude(self, i: int) -> SetupState<E> {
        self.at(
            if i < self.excludes.len() {
                StageView::Root(OriginView::Exclude(i), self.excludes[i])
            } else {
                StageView::List
            },
        )
    }

    /// On to the extra entry at `i`, or past the last of them.
    pub open spec fn at_include(self, i: int) -> SetupState<E> {
        self.at(
            if i < self.includes.len() {
                StageView::Root(OriginView::Include(i), self.includes[i])
            } else {
                StageView::Over(Ok(()))
            },
        )
    }

    /// On to what follows a path of this origin.
    pub open spec fn past(self, origin: OriginView) -> SetupState<E> {
        match origin {
            OriginView::Exclude(i) => self.at_exclude(i + 1),
            OriginView::CurrentDir => self.at(StageView::Entries),
            OriginView::Include(i) => self.at_include(i + 1),
        }
    }

    /// The state in which `path` counts as excluded.
    pub open spec fn excluding(self, path: PathView) -> SetupState<E> {
        SetupState { excluded: self.excluded.push(path), ..self }
    }

    /// The state after a custom entry was resolved to `path`.
    pub open spec fn sorted(self, i: int, path: PathView) -> SetupState<E> {
        if excluding(self.custom[i]) {
            SetupState { excludes: self.excludes.push(path), ..self }
        } else {
            SetupState { includes: self.includes.push(path), ..self }
        }
    }

    /// On to watching the full path of a file, unless it is excluded. `in_tree`
    /// says whether it was found in a tree, which is then read on.
    pub open spec fn at_file(
        self,
        origin: OriginView,
        in_tree: bool,
        path: PathView,
    ) -> SetupState<E> {
        if !lists(self.excluded, path) {
            self.at(StageView::Watch(origin, in_tree, path))
        } else if in_tree {
            self.at(StageView::Tree(origin))
        } else {
            self.past(origin)
        }
    }

    /// What the outside world is asked to do in this state.
    pub open spec fn action(self) -> ActionView {
        match self.stage {
            StageView::Custom(i) => ActionView::ResolveName(named(self.custom[i])),
            StageView::Handler => ActionView::InstallHandler,
            StageView::Server(host, port) => ActionView::StartReloadServer(host, port),
            StageView::Locate => ActionView::LocateSelf,
            StageView::Create => ActionView::CreateWatcher,
            StageView::Root(_, path) => ActionView::Probe(path),
            StageView::Open(_, path) => ActionView::OpenTree(path),
            StageView::Tree(_) => ActionView::NextInTree,
            StageView::Leaf(_, path) => ActionView::Probe(path),
            StageView::Full(_, path) => ActionView::Resolve(path),
            StageView::Watch(_, _, path) => ActionView::Watch(path),
            StageView::List => ActionView::ListCurrentDir,
            StageView::Entries => ActionView::NextEntry,
            StageView::Entry(path) => ActionView::Resolve(path),
            StageView::Over(_) => ActionView::Stop,
        }
    }

    /// The state after a reply. A reply that does not answer the action of the
    /// state changes nothing.
    pub open spec fn step(self, reply: ReplyView<E>) -> SetupState<E> {
        match (self.stage, reply) {
            (StageView::Custom(i), ReplyView::Resolved(path)) => {
                self.sorted(i, path).at_custom(i + 1)
            },
            (StageView::Custom(i), ReplyView::Failed(source)) => self.failed(
                WatchErrorView::WatchFileNotResolved {
                    filename: SubjectView::Named(named(self.custom[i])),
                    source,
                },
            ),
            (StageView::Handler, ReplyView::Done) => self.at(
                match self.server {
                    Some((host, port)) => StageView::Server(host, port),
                    None => StageView::Locate,
                },
            ),
            (StageView::Server(_, _), ReplyView::Done) => self.at(StageView::Locate),
            (StageView::Locate, ReplyView::Located(command)) => {
                SetupState { command: Some(command), ..self }.at(StageView::Create)
            },
            (StageView::Locate, ReplyView::Failed(source)) => {
                self.failed(WatchErrorView::GetSelfPathFailed { source })
            },
            (StageView::Create, ReplyView::Done) => self.at_exclude(0),
            (StageView::Create, ReplyView::Failed(source)) => {
                self.failed(WatchErrorView::WatcherSetupFailed { source })
            },
            (StageView::Root(origin, path), ReplyView::Directory(is_dir)) => if is_dir {
                self.at(StageView::Open(origin, path))
            } else if origin is Exclude {
                self.excluding(path).past(origin)
            } else {
                self.at_file(origin, false, path)
            },
            (StageView::Open(origin, _), ReplyView::Done) => self.at(StageView::Tree(origin)),
            (StageView::Tree(origin), ReplyView::Walked(path)) => if origin is Exclude {
                self.excluding(path)
            } else {
                self.at(StageView::Leaf(origin, path))
            },
            (StageView::Tree(_), ReplyView::Failed(source)) => {
                self.failed(WatchErrorView::ReadCustomDirEntryFailed { source })
            },
            (StageView::Tree(origin), ReplyView::Exhausted) => self.past(origin),
            (StageView::Leaf(origin, path), ReplyView::Directory(is_dir)) => self.at(
                if is_dir {
                    StageView::Tree(origin)
                } else {
                    StageView::Full(origin, path)
                },
            ),
            (StageView::Full(origin, _), ReplyView::Resolved(path)) => {
                self.at_file(origin, true, path)
            },
            (StageView::Full(_, path), ReplyView::Failed(source)) => self.failed(
                WatchErrorView::WatchFileNotResolved { filename: SubjectView::At(path), source },
            ),
            (StageView::Watch(origin, in_tree, _), ReplyView::Done) => if in_tree {
                self.at(StageView::Tree(origin))
            } else {
                self.past(origin)
            },
            (StageView::Watch(_, _, path), ReplyView::Failed(source)) => self.failed(
                WatchErrorView::WatchFileFailed { filename: SubjectView::At(path), source },
            ),
            (StageView::List, ReplyView::Done) => self.at(StageView::Entries),
            (StageView::List, ReplyView::Failed(source)) => {
                self.failed(WatchErrorView::ReadCurrentDirFailed { source })
            },
            (StageView::Entries, ReplyView::Entry(name, path)) => {
                if self.passed_over.contains(name) {
                    self
                } else {
                    self.at(StageView::Entry(path))
                }
            },
            (StageView::Entries, ReplyView::Failed(source)) => {
                self.failed(WatchErrorView::ReadDirEntryFailed { source })
            },
            (StageView::Entries, ReplyView::Exhausted) => self.at_include(0),
            (StageView::Entry(_), ReplyView::Resolved(path)) => {
                self.at(StageView::Root(OriginView::CurrentDir, path))
            },
            (StageView::Entry(path), ReplyView::Failed(source)) => self.failed(
                WatchErrorView::WatchFileNotResolved { filename: SubjectView::At(path), source },
            ),
            _ => self,
        }
    }
}

/// The state in which a setup starts.
pub open spec fn initial<E>(
    custom: Seq<Seq<char>>,
    server: Option<(Seq<char>, u16)>,
    passed_over: Seq<Seq<char>>,
) -> SetupState<E> {
    SetupState {
        custom,
        server,
        passed_over,
        includes: Seq::empty(),
        excludes: Seq::empty(),
        excluded: Seq::empty(),
        command: None,
        stage: StageView::Handler,
    }.at_custom(0)
}

/// Where a path under examination came from.
enum Origin {
    Exclude(usize),
    CurrentDir,
    Include(usize),
}

/// How far the setup has come.
enum Stage<E> {
    Custom(usize),
    Handler,
    Server(Address),
    Locate,
    Create,
    Root(Origin, FilePath),
    Open(Origin, FilePath),
    Tree(Origin),
    Leaf(Origin, FilePath),
    Full(Origin, FilePath),
    Watch(Origin, bool, FilePath),
    List,
    Entries,
    Entry(FilePath),
    Over(Result<(), WatchError<E>>),
}

impl Origin {
    spec fn model(self) -> OriginView {
        match self {
            Origin::Exclude(i) => OriginView::Exclude(i as int),
            Origin::CurrentDir => OriginView::CurrentDir,
            Origin::Include(i) => OriginView::Include(i as int),
        }
    }
}

impl<E> Stage<E> {
    spec fn model(self) -> StageView<E> {
        match self {
            Stage::Custom(i) => StageView::Custom(i as int),
            Stage::Handler => StageView::Handler,
            Stage::Server(server) => StageView::Server(server@.0, server@.1),
            Stage::Locate => StageView::Locate,
            Stage::Create => StageView::Create,
            Stage::Root(origin, path) => StageView::Root(origin.model(), path@),
            Stage::Open(origin, path) => StageView::Open(origin.model(), path@),
            Stage::Tree(origin) => StageView::Tree(origin.model()),
            Stage::Leaf(origin, path) => StageView::Leaf(origin.model(), path@),
            Stage::Full(origin, path) => StageView::Full(origin.model(), path@),
            Stage::Watch(origin, in_tree, path) => {
                StageView::Watch(origin.model(), in_tree, path@)
            },
            Stage::List => StageView::List,
            Stage::Entries => StageView::Entries,
            Stage::Entry(path) => StageView::Entry(path@),
            Stage::Over(Ok(())) => StageView::Over(Ok(())),
            Stage::Over(Err(error)) => StageView::Over(Err(error@)),
        }
    }

    /// Whether the stage comes after the running program was found.
    spec fn needs_command(self) -> bool {
        match self {
            Stage::Custom(_) => false,
            Stage::Handler => false,
            Stage::Server(_) => false,
            Stage::Locate => false,
            Stage::Over(Err(_)) => false,
            _ => true,
        }
    }

    /// The origin of the path that the stage is about, if it has one.
    spec fn origin(self) -> Option<Origin> {
        match self {
            Stage::Root(origin, _) => Some(origin),
            Stage::Open(origin, _) => Some(origin),
            Stage::Tree(origin) => Some(origin),
            Stage::Leaf(origin, _) => Some(origin),
            Stage::Full(origin, _) => Some(origin),
            Stage::Watch(origin, _, _) => Some(origin),
            _ => None,
        }
    }
}

/// The setup of the watcher. `E` is what the outside world reports as a failure.
pub struct Setup<E> {
    custom: Vec<String>,
    server: Option<Address>,
    passed_over: Vec<String>,
    includes: Vec<FilePath>,
    excludes: Vec<FilePath>,
    excluded: Vec<FilePath>,
    command: Option<ChildCommand>,
    stage: Stage<E>,
}

impl<E> View for Setup<E> {
    type V = SetupState<E>;

    closed spec fn view(&self) -> SetupState<E> {
        SetupState {
            custom: texts(self.custom@),
            server: match self.server {
                Some(server) => Some(server@),
                None => None,
            },
            passed_over: texts(self.passed_over@),
            includes: paths(self.includes@),
            excludes: paths(self.excludes@),
            excluded: paths(self.excluded@),
            command: match self.command {
                Some(command) => Some(command@),
                None => None,
            },
            stage: self.stage.model(),
        }
    }
}

impl<E> Setup<E> {
    /// Positions stay within the lists that they point into, and past the stage at
    /// which the running program is found it is known how to start a copy of it.
    #[verifier::type_invariant]
    spec fn consistent(self) -> bool {
        &&& self.stage.needs_command() ==> self.command is Some
        &&& self.stage matches Stage::Custom(i) ==> i < self.custom.len()
        &&& self.stage.origin() matches Some(Origin::Exclude(i)) ==> i < self.excludes.len()
        &&& self.stage.origin() matches Some(Origin::Include(i)) ==> i < self.includes.len()
    }

    /// A setup that has not done anything yet.
    pub fn new(
        custom: Vec<String>,
        server: Option<Address>,
        passed_over: Vec<String>,
    ) -> (setup: Setup<E>)
        ensures
            setup@ == initial::<E>(
                texts(custom@),
                (match server {
                    Some(server) => Some(server@),
                    None => None,
                }),
                texts(passed_over@),
            ),
    {
        let stage = if custom.len() > 0 {
            Stage::Custom(0)
        } else {
            Stage::Handler
        };
        let setup = Setup {
            custom,
            server,
            passed_over,
            includes: Vec::new(),
            excludes: Vec::new(),
            excluded: Vec::new(),
            command: None,
            stage,
        };
        assert(paths(Seq::<FilePath>::empty()) =~= Seq::<PathView>::empty());
        setup
    }

    /// What the outside world is to do next.
    pub fn action(&self) -> (action: Action)
        ensures
            action@ == self@.action(),
    {
        proof {
            use_type_invariant(self);
        }
        match &self.stage {
            Stage::Custom(i) => Action::ResolveName(watched_name(&self.custom[*i])),
            Stage::Handler => Action::InstallHandler,
            Stage::Server(server) => Action::StartReloadServer(server.duplicate()),
            Stage::Locate => Action::LocateSelf,
            Stage::Create => Action::CreateWatcher,
            Stage::Root(_, path) => Action::Probe(path.duplicate()),
            Stage::Open(_, path) => Action::OpenTree(path.duplicate()),
            Stage::Tree(_) => Action::NextInTree,
            Stage::Leaf(_, path) => Action::Probe(path.duplicate()),
            Stage::Full(_, path) => Action::Resolve(path.duplicate()),
            Stage::Watch(_, _, path) => Action::Watch(path.duplicate()),
            Stage::List => Action::ListCurrentDir,
            Stage::Entries => Action::NextEntry,
            Stage::Entry(path) => Action::Resolve(path.duplicate()),
            Stage::Over(_) => Action::Stop,
        }
    }

    /// The same setup at a stage that is about no position.
    fn at(self, stage: Stage<E>) -> (next: Setup<E>)
        requires
            stage !is Custom,
            stage.origin() is None,
            stage.needs_command() ==> self.command is Some,
        ensures
            next@ == self@.at(stage.model()),
    {
        Setup { stage, ..self }
    }

    /// The same setup at a stage that is about a path of a known origin.
    fn at_path(self, stage: Stage<E>) -> (next: Setup<E>)
        requires
            self.knows(stage.origin()),
            self.command is Some,
        ensures
            next@ == self@.at(stage.model()),
    {
        Setup { stage, ..self }
    }

    /// Whether an origin points into the lists of this setup.
    spec fn knows(self, origin: Option<Origin>) -> bool {
        match origin {
            Some(Origin::Exclude(i)) => i < self.excludes.len(),
            Some(Origin::CurrentDir) => true,
            Some(Origin::Include(i)) => i < self.includes.len(),
            None => false,
        }
    }

    fn fail(self, error: WatchError<E>) -> (next: Setup<E>)
        ensures
            next@ == self@.failed(error@),
    {
        self.at(Stage::Over(Err(error)))
    }

    fn sort(self, i: usize, path: FilePath) -> (next: Setup<E>)
        requires
            i < self.custom.len(),
            self.stage is Handler,
        ensures
            next@ == self@.sorted(i as int, path@),
    {
        if is_excluding(&self.custom[i]) {
            let mut excludes = self.excludes;
            excludes.push(path);
            let next = Setup { excludes, ..self };
            assert(paths(next.excludes@) =~= paths(self.excludes@).push(path@));
            next
        } else {
            let mut includes = self.includes;
            includes.push(path);
            let next = Setup { includes, ..self };
            assert(paths(next.includes@) =~= paths(self.includes@).push(path@));
            next
        }
    }

    fn at_custom(self, i: usize) -> (next: Setup<E>)
        ensures
            next@ == self@.at_custom(i as int),
    {
        let stage = if i < self.custom.len() {
            Stage::Custom(i)
        } else {
            Stage::Handler
        };
        Setup { stage, ..self }
    }

    fn at_exclude(self, i: usize) -> (next: Setup<E>)
        requires
            self.command is Some,
        ensures
            next@ == self@.at_exclude(i as int),
    {
        let stage = if i < self.excludes.len() {
            Stage::Root(Origin::Exclude(i), self.excludes[i].duplicate())
        } else {
            Stage::List
        };
        Setup { stage, ..self }
    }

    fn at_include(self, i: usize) -> (next: Setup<E>)
        requires
            self.command is Some,
        ensures
            next@ == self@.at_include(i as int),
    {
        let stage = if i < self.includes.len() {
            Stage::Root(Origin::Include(i), self.includes[i].duplicate())
        } else {
            Stage::Over(Ok(()))
        };
        Setup { stage, ..self }
    }

    fn past(self, origin: Origin) -> (next: Setup<E>)
        requires
            self.knows(Some(origin)),
            self.command is Some,
        ensures
            next@ == self@.past(origin.model()),
    {
        match origin {
            Origin::Exclude(i) => self.at_exclude(i + 1),
            Origin::CurrentDir => self.at(Stage::Entries),
            Origin::Include(i) => self.at_include(i + 1),
        }
    }

    fn at_file(self, origin: Origin, in_tree: bool, path: FilePath) -> (next: Setup<E>)
        requires
            self.knows(Some(origin)),
            self.command is Some,
        ensures
            next@ == self@.at_file(origin.model(), in_tree, path@),
    {
        if !lists_path(&self.excluded, &path) {
            self.at_path(Stage::Watch(origin, in_tree, path))
        } else if in_tree {
            self.at_path(Stage::Tree(origin))
        } else {
            self.past(origin)
        }
    }

    fn excluding(self, path: FilePath) -> (next: Setup<E>)
        ensures
            next@ == self@.excluding(path@),
            next.stage == self.stage,
            next.excludes == self.excludes,
            next.includes == self.includes,
            next.command == self.command,
    {
        proof {
            use_type_invariant(&self);
        }
        let mut excluded = self.excluded;
        excluded.push(path);
        let next = Setup { excluded, ..self };
        assert(paths(next.excluded@) =~= paths(self.excluded@).push(path@));
        next
    }

    /// Takes what came of the action that was asked for.
    pub fn handle(self, reply: Reply<E>) -> (next: Setup<E>)
        ensures
            next@ == self@.step(reply@),
    {
        proof {
            use_type_invariant(&self);
        }
        let Setup { custom, server, passed_over, includes, excludes, excluded, command, stage } =
            self;
        let rest = Setup {
            custom,
            server,
            passed_over,
            includes,
            excludes,
            excluded,
            command,
            stage: Stage::Handler,
        };
        match (stage, reply) {
            (Stage::Custom(i), Reply::Resolved(path)) => rest.sort(i, path).at_custom(i + 1),
            (Stage::Custom(i), Reply::Failed(source)) => {
                let filename = Subject::Named(watched_name(&rest.custom[i]));
                rest.fail(WatchError::WatchFileNotResolved { filename, source })
            },
            (Stage::Handler, Reply::Done) => {
                let stage = match &rest.server {
                    Some(server) => Stage::Server(server.duplicate()),
                    None => Stage::Locate,
                };
                rest.at(stage)
            },
            (Stage::Server(_), Reply::Done) => rest.at(Stage::Locate),
            (Stage::Locate, Reply::Located(command)) => {
                Setup { command: Some(command), stage: Stage::Create, ..rest }
            },
            (Stage::Locate, Reply::Failed(source)) => {
                rest.fail(WatchError::GetSelfPathFailed { source })
            },
            (Stage::Create, Reply::Done) => rest.at_exclude(0),
            (Stage::Create, Reply::Failed(source)) => {
                rest.fail(WatchError::WatcherSetupFailed { source })
            },
            (Stage::Root(origin, path), Reply::Directory(is_dir)) => {
                if is_dir {
                    rest.at_path(Stage::Open(origin, path))
                } else if matches!(origin, Origin::Exclude(_)) {
                    rest.excluding(path).past(origin)
                } else {
                    rest.at_file(origin, false, path)
                }
            },
            (Stage::Open(origin, _), Reply::Done) => rest.at_path(Stage::Tree(origin)),
            (Stage::Tree(origin), Reply::Walked(path)) => {
                if matches!(origin, Origin::Exclude(_)) {
                    rest.excluding(path).at_path(Stage::Tree(origin))
                } else {
                    rest.at_path(Stage::Leaf(origin, path))
                }
            },
            (Stage::Tree(_), Reply::Failed(source)) => {
                rest.fail(WatchError::ReadCustomDirEntryFailed { source })
            },
            (Stage::Tree(origin), Reply::Exhausted) => rest.past(origin),
            (Stage::Leaf(origin, path), Reply::Directory(is_dir)) => {
                if is_dir {
                    rest.at_path(Stage::Tree(origin))
                } else {
                    rest.at_path(Stage::Full(origin, path))
                }
            },
            (Stage::Full(origin, _), Reply::Resolved(path)) => rest.at_file(origin, true, path),
            (Stage::Full(_, path), Reply::Failed(source)) => {
                let filename = Subject::At(path);
                rest.fail(WatchError::WatchFileNotResolved { filename, source })
            },
            (Stage::Watch(origin, in_tree, _), Reply::Done) => {
                if in_tree {
                    rest.at_path(Stage::Tree(origin))
                } else {
                    rest.past(origin)
                }
            },
            (Stage::Watch(_, _, path), Reply::Failed(source)) => {
                let filename = Subject::At(path);
                rest.fail(WatchError::WatchFileFailed { filename, source })
            },
            (Stage::List, Reply::Done) => rest.at(Stage::Entries),
            (Stage::List, Reply::Failed(source)) => {
                rest.fail(WatchError::ReadCurrentDirFailed { source })
            },
            (Stage::Entries, Reply::Entry(name, path)) => {
                if lists_text(&rest.passed_over, &name) {
                    rest.at(Stage::Entries)
                } else {
                    rest.at(Stage::Entry(path))
                }
            },
            (Stage::Entries, Reply::Failed(source)) => {
                rest.fail(WatchError::ReadDirEntryFailed { source })
            },
            (Stage::Entries, Reply::Exhausted) => rest.at_include(0),
            (Stage::Entry(_), Reply::Resolved(path)) => {
                rest.at_path(Stage::Root(Origin::CurrentDir, path))
            },
            (Stage::Entry(path), Reply::Failed(source)) => {
                let filename = Subject::At(path);
                rest.fail(WatchError::WatchFileNotResolved { filename, source })
            },
            (stage, _) => Setup { stage, ..rest },
        }
    }

    /// How the setup ended, if it has: with the way to start a copy of the running
    /// program, or with a failure.
    pub fn into_result(self) -> (result: Option<Result<ChildCommand, WatchError<E>>>)
        ensures
            match result {
                Some(Ok(command)) => {
                    &&& self@.stage == StageView::<E>::Over(Ok(()))
                    &&& self@.command == Some(command@)
                },
                Some(Err(error)) => self@.stage == StageView::Over(Err(error@)),
                None => self@.stage !is Over,
            },
    {
        proof {
            use_type_invariant(&self);
        }
        match self.stage {
            Stage::Over(Ok(())) => match self.command {
                Some(command) => Some(Ok(command)),
                None => None,
            },
            Stage::Over(Err(error)) => Some(Err(error)),
            _ => None,
        }
    }

    /// The watching process that follows the setup, once that is over: it starts
    /// the copy of the running program that the setup found, unless the setup
    /// failed.
    pub fn into_supervisor(self) -> (next: Option<Result<Supervisor<E>, WatchError<E>>>)
        ensures
            match next {
                Some(Ok(supervisor)) => {
                    &&& self@.stage == StageView::<E>::Over(Ok(()))
                    &&& self@.command == Some(supervisor@.command)
                    &&& supervisor@.stage == WatchStage::<E>::Starting
                },
                Some(Err(error)) => self@.stage == StageView::Over(Err(error@)),
                None => self@.stage !is Over,
            },
    {
        match self.into_result() {
            Some(Ok(command)) => Some(Ok(Supervisor::new(command))),
            Some(Err(error)) => Some(Err(error)),
            None => None,
        }
    }
}

} // verus!
