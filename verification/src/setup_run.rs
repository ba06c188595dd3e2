//! What a setup does from its start to its end.
//!
//! A [`World`] says what the outside world replies to everything that a setup
//! may ask of it. From that alone follows what is asked, in what order, and how
//! the setup ends: the law here says so.
use crate::errors::{SubjectView, WatchErrorView};
use crate::path::{lists, PathView};
use crate::setup::{
    excluding, initial, named, ActionView, OriginView, ReplyView, SetupState, StageView,
};
use crate::supervise::ChildView;
use vstd::prelude::*;

verus! {

/// An entry of a tree, and what is replied about it.
pub struct Leaf<E> {
    /// The entry itself.
    pub entry: Result<PathView, E>,
    /// Whether it is a directory.
    pub is_dir: bool,
    /// Its full path.
    pub full: Result<PathView, E>,
    /// What comes of watching it.
    pub added: Result<(), E>,
}

/// What is replied about a full path that may be watched.
pub struct Root<E> {
    /// Whether it is a directory.
    pub is_dir: bool,
    /// What comes of watching it, if it is none.
    pub added: Result<(), E>,
    /// The entries of the tree below it, if it is one.
    pub tree: Seq<Leaf<E>>,
}

/// An entry of the current directory, and what is replied about it.
pub struct Top<E> {
    /// Its name and its path.
    pub entry: Result<(Seq<char>, PathView), E>,
    /// Its full path.
    pub full: Result<PathView, E>,
    /// What is replied about the full path.
    pub root: Root<E>,
}

/// What is replied about the full path of an exclusion.
pub struct Cover<E> {
    /// Whether it is a directory.
    pub is_dir: bool,
    /// The entries of the tree below it, if it is one.
    pub tree: Seq<Result<PathView, E>>,
}

/// What the outside world replies during a setup.
pub struct World<E> {
    /// The full path of each custom entry.
    pub resolved: Seq<Result<PathView, E>>,
    /// How to start a copy of the running program.
    pub located: Result<ChildView, E>,
    /// What comes of creating the watcher.
    pub created: Result<(), E>,
    /// What is replied about each exclusion.
    pub covers: Seq<Cover<E>>,
    /// What comes of listing the current directory.
    pub listed: Result<(), E>,
    /// The entries of the current directory.
    pub tops: Seq<Top<E>>,
    /// What is replied about each extra entry to watch.
    pub roots: Seq<Root<E>>,
}

/// A part of a setup: what is asked and what is replied, in order, and the failure
/// that ends the setup, if there is one.
pub struct Part<E> {
    pub exchanges: Seq<(ActionView, ReplyView<E>)>,
    pub error: Option<WatchErrorView<E>>,
}

impl<E> Part<E> {
    /// A part in which nothing is asked.
    pub open spec fn nothing() -> Part<E> {
        Part { exchanges: Seq::empty(), error: None }
    }

    /// A part in which one thing is asked, which cannot fail.
    pub open spec fn asked(action: ActionView, reply: ReplyView<E>) -> Part<E> {
        Part { exchanges: seq![(action, reply)], error: None }
    }

    /// A part in which one thing is asked: what it gives is replied by `reply`, and
    /// its failure ends the setup with the error that `wrap` makes of it.
    pub open spec fn tried<T>(
        action: ActionView,
        result: Result<T, E>,
        reply: spec_fn(T) -> ReplyView<E>,
        wrap: spec_fn(E) -> WatchErrorView<E>,
    ) -> Part<E> {
        match result {
            Ok(value) => Part::asked(action, reply(value)),
            Err(source) => Part {
                exchanges: seq![(action, ReplyView::Failed(source))],
                error: Some(wrap(source)),
            },
        }
    }

    /// This part and, unless it fails, the next.
    pub open spec fn then_part(self, next: Part<E>) -> Part<E> {
        if self.error is Some {
            self
        } else {
            Part { exchanges: self.exchanges + next.exchanges, error: next.error }
        }
    }
}

/// The full paths of the custom entries from `i` on that exclude what they name
/// (`kind`), or that do not.
pub open spec fn picked<E>(
    custom: Seq<Seq<char>>,
    resolved: Seq<Result<PathView, E>>,
    kind: bool,
    i: int,
) -> Seq<PathView>
    decreases custom.len() - i,
{
    if i >= custom.len() {
        Seq::empty()
    } else if excluding(custom[i]) == kind {
        seq![resolved[i]->Ok_0] + picked(custom, resolved, kind, i + 1)
    } else {
        picked(custom, resolved, kind, i + 1)
    }
}

/// The paths that a cover excludes from its entry `i` on.
pub open spec fn tree_paths<E>(tree: Seq<Result<PathView, E>>, i: int) -> Seq<PathView>
    decreases tree.len() - i,
{
    if i >= tree.len() {
        Seq::empty()
    } else {
        seq![tree[i]->Ok_0] + tree_paths(tree, i + 1)
    }
}

/// The paths that the exclusion of `path` covers: everything in the tree if it
/// is a directory, and otherwise the path itself.
pub open spec fn covered<E>(path: PathView, cover: Cover<E>) -> Seq<PathView> {
    if cover.is_dir {
        tree_paths(cover.tree, 0)
    } else {
        seq![path]
    }
}

/// The paths that the exclusions from `i` on cover.
pub open spec fn all_covered<E>(
    excludes: Seq<PathView>,
    covers: Seq<Cover<E>>,
    i: int,
) -> Seq<PathView>
    decreases excludes.len() - i,
{
    if i >= excludes.len() {
        Seq::empty()
    } else {
        covered(excludes[i], covers[i]) + all_covered(excludes, covers, i + 1)
    }
}

impl<E> World<E> {
    /// The exclusions.
    pub open spec fn excludes(self, custom: Seq<Seq<char>>) -> Seq<PathView> {
        picked(custom, self.resolved, true, 0)
    }

    /// The extra entries to watch.
    pub open spec fn includes(self, custom: Seq<Seq<char>>) -> Seq<PathView> {
        picked(custom, self.resolved, false, 0)
    }

    /// The paths that are excluded.
    pub open spec fn excluded(self, custom: Seq<Seq<char>>) -> Seq<PathView> {
        all_covered(self.excludes(custom), self.covers, 0)
    }

    /// Whether there is a reply about each custom entry, each exclusion and each
    /// extra entry.
    pub open spec fn answers(self, custom: Seq<Seq<char>>) -> bool {
        &&& self.resolved.len() == custom.len()
        &&& self.covers.len() == self.excludes(custom).len()
        &&& self.roots.len() == self.includes(custom).len()
    }
}

// ---- The parts of a setup ----

/// The reply to something that gives nothing.
pub open spec fn done<E>() -> spec_fn(()) -> ReplyView<E> {
    |_nothing: ()| ReplyView::Done
}

/// The reply with a full path.
pub open spec fn resolved<E>() -> spec_fn(PathView) -> ReplyView<E> {
    |path: PathView| ReplyView::Resolved(path)
}

/// The reply with the way to start a copy of the running program.
pub open spec fn located<E>() -> spec_fn(ChildView) -> ReplyView<E> {
    |command: ChildView| ReplyView::Located(command)
}

/// The reply with an entry of a tree.
pub open spec fn walked<E>() -> spec_fn(PathView) -> ReplyView<E> {
    |path: PathView| ReplyView::Walked(path)
}

/// The error that a file could not be made into a full path.
pub open spec fn not_resolved<E>(filename: SubjectView) -> spec_fn(E) -> WatchErrorView<E> {
    |source: E| WatchErrorView::WatchFileNotResolved { filename, source }
}

/// The error that an entry of a tree could not be read.
pub open spec fn not_walked<E>() -> spec_fn(E) -> WatchErrorView<E> {
    |source: E| WatchErrorView::ReadCustomDirEntryFailed { source }
}

/// The custom entries from `i` on are resolved.
pub open spec fn custom_part<E>(
    custom: Seq<Seq<char>>,
    found: Seq<Result<PathView, E>>,
    i: int,
) -> Part<E>
    decreases custom.len() - i,
{
    if i >= custom.len() {
        Part::nothing()
    } else {
        Part::tried(
            ActionView::ResolveName(named(custom[i])),
            found[i],
            resolved(),
            not_resolved(SubjectView::Named(named(custom[i]))),
        ).then_part(custom_part(custom, found, i + 1))
    }
}

/// The handler is installed, the server is started if it is wanted, the running
/// program is found and the watcher is created.
pub open spec fn prepare_part<E>(
    server: Option<(Seq<char>, u16)>,
    program: Result<ChildView, E>,
    created: Result<(), E>,
) -> Part<E> {
    Part::asked(ActionView::InstallHandler, ReplyView::Done).then_part(
        match server {
            Some((host, port)) => {
                Part::asked(ActionView::StartReloadServer(host, port), ReplyView::Done)
            },
            None => Part::nothing(),
        },
    ).then_part(
        Part::tried(
            ActionView::LocateSelf,
            program,
            located(),
            |source: E| WatchErrorView::GetSelfPathFailed { source },
        ),
    ).then_part(
        Part::tried(
            ActionView::CreateWatcher,
            created,
            done(),
            |source: E| WatchErrorView::WatcherSetupFailed { source },
        ),
    )
}

/// The tree of an exclusion is read from its entry `i` on.
pub open spec fn cover_part<E>(tree: Seq<Result<PathView, E>>, i: int) -> Part<E>
    decreases tree.len() - i,
{
    if i >= tree.len() {
        Part::asked(ActionView::NextInTree, ReplyView::Exhausted)
    } else {
        Part::tried(ActionView::NextInTree, tree[i], walked(), not_walked()).then_part(
            cover_part(tree, i + 1),
        )
    }
}

/// The exclusions from `i` on are worked out.
pub open spec fn covers_part<E>(
    excludes: Seq<PathView>,
    covers: Seq<Cover<E>>,
    i: int,
) -> Part<E>
    decreases excludes.len() - i,
{
    if i >= excludes.len() {
        Part::nothing()
    } else {
        Part::asked(
            ActionView::Probe(excludes[i]),
            ReplyView::Directory(covers[i].is_dir),
        ).then_part(
            if covers[i].is_dir {
                Part::asked(ActionView::OpenTree(excludes[i]), ReplyView::Done).then_part(
                    cover_part(covers[i].tree, 0),
                )
            } else {
                Part::nothing()
            },
        ).then_part(covers_part(excludes, covers, i + 1))
    }
}

/// The full path of a file is watched, unless it is excluded.
pub open spec fn file_part<E>(
    path: PathView,
    added: Result<(), E>,
    excluded: Seq<PathView>,
) -> Part<E> {
    if lists(excluded, path) {
        Part::nothing()
    } else {
        Part::tried(
            ActionView::Watch(path),
            added,
            done(),
            |source: E|
                WatchErrorView::WatchFileFailed { filename: SubjectView::At(path), source },
        )
    }
}

/// What becomes of an entry of a tree once it is read: it is watched, unless it is
/// a directory or excluded.
pub open spec fn entry_part<E>(
    path: PathView,
    leaf: Leaf<E>,
    excluded: Seq<PathView>,
) -> Part<E> {
    Part::asked(ActionView::Probe(path), ReplyView::Directory(leaf.is_dir)).then_part(
        if leaf.is_dir {
            Part::nothing()
        } else {
            Part::tried(
                ActionView::Resolve(path),
                leaf.full,
                resolved(),
                not_resolved(SubjectView::At(path)),
            ).then_part(file_part(leaf.full->Ok_0, leaf.added, excluded))
        },
    )
}

/// A tree is watched from its entry `i` on.
pub open spec fn tree_part<E>(tree: Seq<Leaf<E>>, excluded: Seq<PathView>, i: int) -> Part<E>
    decreases tree.len() - i,
{
    if i >= tree.len() {
        Part::asked(ActionView::NextInTree, ReplyView::Exhausted)
    } else {
        Part::tried(ActionView::NextInTree, tree[i].entry, walked(), not_walked()).then_part(
            entry_part(tree[i].entry->Ok_0, tree[i], excluded),
        ).then_part(tree_part(tree, excluded, i + 1))
    }
}

/// What stands at a full path is watched.
pub open spec fn root_part<E>(
    path: PathView,
    root: Root<E>,
    excluded: Seq<PathView>,
) -> Part<E> {
    Part::asked(ActionView::Probe(path), ReplyView::Directory(root.is_dir)).then_part(
        if root.is_dir {
            Part::asked(ActionView::OpenTree(path), ReplyView::Done).then_part(
                tree_part(root.tree, excluded, 0),
            )
        } else {
            file_part(path, root.added, excluded)
        },
    )
}

/// What becomes of an entry of the current directory once it is read: it is
/// watched, unless its name is passed over.
pub open spec fn top_part<E>(
    name: Seq<char>,
    path: PathView,
    top: Top<E>,
    passed_over: Seq<Seq<char>>,
    excluded: Seq<PathView>,
) -> Part<E> {
    if passed_over.contains(name) {
        Part::nothing()
    } else {
        Part::tried(
            ActionView::Resolve(path),
            top.full,
            resolved(),
            not_resolved(SubjectView::At(path)),
        ).then_part(root_part(top.full->Ok_0, top.root, excluded))
    }
}

/// The current directory is watched from its entry `i` on.
pub open spec fn tops_part<E>(
    tops: Seq<Top<E>>,
    passed_over: Seq<Seq<char>>,
    excluded: Seq<PathView>,
    i: int,
) -> Part<E>
    decreases tops.len() - i,
{
    if i >= tops.len() {
        Part::asked(ActionView::NextEntry, ReplyView::Exhausted)
    } else {
        let (name, path) = tops[i].entry->Ok_0;
        Part::tried(
            ActionView::NextEntry,
            tops[i].entry,
            |entry: (Seq<char>, PathView)| ReplyView::Entry(entry.0, entry.1),
            |source: E| WatchErrorView::ReadDirEntryFailed { source },
        ).then_part(top_part(name, path, tops[i], passed_over, excluded)).then_part(
            tops_part(tops, passed_over, excluded, i + 1),
        )
    }
}

/// The extra entries from `i` on are watched.
pub open spec fn roots_part<E>(
    includes: Seq<PathView>,
    roots: Seq<Root<E>>,
    excluded: Seq<PathView>,
    i: int,
) -> Part<E>
    decreases includes.len() - i,
{
    if i >= includes.len() {
        Part::nothing()
    } else {
        root_part(includes[i], roots[i], excluded).then_part(
            roots_part(includes, roots, excluded, i + 1),
        )
    }
}

/// The current directory is listed.
pub open spec fn list_part<E>(listed: Result<(), E>) -> Part<E> {
    Part::tried(
        ActionView::ListCurrentDir,
        listed,
        done(),
        |source: E| WatchErrorView::ReadCurrentDirFailed { source },
    )
}

impl<E> World<E> {
    /// The whole of a setup in this world.
    pub open spec fn course(
        self,
        custom: Seq<Seq<char>>,
        server: Option<(Seq<char>, u16)>,
        passed_over: Seq<Seq<char>>,
    ) -> Part<E> {
        custom_part(custom, self.resolved, 0).then_part(
            prepare_part(server, self.located, self.created),
        ).then_part(covers_part(self.excludes(custom), self.covers, 0)).then_part(
            list_part(self.listed),
        ).then_part(tops_part(self.tops, passed_over, self.excluded(custom), 0)).then_part(
            roots_part(self.includes(custom), self.roots, self.excluded(custom), 0),
        )
    }
}

// ---- Runs ----

/// The state after a sequence of replies.
pub open spec fn after<E>(state: SetupState<E>, replies: Seq<ReplyView<E>>) -> SetupState<E>
    decreases replies.len(),
{
    if replies.len() == 0 {
        state
    } else {
        after(state, replies.drop_last()).step(replies.last())
    }
}

/// The actions that a setup asks for, one before each of the replies.
pub open spec fn actions<E>(
    state: SetupState<E>,
    replies: Seq<ReplyView<E>>,
) -> Seq<ActionView>
    decreases replies.len(),
{
    if replies.len() == 0 {
        Seq::empty()
    } else {
        actions(state, replies.drop_last()).push(after(state, replies.drop_last()).action())
    }
}

impl<E> Part<E> {
    /// What is replied.
    pub open spec fn replies(self) -> Seq<ReplyView<E>> {
        self.exchanges.map_values(|x: (ActionView, ReplyView<E>)| x.1)
    }

    /// What is asked.
    pub open spec fn actions(self) -> Seq<ActionView> {
        self.exchanges.map_values(|x: (ActionView, ReplyView<E>)| x.0)
    }

    /// Whether a setup in the state `state` goes through this part when it gets its
    /// replies: it asks what the part asks, and ends in the failure of the part or
    /// in the state `next`.
    pub open spec fn leads(self, state: SetupState<E>, next: SetupState<E>) -> bool {
        &&& actions(state, self.replies()) == self.actions()
        &&& match self.error {
            Some(error) => {
                after(state, self.replies()).stage == StageView::<E>::Over(Err(error))
            },
            None => after(state, self.replies()) == next,
        }
    }
}

proof fn lemma_concat<E>(state: SetupState<E>, a: Seq<ReplyView<E>>, b: Seq<ReplyView<E>>)
    ensures
        after(state, a + b) == after(after(state, a), b),
        actions(state, a + b) == actions(state, a) + actions(after(state, a), b),
    decreases b.len(),
{
    if b.len() == 0 {
        assert(a + b =~= a);
        assert(actions(state, a) + actions(after(state, a), b) =~= actions(state, a));
    } else {
        assert((a + b).drop_last() =~= a + b.drop_last());
        lemma_concat(state, a, b.drop_last());
        assert(actions(state, a + b) =~= actions(state, a) + actions(after(state, a), b));
    }
}

proof fn lemma_nothing<E>(state: SetupState<E>)
    ensures
        Part::<E>::nothing().leads(state, state),
{
    assert(actions(state, Part::<E>::nothing().replies()) =~= Part::<E>::nothing().actions());
}

/// One part after another.
proof fn lemma_chain<E>(
    a: Part<E>,
    b: Part<E>,
    state: SetupState<E>,
    middle: SetupState<E>,
    next: SetupState<E>,
)
    requires
        a.leads(state, middle),
        a.error is None ==> b.leads(middle, next),
    ensures
        a.then_part(b).leads(state, next),
{
    if a.error is None {
        lemma_concat(state, a.replies(), b.replies());
        assert(a.then_part(b).replies() =~= a.replies() + b.replies());
        assert(a.then_part(b).actions() =~= a.actions() + b.actions());
    }
}

proof fn lemma_exchange<E>(part: Part<E>, state: SetupState<E>, reply: ReplyView<E>)
    requires
        part.exchanges == seq![(state.action(), reply)],
    ensures
        actions(state, part.replies()) == part.actions(),
        after(state, part.replies()) == state.step(reply),
{
    let replies = part.replies();
    assert(replies.drop_last() =~= Seq::<ReplyView<E>>::empty());
    assert(after(state, replies.drop_last()) == state);
    assert(actions(state, replies.drop_last()) == Seq::<ActionView>::empty());
    assert(actions(state, replies) =~= part.actions());
}

proof fn lemma_asked<E>(state: SetupState<E>, reply: ReplyView<E>)
    ensures
        Part::asked(state.action(), reply).leads(state, state.step(reply)),
{
    lemma_exchange(Part::asked(state.action(), reply), state, reply);
}

proof fn lemma_tried<T, E>(
    state: SetupState<E>,
    result: Result<T, E>,
    reply: spec_fn(T) -> ReplyView<E>,
    wrap: spec_fn(E) -> WatchErrorView<E>,
    next: SetupState<E>,
)
    requires
        match result {
            Ok(value) => state.step(reply(value)) == next,
            Err(source) => {
                state.step(ReplyView::Failed(source)).stage == StageView::<E>::Over(
                    Err(wrap(source)),
                )
            },
        },
    ensures
        Part::tried(state.action(), result, reply, wrap).leads(state, next),
{
    let part = Part::tried(state.action(), result, reply, wrap);
    match result {
        Ok(value) => lemma_exchange(part, state, reply(value)),
        Err(source) => lemma_exchange(part, state, ReplyView::Failed(source)),
    }
}

proof fn lemma_custom<E>(state: SetupState<E>, found: Seq<Result<PathView, E>>, i: int)
    requires
        0 <= i <= state.custom.len(),
        found.len() == state.custom.len(),
        state == state.at_custom(i),
    ensures
        custom_part(state.custom, found, i).leads(
            state,
            SetupState {
                includes: state.includes + picked(state.custom, found, false, i),
                excludes: state.excludes + picked(state.custom, found, true, i),
                stage: StageView::Handler,
                ..state
            },
        ),
    decreases state.custom.len() - i,
{
    let next = SetupState {
        includes: state.includes + picked(state.custom, found, false, i),
        excludes: state.excludes + picked(state.custom, found, true, i),
        stage: StageView::Handler,
        ..state
    };
    if i == state.custom.len() {
        assert(next.includes =~= state.includes);
        assert(next.excludes =~= state.excludes);
        lemma_nothing(state);
    } else {
        let name = named(state.custom[i]);
        let wrap = not_resolved(SubjectView::Named(name));
        let middle = state.step(ReplyView::Resolved(found[i]->Ok_0));
        let first = Part::tried(ActionView::ResolveName(name), found[i], resolved(), wrap);
        lemma_tried(state, found[i], resolved(), wrap, middle);
        if found[i] is Ok {
            lemma_custom(middle, found, i + 1);
            assert(middle.includes + picked(state.custom, found, false, i + 1) =~= next.includes);
            assert(middle.excludes + picked(state.custom, found, true, i + 1) =~= next.excludes);
        }
        lemma_chain(first, custom_part(state.custom, found, i + 1), state, middle, next);
    }
}

proof fn lemma_prepare<E>(
    state: SetupState<E>,
    program: Result<ChildView, E>,
    created: Result<(), E>,
)
    requires
        state.stage is Handler,
    ensures
        prepare_part(state.server, program, created).leads(
            state,
            SetupState { command: Some(program->Ok_0), ..state }.at_exclude(0),
        ),
{
    let handled = state.step(ReplyView::Done);
    let locate = state.at(StageView::Locate);
    let known = SetupState { command: Some(program->Ok_0), ..state };
    let create = known.at(StageView::Create);
    let next = known.at_exclude(0);
    let part1 = Part::<E>::asked(ActionView::InstallHandler, ReplyView::Done);
    lemma_asked(state, ReplyView::Done);
    let part2 = match state.server {
        Some((host, port)) => {
            Part::<E>::asked(ActionView::StartReloadServer(host, port), ReplyView::Done)
        },
        None => Part::<E>::nothing(),
    };
    if state.server is Some {
        lemma_asked(handled, ReplyView::Done);
    } else {
        lemma_nothing(handled);
    }
    lemma_chain(part1, part2, state, handled, locate);
    let no_path = |source: E| WatchErrorView::GetSelfPathFailed { source };
    let part3 = Part::tried(ActionView::LocateSelf, program, located(), no_path);
    lemma_tried(locate, program, located(), no_path, create);
    lemma_chain(part1.then_part(part2), part3, state, locate, create);
    let no_watcher = |source: E| WatchErrorView::WatcherSetupFailed { source };
    let part4 = Part::tried(ActionView::CreateWatcher, created, done(), no_watcher);
    lemma_tried(create, created, done(), no_watcher, next);
    lemma_chain(part1.then_part(part2).then_part(part3), part4, state, create, next);
}

proof fn lemma_cover<E>(
    state: SetupState<E>,
    origin: OriginView,
    tree: Seq<Result<PathView, E>>,
    i: int,
)
    requires
        0 <= i <= tree.len(),
        origin is Exclude,
        state.stage == StageView::<E>::Tree(origin),
    ensures
        cover_part(tree, i).leads(
            state,
            SetupState { excluded: state.excluded + tree_paths(tree, i), ..state }.past(origin),
        ),
    decreases tree.len() - i,
{
    let next = SetupState { excluded: state.excluded + tree_paths(tree, i), ..state }.past(origin);
    if i == tree.len() {
        assert(state.excluded + tree_paths(tree, i) =~= state.excluded);
        lemma_asked(state, ReplyView::Exhausted);
    } else {
        let middle = state.step(ReplyView::Walked(tree[i]->Ok_0));
        let first = Part::tried(ActionView::NextInTree, tree[i], walked(), not_walked());
        lemma_tried(state, tree[i], walked(), not_walked(), middle);
        if tree[i] is Ok {
            lemma_cover(middle, origin, tree, i + 1);
            assert(middle.excluded + tree_paths(tree, i + 1) =~= state.excluded + tree_paths(
                tree,
                i,
            ));
        }
        lemma_chain(first, cover_part(tree, i + 1), state, middle, next);
    }
}

proof fn lemma_covers<E>(state: SetupState<E>, covers: Seq<Cover<E>>, i: int)
    requires
        0 <= i <= covers.len(),
        covers.len() == state.excludes.len(),
        state == state.at_exclude(i),
    ensures
        covers_part(state.excludes, covers, i).leads(
            state,
            SetupState {
                excluded: state.excluded + all_covered(state.excludes, covers, i),
                stage: StageView::List,
                ..state
            },
        ),
    decreases covers.len() - i,
{
    let next = SetupState {
        excluded: state.excluded + all_covered(state.excludes, covers, i),
        stage: StageView::List,
        ..state
    };
    if i == covers.len() {
        assert(next.excluded =~= state.excluded);
        lemma_nothing(state);
    } else {
        let origin = OriginView::Exclude(i);
        let path = state.excludes[i];
        let reply = ReplyView::<E>::Directory(covers[i].is_dir);
        let probed = state.step(reply);
        let middle = SetupState {
            excluded: state.excluded + covered(path, covers[i]),
            ..state
        }.past(origin);
        let part1 = Part::asked(ActionView::Probe(path), reply);
        lemma_asked(state, reply);
        let part2 = if covers[i].is_dir {
            Part::asked(ActionView::OpenTree(path), ReplyView::Done).then_part(
                cover_part(covers[i].tree, 0),
            )
        } else {
            Part::nothing()
        };
        if covers[i].is_dir {
            let tree = state.at(StageView::Tree(origin));
            let opened = Part::<E>::asked(ActionView::OpenTree(path), ReplyView::Done);
            lemma_asked(probed, ReplyView::Done);
            lemma_cover(tree, origin, covers[i].tree, 0);
            lemma_chain(opened, cover_part(covers[i].tree, 0), probed, tree, middle);
        } else {
            assert(middle.excluded =~= state.excluded.push(path));
            lemma_nothing(probed);
        }
        lemma_chain(part1, part2, state, probed, middle);
        lemma_covers(middle, covers, i + 1);
        assert(middle.excluded + all_covered(state.excludes, covers, i + 1) =~= next.excluded);
        lemma_chain(
            part1.then_part(part2),
            covers_part(state.excludes, covers, i + 1),
            state,
            middle,
            next,
        );
    }
}

proof fn lemma_file<E>(
    state: SetupState<E>,
    origin: OriginView,
    in_tree: bool,
    path: PathView,
    added: Result<(), E>,
)
    requires
        origin !is Exclude,
    ensures
        file_part(path, added, state.excluded).leads(
            state.at_file(origin, in_tree, path),
            (if in_tree {
                state.at(StageView::Tree(origin))
            } else {
                state.past(origin)
            }),
        ),
{
    let file = state.at_file(origin, in_tree, path);
    let next = if in_tree {
        state.at(StageView::Tree(origin))
    } else {
        state.past(origin)
    };
    if lists(state.excluded, path) {
        lemma_nothing(file);
    } else {
        let wrap = |source: E|
            WatchErrorView::WatchFileFailed { filename: SubjectView::At(path), source };
        lemma_tried(file, added, done(), wrap, next);
    }
}

proof fn lemma_entry<E>(
    state: SetupState<E>,
    origin: OriginView,
    path: PathView,
    leaf: Leaf<E>,
)
    requires
        origin !is Exclude,
        state.stage == StageView::<E>::Leaf(origin, path),
    ensures
        entry_part(path, leaf, state.excluded).leads(state, state.at(StageView::Tree(origin))),
{
    let next = state.at(StageView::Tree(origin));
    let reply = ReplyView::<E>::Directory(leaf.is_dir);
    let probed = state.step(reply);
    let part1 = Part::asked(ActionView::Probe(path), reply);
    lemma_asked(state, reply);
    let wrap = not_resolved(SubjectView::At(path));
    let full = Part::tried(ActionView::Resolve(path), leaf.full, resolved(), wrap);
    let file = file_part(leaf.full->Ok_0, leaf.added, state.excluded);
    let part2 = if leaf.is_dir {
        Part::nothing()
    } else {
        full.then_part(file)
    };
    if leaf.is_dir {
        lemma_nothing(probed);
    } else {
        let middle = probed.at_file(origin, true, leaf.full->Ok_0);
        lemma_tried(probed, leaf.full, resolved(), wrap, middle);
        lemma_file(probed, origin, true, leaf.full->Ok_0, leaf.added);
        lemma_chain(full, file, probed, middle, next);
    }
    lemma_chain(part1, part2, state, probed, next);
}

proof fn lemma_tree<E>(state: SetupState<E>, origin: OriginView, tree: Seq<Leaf<E>>, i: int)
    requires
        0 <= i <= tree.len(),
        origin !is Exclude,
        state.stage == StageView::<E>::Tree(origin),
    ensures
        tree_part(tree, state.excluded, i).leads(state, state.past(origin)),
    decreases tree.len() - i,
{
    let next = state.past(origin);
    if i == tree.len() {
        lemma_asked(state, ReplyView::Exhausted);
    } else {
        let path = tree[i].entry->Ok_0;
        let found = state.at(StageView::Leaf(origin, path));
        let part1 = Part::tried(ActionView::NextInTree, tree[i].entry, walked(), not_walked());
        let part2 = entry_part(path, tree[i], state.excluded);
        lemma_tried(state, tree[i].entry, walked(), not_walked(), found);
        lemma_entry(found, origin, path, tree[i]);
        lemma_chain(part1, part2, state, found, state);
        lemma_tree(state, origin, tree, i + 1);
        lemma_chain(
            part1.then_part(part2),
            tree_part(tree, state.excluded, i + 1),
            state,
            state,
            next,
        );
    }
}

proof fn lemma_root<E>(
    state: SetupState<E>,
    origin: OriginView,
    path: PathView,
    root: Root<E>,
)
    requires
        origin !is Exclude,
        state.stage == StageView::<E>::Root(origin, path),
    ensures
        root_part(path, root, state.excluded).leads(state, state.past(origin)),
{
    let next = state.past(origin);
    let reply = ReplyView::<E>::Directory(root.is_dir);
    let probed = state.step(reply);
    let part1 = Part::asked(ActionView::Probe(path), reply);
    lemma_asked(state, reply);
    let opened = Part::<E>::asked(ActionView::OpenTree(path), ReplyView::Done);
    let whole = tree_part(root.tree, state.excluded, 0);
    let part2 = if root.is_dir {
        opened.then_part(whole)
    } else {
        file_part(path, root.added, state.excluded)
    };
    if root.is_dir {
        let tree = state.at(StageView::Tree(origin));
        lemma_asked(probed, ReplyView::Done);
        lemma_tree(tree, origin, root.tree, 0);
        lemma_chain(opened, whole, probed, tree, next);
    } else {
        lemma_file(state, origin, false, path, root.added);
    }
    lemma_chain(part1, part2, state, probed, next);
}

proof fn lemma_top<E>(
    state: SetupState<E>,
    name: Seq<char>,
    path: PathView,
    top: Top<E>,
)
    requires
        state.stage is Entries,
    ensures
        top_part(name, path, top, state.passed_over, state.excluded).leads(
            state.step(ReplyView::Entry(name, path)),
            state,
        ),
{
    let read = state.step(ReplyView::Entry(name, path));
    if state.passed_over.contains(name) {
        lemma_nothing(read);
    } else {
        let origin = OriginView::CurrentDir;
        let full = top.full->Ok_0;
        let wrap = not_resolved(SubjectView::At(path));
        let found = state.at(StageView::Root(origin, full));
        lemma_tried(read, top.full, resolved(), wrap, found);
        lemma_root(found, origin, full, top.root);
        lemma_chain(
            Part::tried(ActionView::Resolve(path), top.full, resolved(), wrap),
            root_part(full, top.root, state.excluded),
            read,
            found,
            state,
        );
    }
}

proof fn lemma_tops<E>(state: SetupState<E>, tops: Seq<Top<E>>, i: int)
    requires
        0 <= i <= tops.len(),
        state.stage is Entries,
    ensures
        tops_part(tops, state.passed_over, state.excluded, i).leads(state, state.at_include(0)),
    decreases tops.len() - i,
{
    let next = state.at_include(0);
    if i == tops.len() {
        lemma_asked(state, ReplyView::Exhausted);
    } else {
        let (name, path) = tops[i].entry->Ok_0;
        let read = state.step(ReplyView::Entry(name, path));
        let reply = |entry: (Seq<char>, PathView)| ReplyView::<E>::Entry(entry.0, entry.1);
        let wrap = |source: E| WatchErrorView::ReadDirEntryFailed { source };
        let part1 = Part::tried(ActionView::NextEntry, tops[i].entry, reply, wrap);
        let part2 = top_part(name, path, tops[i], state.passed_over, state.excluded);
        lemma_tried(state, tops[i].entry, reply, wrap, read);
        lemma_top(state, name, path, tops[i]);
        lemma_chain(part1, part2, state, read, state);
        lemma_tops(state, tops, i + 1);
        lemma_chain(
            part1.then_part(part2),
            tops_part(tops, state.passed_over, state.excluded, i + 1),
            state,
            state,
            next,
        );
    }
}

proof fn lemma_roots<E>(state: SetupState<E>, roots: Seq<Root<E>>, i: int)
    requires
        0 <= i <= roots.len(),
        roots.len() == state.includes.len(),
        state == state.at_include(i),
    ensures
        roots_part(state.includes, roots, state.excluded, i).leads(
            state,
            state.at(StageView::Over(Ok(()))),
        ),
    decreases roots.len() - i,
{
    if i == roots.len() {
        lemma_nothing(state);
    } else {
        let origin = OriginView::Include(i);
        let middle = state.past(origin);
        lemma_root(state, origin, state.includes[i], roots[i]);
        lemma_roots(middle, roots, i + 1);
        lemma_chain(
            root_part(state.includes[i], roots[i], state.excluded),
            roots_part(state.includes, roots, state.excluded, i + 1),
            state,
            middle,
            state.at(StageView::Over(Ok(()))),
        );
    }
}

/// A setup goes through the course that the world takes: it asks for exactly those
/// actions, in that order, and ends with the failure of the course, or well if
/// there is none. Then it also knows how to start a copy of the running program.
/// This holds whatever the outside world replies.
pub proof fn setup_follows_the_world<E>(
    custom: Seq<Seq<char>>,
    server: Option<(Seq<char>, u16)>,
    passed_over: Seq<Seq<char>>,
    world: World<E>,
)
    requires
        world.answers(custom),
    ensures
        ({
            let start = initial::<E>(custom, server, passed_over);
            let course = world.course(custom, server, passed_over);
            &&& actions(start, course.replies()) == course.actions()
            &&& after(start, course.replies()).stage == StageView::<E>::Over(
                match course.error {
                    Some(error) => Err(error),
                    None => Ok(()),
                },
            )
            &&& course.error is None ==> after(start, course.replies()).command == Some(
                world.located->Ok_0,
            )
        }),
{
    let start = initial::<E>(custom, server, passed_over);
    let sorted = SetupState {
        includes: start.includes + world.includes(custom),
        excludes: start.excludes + world.excludes(custom),
        stage: StageView::Handler,
        ..start
    };
    assert(sorted.includes =~= world.includes(custom));
    assert(sorted.excludes =~= world.excludes(custom));
    let part1 = custom_part(custom, world.resolved, 0);
    lemma_custom(start, world.resolved, 0);

    let known = SetupState { command: Some(world.located->Ok_0), ..sorted };
    let ready = known.at_exclude(0);
    let part2 = prepare_part(server, world.located, world.created);
    lemma_prepare(sorted, world.located, world.created);
    let upto2 = part1.then_part(part2);
    lemma_chain(part1, part2, start, sorted, ready);

    let listing = SetupState {
        excluded: ready.excluded + world.excluded(custom),
        stage: StageView::List,
        ..ready
    };
    assert(listing.excluded =~= world.excluded(custom));
    let part3 = covers_part(world.excludes(custom), world.covers, 0);
    lemma_covers(ready, world.covers, 0);
    let upto3 = upto2.then_part(part3);
    lemma_chain(upto2, part3, start, ready, listing);

    let entries = listing.at(StageView::Entries);
    let wrap = |source: E| WatchErrorView::ReadCurrentDirFailed { source };
    let part4 = list_part(world.listed);
    lemma_tried(listing, world.listed, done(), wrap, entries);
    let upto4 = upto3.then_part(part4);
    lemma_chain(upto3, part4, start, listing, entries);

    let extra = entries.at_include(0);
    let part5 = tops_part(world.tops, passed_over, world.excluded(custom), 0);
    lemma_tops(entries, world.tops, 0);
    let upto5 = upto4.then_part(part5);
    lemma_chain(upto4, part5, start, entries, extra);

    let part6 = roots_part(world.includes(custom), world.roots, world.excluded(custom), 0);
    lemma_roots(extra, world.roots, 0);
    lemma_chain(upto5, part6, start, extra, extra.at(StageView::Over(Ok(()))));
}

} // verus!
