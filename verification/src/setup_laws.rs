//! What can be relied on of every setup.
use crate::errors::{SubjectView, WatchErrorView};
use crate::path::{lists, PathView};
use crate::setup::{initial, ActionView, ReplyView, SetupState, StageView};
use crate::setup_run::{
    actions, after, cover_part, covers_part, custom_part, entry_part, file_part, list_part,
    not_resolved, not_walked, prepare_part, resolved, root_part, roots_part,
    setup_follows_the_world, top_part, tops_part, tree_part, walked, Cover, Leaf, Part, Root, Top,
    World,
};
use crate::supervise::ChildView;
use vstd::prelude::*;

verus! {

// ---- What is watched when nothing fails ----

/// The full paths of the files of a tree, from its entry `i` on.
pub open spec fn tree_files<E>(tree: Seq<Leaf<E>>, i: int) -> Seq<PathView>
    decreases tree.len() - i,
{
    if i >= tree.len() {
        Seq::empty()
    } else if tree[i].is_dir {
        tree_files(tree, i + 1)
    } else {
        seq![tree[i].full->Ok_0] + tree_files(tree, i + 1)
    }
}

/// The full paths of the files at and below a full path.
pub open spec fn root_files<E>(path: PathView, root: Root<E>) -> Seq<PathView> {
    if root.is_dir {
        tree_files(root.tree, 0)
    } else {
        seq![path]
    }
}

/// The full paths of the files at and below the entries of the current
/// directory that are not passed over, from the entry `i` on.
pub open spec fn tops_files<E>(
    tops: Seq<Top<E>>,
    passed_over: Seq<Seq<char>>,
    i: int,
) -> Seq<PathView>
    decreases tops.len() - i,
{
    if i >= tops.len() {
        Seq::empty()
    } else if passed_over.contains(tops[i].entry->Ok_0.0) {
        tops_files(tops, passed_over, i + 1)
    } else {
        root_files(tops[i].full->Ok_0, tops[i].root) + tops_files(tops, passed_over, i + 1)
    }
}

/// The full paths of the files at and below the extra entries from `i` on.
pub open spec fn roots_files<E>(
    includes: Seq<PathView>,
    roots: Seq<Root<E>>,
    i: int,
) -> Seq<PathView>
    decreases includes.len() - i,
{
    if i >= includes.len() {
        Seq::empty()
    } else {
        root_files(includes[i], roots[i]) + roots_files(includes, roots, i + 1)
    }
}

/// Tells the paths that are not excluded.
pub open spec fn kept(excluded: Seq<PathView>) -> spec_fn(PathView) -> bool {
    |path: PathView| !lists(excluded, path)
}

impl<E> World<E> {
    /// The full paths of all files that are up for being watched: first those of
    /// the current directory, then those of the extra entries.
    pub open spec fn files(
        self,
        custom: Seq<Seq<char>>,
        passed_over: Seq<Seq<char>>,
    ) -> Seq<PathView> {
        tops_files(self.tops, passed_over, 0) + roots_files(
            self.includes(custom),
            self.roots,
            0,
        )
    }
}

/// The paths that are handed to the watcher, in order.
pub open spec fn watched(actions: Seq<ActionView>) -> Seq<PathView>
    decreases actions.len(),
{
    if actions.len() == 0 {
        Seq::empty()
    } else {
        let before = watched(actions.drop_last());
        match actions.last() {
            ActionView::Watch(path) => before.push(path),
            _ => before,
        }
    }
}

proof fn lemma_watched_concat(a: Seq<ActionView>, b: Seq<ActionView>)
    ensures
        watched(a + b) == watched(a) + watched(b),
    decreases b.len(),
{
    if b.len() == 0 {
        assert(a + b =~= a);
        assert(watched(a) + watched(b) =~= watched(a));
    } else {
        assert((a + b).drop_last() =~= a + b.drop_last());
        lemma_watched_concat(a, b.drop_last());
        assert(watched(a + b) =~= watched(a) + watched(b));
    }
}

proof fn lemma_watched_one(action: ActionView)
    ensures
        watched(seq![action]) == (match action {
            ActionView::Watch(path) => seq![path],
            _ => Seq::<PathView>::empty(),
        }),
{
    assert(seq![action].drop_last() =~= Seq::<ActionView>::empty());
    assert(watched(Seq::<ActionView>::empty()) == Seq::<PathView>::empty());
    assert(watched(seq![action]) =~= (match action {
        ActionView::Watch(path) => seq![path],
        _ => Seq::<PathView>::empty(),
    }));
}

/// What two parts watch, one after the other.
proof fn lemma_watched_parts<E>(a: Part<E>, b: Part<E>)
    requires
        a.error is None,
    ensures
        watched(a.then_part(b).actions()) == watched(a.actions()) + watched(b.actions()),
{
    assert(a.then_part(b).actions() =~= a.actions() + b.actions());
    lemma_watched_concat(a.actions(), b.actions());
}

/// A part in which nothing is asked of the watcher, before another one.
proof fn lemma_watched_second<E>(a: Part<E>, b: Part<E>)
    requires
        a.error is None,
        quiet(a),
    ensures
        watched(a.then_part(b).actions()) == watched(b.actions()),
{
    lemma_watched_parts(a, b);
    lemma_quiet(a.actions());
    assert(Seq::<PathView>::empty() + watched(b.actions()) =~= watched(b.actions()));
}

/// Whether nothing is asked of the watcher in a part.
spec fn quiet<E>(part: Part<E>) -> bool {
    forall|k: int| 0 <= k < part.exchanges.len() ==> (#[trigger] part.exchanges[k]).0 !is Watch
}

proof fn lemma_quiet(actions: Seq<ActionView>)
    requires
        forall|k: int| 0 <= k < actions.len() ==> (#[trigger] actions[k]) !is Watch,
    ensures
        watched(actions) == Seq::<PathView>::empty(),
    decreases actions.len(),
{
    if actions.len() > 0 {
        let earlier = actions.drop_last();
        assert forall|k: int| 0 <= k < earlier.len() implies (#[trigger] earlier[k]) !is Watch by {
            assert(actions[k] !is Watch);
        }
        lemma_quiet(earlier);
        assert(actions[actions.len() - 1] !is Watch);
    }
}

proof fn lemma_nothing_kept(excluded: Seq<PathView>)
    ensures
        Seq::<PathView>::empty().filter(kept(excluded)) == Seq::<PathView>::empty(),
{
    reveal(Seq::filter);
}

proof fn lemma_file_kept<E>(
    path: PathView,
    added: Result<(), E>,
    excluded: Seq<PathView>,
)
    requires
        file_part(path, added, excluded).error is None,
    ensures
        watched(file_part(path, added, excluded).actions()) == seq![path].filter(kept(excluded)),
{
    reveal(Seq::filter);
    let part = file_part(path, added, excluded);
    assert(seq![path].drop_last() =~= Seq::<PathView>::empty());
    assert(seq![path].drop_last().filter(kept(excluded)) =~= Seq::<PathView>::empty());
    if lists(excluded, path) {
        lemma_quiet(part.actions());
    } else {
        lemma_watched_one(ActionView::Watch(path));
        assert(part.actions() =~= seq![ActionView::Watch(path)]);
    }
    assert(watched(part.actions()) =~= seq![path].filter(kept(excluded)));
}

proof fn lemma_entry_kept<E>(path: PathView, leaf: Leaf<E>, excluded: Seq<PathView>)
    requires
        entry_part(path, leaf, excluded).error is None,
    ensures
        watched(entry_part(path, leaf, excluded).actions()) == (if leaf.is_dir {
            Seq::empty()
        } else {
            seq![leaf.full->Ok_0].filter(kept(excluded))
        }),
{
    let part = entry_part(path, leaf, excluded);
    if leaf.is_dir {
        lemma_quiet(part.actions());
    } else {
        let full = Part::tried(
            ActionView::Resolve(path),
            leaf.full,
            resolved(),
            not_resolved(SubjectView::At(path)),
        );
        let file = file_part(leaf.full->Ok_0, leaf.added, excluded);
        let probe = Part::<E>::asked(ActionView::Probe(path), ReplyView::Directory(false));
        lemma_watched_second(full, file);
        lemma_watched_second(probe, full.then_part(file));
        lemma_file_kept(leaf.full->Ok_0, leaf.added, excluded);
    }
}

proof fn lemma_tree_kept<E>(tree: Seq<Leaf<E>>, excluded: Seq<PathView>, i: int)
    requires
        0 <= i <= tree.len(),
        tree_part(tree, excluded, i).error is None,
    ensures
        watched(tree_part(tree, excluded, i).actions()) == tree_files(tree, i).filter(
            kept(excluded),
        ),
    decreases tree.len() - i,
{
    lemma_nothing_kept(excluded);
    if i == tree.len() {
        lemma_quiet(tree_part(tree, excluded, i).actions());
    } else {
        let path = tree[i].entry->Ok_0;
        let read = Part::tried(ActionView::NextInTree, tree[i].entry, walked(), not_walked());
        let entry = entry_part(path, tree[i], excluded);
        let rest = tree_part(tree, excluded, i + 1);
        lemma_watched_second(read, entry);
        lemma_watched_parts(read.then_part(entry), rest);
        lemma_entry_kept(path, tree[i], excluded);
        lemma_tree_kept(tree, excluded, i + 1);
        if tree[i].is_dir {
            assert(Seq::<PathView>::empty() + watched(rest.actions()) =~= watched(
                rest.actions(),
            ));
        } else {
            Seq::filter_distributes_over_add(
                seq![tree[i].full->Ok_0],
                tree_files(tree, i + 1),
                kept(excluded),
            );
        }
    }
}

proof fn lemma_root_kept<E>(path: PathView, root: Root<E>, excluded: Seq<PathView>)
    requires
        root_part(path, root, excluded).error is None,
    ensures
        watched(root_part(path, root, excluded).actions()) == root_files(path, root).filter(
            kept(excluded),
        ),
{
    let probe = Part::<E>::asked(ActionView::Probe(path), ReplyView::Directory(root.is_dir));
    if root.is_dir {
        let open = Part::<E>::asked(ActionView::OpenTree(path), ReplyView::Done);
        let tree = tree_part(root.tree, excluded, 0);
        lemma_watched_second(open, tree);
        lemma_watched_second(probe, open.then_part(tree));
        lemma_tree_kept(root.tree, excluded, 0);
    } else {
        let file = file_part(path, root.added, excluded);
        lemma_watched_second(probe, file);
        lemma_file_kept(path, root.added, excluded);
    }
}

proof fn lemma_top_kept<E>(
    name: Seq<char>,
    path: PathView,
    top: Top<E>,
    passed_over: Seq<Seq<char>>,
    excluded: Seq<PathView>,
)
    requires
        top_part(name, path, top, passed_over, excluded).error is None,
    ensures
        watched(top_part(name, path, top, passed_over, excluded).actions()) == (
        if passed_over.contains(name) {
            Seq::empty()
        } else {
            root_files(top.full->Ok_0, top.root).filter(kept(excluded))
        }),
{
    if passed_over.contains(name) {
        lemma_quiet(top_part(name, path, top, passed_over, excluded).actions());
    } else {
        let full = Part::tried(
            ActionView::Resolve(path),
            top.full,
            resolved(),
            not_resolved(SubjectView::At(path)),
        );
        lemma_watched_second(full, root_part(top.full->Ok_0, top.root, excluded));
        lemma_root_kept(top.full->Ok_0, top.root, excluded);
    }
}

proof fn lemma_tops_kept<E>(
    tops: Seq<Top<E>>,
    passed_over: Seq<Seq<char>>,
    excluded: Seq<PathView>,
    i: int,
)
    requires
        0 <= i <= tops.len(),
        tops_part(tops, passed_over, excluded, i).error is None,
    ensures
        watched(tops_part(tops, passed_over, excluded, i).actions()) == tops_files(
            tops,
            passed_over,
            i,
        ).filter(kept(excluded)),
    decreases tops.len() - i,
{
    lemma_nothing_kept(excluded);
    if i == tops.len() {
        lemma_quiet(tops_part(tops, passed_over, excluded, i).actions());
    } else {
        let (name, path) = tops[i].entry->Ok_0;
        let read = Part::tried(
            ActionView::NextEntry,
            tops[i].entry,
            |entry: (Seq<char>, PathView)| ReplyView::<E>::Entry(entry.0, entry.1),
            |source: E| WatchErrorView::ReadDirEntryFailed { source },
        );
        let top = top_part(name, path, tops[i], passed_over, excluded);
        let rest = tops_part(tops, passed_over, excluded, i + 1);
        assert(tops_part(tops, passed_over, excluded, i) == read.then_part(top).then_part(rest));
        lemma_watched_second(read, top);
        lemma_watched_parts(read.then_part(top), rest);
        lemma_top_kept(name, path, tops[i], passed_over, excluded);
        lemma_tops_kept(tops, passed_over, excluded, i + 1);
        if passed_over.contains(name) {
            assert(Seq::<PathView>::empty() + watched(rest.actions()) =~= watched(
                rest.actions(),
            ));
        } else {
            Seq::filter_distributes_over_add(
                root_files(tops[i].full->Ok_0, tops[i].root),
                tops_files(tops, passed_over, i + 1),
                kept(excluded),
            );
        }
    }
}

proof fn lemma_roots_kept<E>(
    includes: Seq<PathView>,
    roots: Seq<Root<E>>,
    excluded: Seq<PathView>,
    i: int,
)
    requires
        0 <= i <= includes.len(),
        roots_part(includes, roots, excluded, i).error is None,
    ensures
        watched(roots_part(includes, roots, excluded, i).actions()) == roots_files(
            includes,
            roots,
            i,
        ).filter(kept(excluded)),
    decreases includes.len() - i,
{
    lemma_nothing_kept(excluded);
    if i == includes.len() {
        lemma_quiet(roots_part(includes, roots, excluded, i).actions());
    } else {
        let root = root_part(includes[i], roots[i], excluded);
        let rest = roots_part(includes, roots, excluded, i + 1);
        lemma_watched_parts(root, rest);
        lemma_root_kept(includes[i], roots[i], excluded);
        lemma_roots_kept(includes, roots, excluded, i + 1);
        Seq::filter_distributes_over_add(
            root_files(includes[i], roots[i]),
            roots_files(includes, roots, i + 1),
            kept(excluded),
        );
    }
}

proof fn lemma_custom_is_quiet<E>(
    custom: Seq<Seq<char>>,
    found: Seq<Result<PathView, E>>,
    i: int,
)
    ensures
        quiet(custom_part(custom, found, i)),
    decreases custom.len() - i,
{
    if i < custom.len() {
        lemma_custom_is_quiet(custom, found, i + 1);
    }
}

proof fn lemma_cover_is_quiet<E>(tree: Seq<Result<PathView, E>>, i: int)
    ensures
        quiet(cover_part(tree, i)),
    decreases tree.len() - i,
{
    if i < tree.len() {
        lemma_cover_is_quiet(tree, i + 1);
    }
}

proof fn lemma_covers_are_quiet<E>(
    excludes: Seq<PathView>,
    covers: Seq<Cover<E>>,
    i: int,
)
    ensures
        quiet(covers_part(excludes, covers, i)),
    decreases excludes.len() - i,
{
    if i < excludes.len() {
        lemma_cover_is_quiet(covers[i].tree, 0);
        lemma_covers_are_quiet(excludes, covers, i + 1);
    }
}

/// A setup that ends well has handed every file to the watcher that is not
/// excluded, and nothing else: the files at and below the entries of the current
/// directory that are not passed over, and those at and below the extra entries.
/// No directory is among them.
pub proof fn watches_every_file_that_is_not_excluded<E>(
    custom: Seq<Seq<char>>,
    server: Option<(Seq<char>, u16)>,
    passed_over: Seq<Seq<char>>,
    world: World<E>,
)
    requires
        world.answers(custom),
        after(
            initial::<E>(custom, server, passed_over),
            world.course(custom, server, passed_over).replies(),
        ).stage == StageView::<E>::Over(Ok(())),
    ensures
        watched(
            actions(
                initial::<E>(custom, server, passed_over),
                world.course(custom, server, passed_over).replies(),
            ),
        ) == world.files(custom, passed_over).filter(kept(world.excluded(custom))),
{
    setup_follows_the_world(custom, server, passed_over, world);
    let excluded = world.excluded(custom);
    let part1 = custom_part(custom, world.resolved, 0);
    let part2 = prepare_part(server, world.located, world.created);
    let part3 = covers_part(world.excludes(custom), world.covers, 0);
    let part4 = list_part(world.listed);
    let part5 = tops_part(world.tops, passed_over, excluded, 0);
    let part6 = roots_part(world.includes(custom), world.roots, excluded, 0);
    let before = part1.then_part(part2).then_part(part3).then_part(part4);
    lemma_custom_is_quiet(custom, world.resolved, 0);
    lemma_covers_are_quiet(world.excludes(custom), world.covers, 0);
    assert(quiet(part1.then_part(part2)));
    assert(quiet(part1.then_part(part2).then_part(part3)));
    assert(quiet(before));
    lemma_watched_second(before, part5);
    lemma_watched_parts(before.then_part(part5), part6);
    lemma_tops_kept(world.tops, passed_over, excluded, 0);
    lemma_roots_kept(world.includes(custom), world.roots, excluded, 0);
    Seq::filter_distributes_over_add(
        tops_files(world.tops, passed_over, 0),
        roots_files(world.includes(custom), world.roots, 0),
        kept(excluded),
    );
}

// ---- What is never watched, also when something fails ----

/// Whether nothing excluded is handed to the watcher in a part.
spec fn safe<E>(part: Part<E>, excluded: Seq<PathView>) -> bool {
    forall|k: int|
        0 <= k < part.exchanges.len() ==> ((#[trigger] part.exchanges[k]).0
            matches ActionView::Watch(path) ==> !lists(excluded, path))
}

proof fn lemma_tree_is_safe<E>(tree: Seq<Leaf<E>>, excluded: Seq<PathView>, i: int)
    ensures
        safe(tree_part(tree, excluded, i), excluded),
    decreases tree.len() - i,
{
    if i < tree.len() {
        let path = tree[i].entry->Ok_0;
        let read = Part::tried(ActionView::NextInTree, tree[i].entry, walked(), not_walked());
        assert(safe(entry_part(path, tree[i], excluded), excluded));
        assert(safe(read.then_part(entry_part(path, tree[i], excluded)), excluded));
        lemma_tree_is_safe(tree, excluded, i + 1);
    }
}

proof fn lemma_root_is_safe<E>(path: PathView, root: Root<E>, excluded: Seq<PathView>)
    ensures
        safe(root_part(path, root, excluded), excluded),
{
    lemma_tree_is_safe(root.tree, excluded, 0);
}

proof fn lemma_tops_are_safe<E>(
    tops: Seq<Top<E>>,
    passed_over: Seq<Seq<char>>,
    excluded: Seq<PathView>,
    i: int,
)
    ensures
        safe(tops_part(tops, passed_over, excluded, i), excluded),
    decreases tops.len() - i,
{
    if i < tops.len() {
        let (name, path) = tops[i].entry->Ok_0;
        lemma_root_is_safe(tops[i].full->Ok_0, tops[i].root, excluded);
        assert(safe(top_part(name, path, tops[i], passed_over, excluded), excluded));
        lemma_tops_are_safe(tops, passed_over, excluded, i + 1);
    }
}

proof fn lemma_roots_are_safe<E>(
    includes: Seq<PathView>,
    roots: Seq<Root<E>>,
    excluded: Seq<PathView>,
    i: int,
)
    ensures
        safe(roots_part(includes, roots, excluded, i), excluded),
    decreases includes.len() - i,
{
    if i < includes.len() {
        lemma_root_is_safe(includes[i], roots[i], excluded);
        lemma_roots_are_safe(includes, roots, excluded, i + 1);
    }
}

/// What an exclusion covers is never handed to the watcher, however the setup
/// ends: the path that it names or, if that is a directory, everything that its
/// tree was found to hold.
pub proof fn what_is_covered_is_never_watched<E>(
    custom: Seq<Seq<char>>,
    server: Option<(Seq<char>, u16)>,
    passed_over: Seq<Seq<char>>,
    world: World<E>,
    k: int,
    path: PathView,
)
    requires
        world.answers(custom),
        ({
            let start = initial::<E>(custom, server, passed_over);
            let asked = actions(start, world.course(custom, server, passed_over).replies());
            0 <= k < asked.len() && asked[k] == ActionView::Watch(path)
        }),
    ensures
        !lists(world.excluded(custom), path),
{
    setup_follows_the_world(custom, server, passed_over, world);
    let excluded = world.excluded(custom);
    let course = world.course(custom, server, passed_over);
    let part1 = custom_part(custom, world.resolved, 0);
    let part2 = prepare_part(server, world.located, world.created);
    let part3 = covers_part(world.excludes(custom), world.covers, 0);
    let part4 = list_part(world.listed);
    let part5 = tops_part(world.tops, passed_over, excluded, 0);
    let before = part1.then_part(part2).then_part(part3).then_part(part4);
    lemma_custom_is_quiet(custom, world.resolved, 0);
    lemma_covers_are_quiet(world.excludes(custom), world.covers, 0);
    assert(quiet(part1.then_part(part2)));
    assert(quiet(part1.then_part(part2).then_part(part3)));
    assert(quiet(before));
    lemma_tops_are_safe(world.tops, passed_over, excluded, 0);
    lemma_roots_are_safe(world.includes(custom), world.roots, excluded, 0);
    assert(safe(before.then_part(part5), excluded));
    assert(safe(course, excluded));
    assert(course.exchanges[k].0 == ActionView::Watch(path));
}

// ---- What holds after any replies at all ----

/// Whether the exclusions are settled at a stage.
spec fn settled<E>(stage: StageView<E>) -> bool {
    match stage {
        StageView::Root(origin, _) => origin !is Exclude,
        StageView::Open(origin, _) => origin !is Exclude,
        StageView::Tree(origin) => origin !is Exclude,
        StageView::Leaf(_, _) => true,
        StageView::Full(_, _) => true,
        StageView::Watch(_, _, _) => true,
        StageView::List => true,
        StageView::Entries => true,
        StageView::Entry(_) => true,
        StageView::Over(_) => true,
        _ => false,
    }
}

/// What holds at every stage of a setup.
spec fn sound<E>(state: SetupState<E>) -> bool {
    match state.stage {
        StageView::Leaf(origin, _) => origin !is Exclude,
        StageView::Full(origin, _) => origin !is Exclude,
        StageView::Watch(origin, _, path) => origin !is Exclude && !lists(state.excluded, path),
        _ => true,
    }
}

proof fn lemma_sound<E>(state: SetupState<E>, replies: Seq<ReplyView<E>>)
    requires
        sound(state),
    ensures
        sound(after(state, replies)),
    decreases replies.len(),
{
    if replies.len() > 0 {
        lemma_sound(state, replies.drop_last());
    }
}

proof fn lemma_settled<E>(state: SetupState<E>, replies: Seq<ReplyView<E>>)
    requires
        sound(state),
        settled(state.stage),
    ensures
        settled(after(state, replies).stage),
        after(state, replies).excluded == state.excluded,
    decreases replies.len(),
{
    if replies.len() > 0 {
        lemma_settled(state, replies.drop_last());
        lemma_sound(state, replies.drop_last());
    }
}

/// A path that is handed to the watcher is never among the excluded paths: not
/// at that moment, and not later, since no exclusion is added once watching has
/// begun. This holds after any replies at all.
pub proof fn never_watches_what_is_excluded<E>(
    custom: Seq<Seq<char>>,
    server: Option<(Seq<char>, u16)>,
    passed_over: Seq<Seq<char>>,
    before: Seq<ReplyView<E>>,
    later: Seq<ReplyView<E>>,
    path: PathView,
)
    requires
        after(initial::<E>(custom, server, passed_over), before).action() == ActionView::Watch(
            path,
        ),
    ensures
        !lists(
            after(after(initial::<E>(custom, server, passed_over), before), later).excluded,
            path,
        ),
{
    let start = initial::<E>(custom, server, passed_over);
    lemma_sound(start, before);
    lemma_settled(after(start, before), later);
}

/// Whether a stage comes after the handler for termination signals.
spec fn past_handler<E>(stage: StageView<E>) -> bool {
    match stage {
        StageView::Custom(_) => false,
        StageView::Handler => false,
        StageView::Over(
            Err(WatchErrorView::WatchFileNotResolved { filename: SubjectView::Named(_), .. }),
        ) => false,
        _ => true,
    }
}

/// The handler for termination signals is installed before anything is started
/// that would be left behind: whenever the setup asks for the server, the
/// watcher or a watched file, or has ended well, so that the copy of the program
/// is started, it has asked for the handler before, and that was done.
pub proof fn handler_comes_first<E>(
    custom: Seq<Seq<char>>,
    server: Option<(Seq<char>, u16)>,
    passed_over: Seq<Seq<char>>,
    replies: Seq<ReplyView<E>>,
)
    requires
        ({
            let state = after(initial::<E>(custom, server, passed_over), replies);
            let action = state.action();
            ||| action is StartReloadServer
            ||| action is CreateWatcher
            ||| action is Watch
            ||| state.stage == StageView::<E>::Over(Ok(()))
        }),
    ensures
        exists|k: int|
            #![trigger replies[k]]
            0 <= k < replies.len() && replies[k] is Done && after(
                initial::<E>(custom, server, passed_over),
                replies.take(k),
            ).action() is InstallHandler,
{
    lemma_past_handler(initial::<E>(custom, server, passed_over), replies);
}

proof fn lemma_past_handler<E>(start: SetupState<E>, replies: Seq<ReplyView<E>>)
    requires
        !past_handler(start.stage),
        past_handler(after(start, replies).stage),
    ensures
        exists|k: int|
            #![trigger replies[k]]
            0 <= k < replies.len() && replies[k] is Done && after(
                start,
                replies.take(k),
            ).action() is InstallHandler,
    decreases replies.len(),
{
    let earlier = replies.drop_last();
    let last = replies.len() - 1;
    if past_handler(after(start, earlier).stage) {
        lemma_past_handler(start, earlier);
        let k = choose|k: int|
            #![trigger earlier[k]]
            0 <= k < earlier.len() && earlier[k] is Done && after(
                start,
                earlier.take(k),
            ).action() is InstallHandler;
        assert(replies.take(k) =~= earlier.take(k));
        assert(replies[k] is Done);
    } else {
        assert(replies.take(last) =~= earlier);
        assert(replies[last] is Done);
    }
}

/// Whether a stage comes after the running program was found.
spec fn past_locate<E>(stage: StageView<E>) -> bool {
    match stage {
        StageView::Custom(_) => false,
        StageView::Handler => false,
        StageView::Server(_, _) => false,
        StageView::Locate => false,
        StageView::Over(Err(_)) => false,
        _ => true,
    }
}

/// Whether `command` is what was replied when the setup asked for the running
/// program.
pub open spec fn located_by<E>(
    start: SetupState<E>,
    replies: Seq<ReplyView<E>>,
    command: ChildView,
) -> bool {
    exists|k: int|
        #![trigger replies[k]]
        0 <= k < replies.len() && replies[k] == ReplyView::<E>::Located(command) && after(
            start,
            replies.take(k),
        ).action() is LocateSelf
}

/// A setup that ends well, whatever is replied, knows the command that was replied
/// when it asked for the running program.
pub proof fn knows_the_program_that_was_found<E>(
    custom: Seq<Seq<char>>,
    server: Option<(Seq<char>, u16)>,
    passed_over: Seq<Seq<char>>,
    replies: Seq<ReplyView<E>>,
)
    requires
        after(initial::<E>(custom, server, passed_over), replies).stage == StageView::<E>::Over(
            Ok(()),
        ),
    ensures
        ({
            let start = initial::<E>(custom, server, passed_over);
            after(start, replies).command matches Some(command) && located_by(
                start,
                replies,
                command,
            )
        }),
{
    lemma_located(initial::<E>(custom, server, passed_over), replies);
}

proof fn lemma_located<E>(start: SetupState<E>, replies: Seq<ReplyView<E>>)
    requires
        start.command is None,
        !past_locate(start.stage),
    ensures
        past_locate(after(start, replies).stage) ==> after(start, replies).command is Some,
        after(start, replies).command matches Some(command) ==> located_by(
            start,
            replies,
            command,
        ),
    decreases replies.len(),
{
    if replies.len() > 0 {
        let earlier = replies.drop_last();
        let last = replies.len() - 1;
        lemma_located(start, earlier);
        if after(start, replies).command is Some {
            let command = after(start, replies).command->0;
            if after(start, earlier).command == Some(command) {
                let k = choose|k: int|
                    #![trigger earlier[k]]
                    0 <= k < earlier.len() && earlier[k] == ReplyView::<E>::Located(command)
                        && after(start, earlier.take(k)).action() is LocateSelf;
                assert(replies.take(k) =~= earlier.take(k));
                assert(replies[k] == earlier[k]);
            } else {
                assert(replies.take(last) =~= earlier);
                assert(replies[last] == ReplyView::<E>::Located(command));
            }
        }
    }
}

proof fn lemma_server_wanted<E>(start: SetupState<E>, replies: Seq<ReplyView<E>>)
    requires
        start.stage !is Server,
    ensures
        after(start, replies).server == start.server,
        after(start, replies).stage matches StageView::Server(host, port) ==> start.server == Some(
            (host, port),
        ),
    decreases replies.len(),
{
    if replies.len() > 0 {
        lemma_server_wanted(start, replies.drop_last());
    }
}

/// The browser-reloading server is only ever started where it is wanted, and
/// then at the host and port that were asked for.
pub proof fn starts_only_the_server_that_is_wanted<E>(
    custom: Seq<Seq<char>>,
    server: Option<(Seq<char>, u16)>,
    passed_over: Seq<Seq<char>>,
    replies: Seq<ReplyView<E>>,
    host: Seq<char>,
    port: u16,
)
    requires
        after(
            initial::<E>(custom, server, passed_over),
            replies,
        ).action() == ActionView::StartReloadServer(host, port),
    ensures
        server == Some((host, port)),
{
    lemma_server_wanted(initial::<E>(custom, server, passed_over), replies);
}

} // verus!
