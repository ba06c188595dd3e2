//! What can be relied on of the choice of files that a setup makes: which are
//! watched, and which are left out.
use crate::errors::{SubjectView, WatchErrorView};
use crate::path::{lists, PathView};
use crate::setup::{
    excluding, initial, named, ActionView, OriginView, ReplyView, SetupState, StageView,
};
use crate::setup_laws::{
    kept, root_files, roots_files, tops_files, tree_files, watched,
    watches_every_file_that_is_not_excluded,
};
use crate::setup_run::{
    actions, after, all_covered, covered, picked, tree_paths, Cover, Leaf, Root, Top, World,
};
use crate::supervise::ChildView;
use vstd::prelude::*;

verus! {

// ---- The mark of an exclusion ----

/// A custom entry excludes exactly if it begins with the mark. Then it names all
/// that follows the first mark, be that nothing or another mark, and otherwise it
/// names all of itself.
pub proof fn the_first_mark_excludes(rest: Seq<char>, text: Seq<char>)
    ensures
        excluding(seq!['!'] + rest),
        named(seq!['!'] + rest) == rest,
        text.len() == 0 || text[0] != '!' ==> !excluding(text) && named(text) == text,
{
    assert((seq!['!'] + rest)[0] == '!');
    assert((seq!['!'] + rest).skip(1) =~= rest);
}

// ---- One file ----

/// A file is watched if it differs from every excluded path, in the number of
/// components or in any one of them: one that was found in a tree, once its full
/// path is known, and one that stands by itself, once it is known not to be a
/// directory.
pub proof fn watches_what_differs_from_every_exclusion<E>(
    state: SetupState<E>,
    origin: OriginView,
    entry: PathView,
    file: PathView,
)
    requires
        origin !is Exclude,
        forall|k: int|
            0 <= k < state.excluded.len() ==> {
                ||| (#[trigger] state.excluded[k]).components.len() != file.components.len()
                ||| exists|i: int|
                    0 <= i < file.components.len() && state.excluded[k].components[i]
                        != #[trigger] file.components[i]
            },
    ensures
        state.at(StageView::Full(origin, entry)).step(ReplyView::Resolved(file)).action()
            == ActionView::Watch(file),
        state.at(StageView::Full(origin, entry)).step(ReplyView::Resolved(file)).stage
            == StageView::<E>::Watch(origin, true, file),
        state.at(StageView::Root(origin, file)).step(ReplyView::Directory(false)).action()
            == ActionView::Watch(file),
        state.at(StageView::Root(origin, file)).step(ReplyView::Directory(false)).stage
            == StageView::<E>::Watch(origin, false, file),
{
    if lists(state.excluded, file) {
        let k = choose|k: int|
            0 <= k < state.excluded.len() && (#[trigger] state.excluded[k]).same(file);
        assert(state.excluded[k].components == file.components);
    }
}

/// With a single exclusion, every file is watched whose path differs from it in the
/// number of components, or in any one component.
pub proof fn one_exclusion_leaves_out_one_path<E>(
    state: SetupState<E>,
    origin: OriginView,
    entry: PathView,
    excluded: PathView,
    file: PathView,
    i: int,
)
    requires
        origin !is Exclude,
        state.excluded == seq![excluded],
        excluded.components.len() != file.components.len() || (0 <= i < file.components.len()
            && excluded.components[i] != file.components[i]),
    ensures
        state.at(StageView::Full(origin, entry)).step(ReplyView::Resolved(file)).action()
            == ActionView::Watch(file),
        state.at(StageView::Root(origin, file)).step(ReplyView::Directory(false)).action()
            == ActionView::Watch(file),
{
    assert(forall|k: int|
        0 <= k < state.excluded.len() ==> #[trigger] state.excluded[k] == excluded);
    watches_what_differs_from_every_exclusion(state, origin, entry, file);
}

/// A file is not watched if it agrees with an excluded path in the number of
/// components and in each of them, however the two are spelled. The setup goes on
/// with the next entry of the tree, or with what follows the file.
pub proof fn leaves_out_what_agrees_with_an_exclusion<E>(
    state: SetupState<E>,
    origin: OriginView,
    entry: PathView,
    file: PathView,
    k: int,
)
    requires
        origin !is Exclude,
        0 <= k < state.excluded.len(),
        state.excluded[k].components.len() == file.components.len(),
        forall|i: int|
            0 <= i < file.components.len() ==> #[trigger] state.excluded[k].components[i]
                == file.components[i],
    ensures
        state.at(StageView::Full(origin, entry)).step(ReplyView::Resolved(file)).action()
            == ActionView::NextInTree,
        state.at(StageView::Full(origin, entry)).step(ReplyView::Resolved(file)).stage
            == StageView::<E>::Tree(origin),
        state.at(StageView::Root(origin, file)).step(ReplyView::Directory(false)).action()
            == next_after(state, origin),
        state.at(StageView::Root(origin, file)).step(ReplyView::Directory(false)).stage
            == stage_after(state, origin),
{
    assert(state.excluded[k].components =~= file.components);
    assert(state.excluded[k].same(file));
}

// ---- One exchange ----

/// What is asked once a path of this origin is done with: about the next exclusion,
/// for the next entry of the current directory, or about the next extra entry. After
/// the last exclusion the current directory is listed, and after the last extra
/// entry nothing more is asked.
pub open spec fn next_after<E>(state: SetupState<E>, origin: OriginView) -> ActionView {
    match origin {
        OriginView::Exclude(i) => if i + 1 < state.excludes.len() {
            ActionView::Probe(state.excludes[i + 1])
        } else {
            ActionView::ListCurrentDir
        },
        OriginView::CurrentDir => ActionView::NextEntry,
        OriginView::Include(i) => if i + 1 < state.includes.len() {
            ActionView::Probe(state.includes[i + 1])
        } else {
            ActionView::Stop
        },
    }
}

/// How far a setup has come once a path of this origin is done with. What was an
/// exclusion is followed by an exclusion, and what was an extra entry by an extra
/// entry, as long as there are any.
pub open spec fn stage_after<E>(state: SetupState<E>, origin: OriginView) -> StageView<E> {
    match origin {
        OriginView::Exclude(i) => if i + 1 < state.excludes.len() {
            StageView::Root(OriginView::Exclude(i + 1), state.excludes[i + 1])
        } else {
            StageView::List
        },
        OriginView::CurrentDir => StageView::Entries,
        OriginView::Include(i) => if i + 1 < state.includes.len() {
            StageView::Root(OriginView::Include(i + 1), state.includes[i + 1])
        } else {
            StageView::Over(Ok(()))
        },
    }
}

/// Custom entries are resolved one after the other, without the mark. The full path
/// of one with a mark is kept as an exclusion, that of any other as an extra entry,
/// behind those before. Then the handler is installed.
pub proof fn sorts_the_custom_entries<E>(
    state: SetupState<E>,
    i: int,
    path: PathView,
    rest: Seq<char>,
)
    requires
        0 <= i < state.custom.len(),
        state.stage == StageView::<E>::Custom(i),
    ensures
        ({
            let next = state.step(ReplyView::Resolved(path));
            let marked = state.custom[i].len() > 0 && state.custom[i][0] == '!';
            &&& state.custom[i] == seq!['!'] + rest ==> state.action() == ActionView::ResolveName(
                rest,
            )
            &&& !marked ==> state.action() == ActionView::ResolveName(state.custom[i])
            &&& marked ==> next.excludes == state.excludes.push(path) && next.includes
                == state.includes
            &&& !marked ==> next.includes == state.includes.push(path) && next.excludes
                == state.excludes
            &&& i + 1 < state.custom.len() ==> next.stage == StageView::<E>::Custom(i + 1)
            &&& i + 1 == state.custom.len() ==> next.action() == ActionView::InstallHandler
        }),
{
    the_first_mark_excludes(rest, state.custom[i]);
}

/// After the handler the server is started, where one is wanted and as it is wanted,
/// then the running program is found, then the watcher is created. Then the first
/// exclusion is looked at or, if there is none, the current directory is listed.
pub proof fn prepares_in_order<E>(state: SetupState<E>, command: ChildView)
    ensures
        state.action() is InstallHandler ==> state.step(ReplyView::Done).action() == (
        match state.server {
            Some((host, port)) => ActionView::StartReloadServer(host, port),
            None => ActionView::LocateSelf,
        }),
        state.action() is StartReloadServer ==> state.step(ReplyView::Done).action()
            == ActionView::LocateSelf,
        state.action() is LocateSelf ==> {
            &&& state.step(ReplyView::Located(command)).action() == ActionView::CreateWatcher
            &&& state.step(ReplyView::Located(command)).command == Some(command)
        },
        state.action() is CreateWatcher ==> {
            &&& state.step(ReplyView::Done).action() == next_after(state, OriginView::Exclude(-1))
            &&& state.step(ReplyView::Done).stage == stage_after(state, OriginView::Exclude(-1))
        },
        state.action() is ListCurrentDir ==> state.step(ReplyView::Done).action()
            == ActionView::NextEntry,
{
}

/// An entry of the current directory is resolved, and then looked at, unless its
/// name is among those to pass over: then the next one is read. After the last of
/// them come the extra entries or, if there are none, the end.
pub proof fn passes_over_the_names_given<E>(
    state: SetupState<E>,
    name: Seq<char>,
    path: PathView,
    full: PathView,
)
    requires
        state.action() is NextEntry,
    ensures
        (exists|i: int|
            0 <= i < state.passed_over.len() && #[trigger] state.passed_over[i] == name)
            ==> state.step(ReplyView::Entry(name, path)) == state,
        (forall|i: int|
            0 <= i < state.passed_over.len() ==> #[trigger] state.passed_over[i] != name) ==> {
            &&& state.step(ReplyView::Entry(name, path)).action() == ActionView::Resolve(path)
            &&& state.step(ReplyView::Entry(name, path)).stage == StageView::<E>::Entry(path)
            &&& state.step(ReplyView::Entry(name, path)).step(
                ReplyView::Resolved(full),
            ).stage == StageView::<E>::Root(OriginView::CurrentDir, full)
        },
        state.step(ReplyView::Exhausted).action() == next_after(state, OriginView::Include(-1)),
        state.step(ReplyView::Exhausted).stage == stage_after(state, OriginView::Include(-1)),
{
}

/// A directory is opened and read to its end. Of an exclusion, every entry that is
/// read counts as excluded from then on; an exclusion that is no directory counts as
/// excluded itself. Of anything else, every entry is looked at: a directory is
/// passed over, since what lies in it comes by itself, and a file is resolved.
pub proof fn walks_every_tree_to_its_end<E>(
    state: SetupState<E>,
    origin: OriginView,
    path: PathView,
)
    ensures
        ({
            let root = state.at(StageView::Root(origin, path));
            let opened = root.step(ReplyView::Directory(true));
            let tree = opened.step(ReplyView::Done);
            let read = tree.step(ReplyView::Walked(path));
            &&& root.action() == ActionView::Probe(path)
            &&& opened.action() == ActionView::OpenTree(path)
            &&& opened.excluded == state.excluded
            &&& opened.stage == StageView::<E>::Open(origin, path)
            &&& tree.action() == ActionView::NextInTree
            &&& tree.stage == StageView::<E>::Tree(origin)
            &&& tree.step(ReplyView::Exhausted).action() == next_after(state, origin)
            &&& tree.step(ReplyView::Exhausted).stage == stage_after(state, origin)
            &&& tree.step(ReplyView::Exhausted).excluded == state.excluded
            &&& origin is Exclude ==> {
                &&& read.excluded == state.excluded.push(path)
                &&& read.action() == ActionView::NextInTree
                &&& read.stage == StageView::<E>::Tree(origin)
                &&& root.step(ReplyView::Directory(false)).excluded == state.excluded.push(path)
                &&& root.step(ReplyView::Directory(false)).action() == next_after(state, origin)
                &&& root.step(ReplyView::Directory(false)).stage == stage_after(state, origin)
            }
            &&& origin !is Exclude ==> {
                &&& read.excluded == state.excluded
                &&& read.action() == ActionView::Probe(path)
                &&& read.stage == StageView::<E>::Leaf(origin, path)
                &&& read.step(ReplyView::Directory(true)).action() == ActionView::NextInTree
                &&& read.step(ReplyView::Directory(true)).stage == StageView::<E>::Tree(origin)
                &&& read.step(ReplyView::Directory(false)).action() == ActionView::Resolve(path)
                &&& read.step(ReplyView::Directory(false)).stage == StageView::<E>::Full(
                    origin,
                    path,
                )
            }
        }),
{
}

/// A file that was handed to the watcher is followed by the next entry of its tree
/// or, if it stood by itself, by what comes after it.
pub proof fn goes_on_after_a_watched_file<E>(
    state: SetupState<E>,
    origin: OriginView,
    file: PathView,
)
    ensures
        state.at(StageView::Watch(origin, true, file)).step(ReplyView::Done).action()
            == ActionView::NextInTree,
        state.at(StageView::Watch(origin, true, file)).step(ReplyView::Done).stage
            == StageView::<E>::Tree(origin),
        state.at(StageView::Watch(origin, false, file)).step(ReplyView::Done).action()
            == next_after(state, origin),
        state.at(StageView::Watch(origin, false, file)).step(ReplyView::Done).stage
            == stage_after(state, origin),
{
}

/// A failure ends the setup with an error that tells what was tried, which file it
/// was about where it was about one, and what was reported. Nothing else that is
/// asked for can fail.
pub proof fn failures_tell_what_was_tried<E>(state: SetupState<E>, source: E)
    ensures
        ({
            let next = state.step(ReplyView::Failed(source));
            match state.action() {
                ActionView::ResolveName(name) => next.stage == StageView::<E>::Over(
                    Err(
                        WatchErrorView::WatchFileNotResolved {
                            filename: SubjectView::Named(name),
                            source,
                        },
                    ),
                ),
                ActionView::LocateSelf => next.stage == StageView::<E>::Over(
                    Err(WatchErrorView::GetSelfPathFailed { source }),
                ),
                ActionView::CreateWatcher => next.stage == StageView::<E>::Over(
                    Err(WatchErrorView::WatcherSetupFailed { source }),
                ),
                ActionView::NextInTree => next.stage == StageView::<E>::Over(
                    Err(WatchErrorView::ReadCustomDirEntryFailed { source }),
                ),
                ActionView::ListCurrentDir => next.stage == StageView::<E>::Over(
                    Err(WatchErrorView::ReadCurrentDirFailed { source }),
                ),
                ActionView::NextEntry => next.stage == StageView::<E>::Over(
                    Err(WatchErrorView::ReadDirEntryFailed { source }),
                ),
                ActionView::Resolve(path) => next.stage == StageView::<E>::Over(
                    Err(
                        WatchErrorView::WatchFileNotResolved {
                            filename: SubjectView::At(path),
                            source,
                        },
                    ),
                ),
                ActionView::Watch(path) => next.stage == StageView::<E>::Over(
                    Err(
                        WatchErrorView::WatchFileFailed {
                            filename: SubjectView::At(path),
                            source,
                        },
                    ),
                ),
                _ => next == state,
            }
        }),
        state.action() is Stop <==> state.stage is Over,
{
}

/// A reply that does not answer what was asked changes nothing. No reply changes the
/// custom entries, the server or the names to pass over.
pub proof fn replies_out_of_turn_change_nothing<E>(state: SetupState<E>, reply: ReplyView<E>)
    ensures
        state.step(reply).custom == state.custom,
        state.step(reply).server == state.server,
        state.step(reply).passed_over == state.passed_over,
        reply !is Failed && !(match state.action() {
            ActionView::ResolveName(_) => reply is Resolved,
            ActionView::InstallHandler => reply is Done,
            ActionView::StartReloadServer(_, _) => reply is Done,
            ActionView::LocateSelf => reply is Located,
            ActionView::CreateWatcher => reply is Done,
            ActionView::Probe(_) => reply is Directory,
            ActionView::OpenTree(_) => reply is Done,
            ActionView::NextInTree => reply is Walked || reply is Exhausted,
            ActionView::ListCurrentDir => reply is Done,
            ActionView::NextEntry => reply is Entry || reply is Exhausted,
            ActionView::Resolve(_) => reply is Resolved,
            ActionView::Watch(_) => reply is Done,
            ActionView::Stop => false,
        }) ==> state.step(reply) == state,
{
}

/// Custom entries are sorted only while they are resolved, the running program is
/// kept once it is found, and paths are excluded only while exclusions are looked
/// at. Nothing is ever forgotten.
pub proof fn keeps_what_was_found<E>(state: SetupState<E>, reply: ReplyView<E>)
    ensures
        ({
            let next = state.step(reply);
            let about_an_exclusion = match state.stage {
                StageView::Root(origin, _) => origin is Exclude,
                StageView::Tree(origin) => origin is Exclude,
                _ => false,
            };
            &&& state.stage !is Custom ==> next.includes == state.includes && next.excludes
                == state.excludes
            &&& state.action() !is LocateSelf ==> next.command == state.command
            &&& !about_an_exclusion ==> next.excluded == state.excluded
            &&& state.excluded.is_prefix_of(next.excluded)
            &&& state.includes.is_prefix_of(next.includes)
            &&& state.excludes.is_prefix_of(next.excludes)
        }),
{
}

// ---- A whole setup ----

/// Whether `file` is the full path of a file at or below a full path: the path
/// itself if that is no directory, and otherwise that of an entry of the tree that
/// is no directory.
pub open spec fn holds_file<E>(path: PathView, root: Root<E>, file: PathView) -> bool {
    if root.is_dir {
        exists|j: int|
            0 <= j < root.tree.len() && !(#[trigger] root.tree[j]).is_dir
                && root.tree[j].full->Ok_0 == file
    } else {
        path == file
    }
}

/// A setup that ends well asks to watch a file exactly if the file lies at or below
/// an entry of the current directory whose name is not passed over, or at or below
/// an extra entry, and no excluded path has the same components.
pub proof fn watches_exactly_the_files_wanted<E>(
    custom: Seq<Seq<char>>,
    server: Option<(Seq<char>, u16)>,
    passed_over: Seq<Seq<char>>,
    world: World<E>,
    file: PathView,
)
    requires
        world.answers(custom),
        after(
            initial::<E>(custom, server, passed_over),
            world.course(custom, server, passed_over).replies(),
        ).stage == StageView::<E>::Over(Ok(())),
    ensures
        ({
            let asked = actions(
                initial::<E>(custom, server, passed_over),
                world.course(custom, server, passed_over).replies(),
            );
            let wanted = (exists|i: int|
                0 <= i < world.tops.len() && !passed_over.contains(
                    (#[trigger] world.tops[i]).entry->Ok_0.0,
                ) && holds_file(world.tops[i].full->Ok_0, world.tops[i].root, file));
            let wanted_too = exists|i: int|
                0 <= i < world.roots.len() && holds_file(
                    world.includes(custom)[i],
                    #[trigger] world.roots[i],
                    file,
                );
            let left_out = exists|k: int|
                0 <= k < world.excluded(custom).len() && (#[trigger] world.excluded(
                    custom,
                )[k]).components == file.components;
            (exists|k: int| 0 <= k < asked.len() && #[trigger] asked[k] == ActionView::Watch(file))
                <==> (wanted || wanted_too) && !left_out
        }),
{
    let asked = actions(
        initial::<E>(custom, server, passed_over),
        world.course(custom, server, passed_over).replies(),
    );
    let excluded = world.excluded(custom);
    let tops = tops_files(world.tops, passed_over, 0);
    let roots = roots_files(world.includes(custom), world.roots, 0);
    watches_every_file_that_is_not_excluded(custom, server, passed_over, world);
    lemma_watched_contains(asked, file);
    lemma_filter_contains(world.files(custom, passed_over), kept(excluded), file);
    lemma_contains_concat(tops, roots, file);
    lemma_tops_contain(world.tops, passed_over, 0, file);
    lemma_roots_contain(world.includes(custom), world.roots, 0, file);
    assert(kept(excluded)(file) <==> !lists(excluded, file));
    assert(lists(excluded, file) <==> exists|k: int|
        0 <= k < excluded.len() && (#[trigger] excluded[k]).components == file.components) by {
        if lists(excluded, file) {
            let k = choose|k: int| 0 <= k < excluded.len() && (#[trigger] excluded[k]).same(file);
            assert(excluded[k].components == file.components);
        }
        if exists|k: int|
            0 <= k < excluded.len() && (#[trigger] excluded[k]).components == file.components {
            let k = choose|k: int|
                0 <= k < excluded.len() && (#[trigger] excluded[k]).components == file.components;
            assert(excluded[k].same(file));
        }
    }
}

/// The exclusions are the full paths of the custom entries that begin with the mark,
/// and the extra entries those of all others.
pub proof fn every_custom_entry_counts<E>(
    custom: Seq<Seq<char>>,
    world: World<E>,
    path: PathView,
)
    ensures
        world.excludes(custom).contains(path) <==> exists|i: int|
            0 <= i < custom.len() && (#[trigger] custom[i]).len() > 0 && custom[i][0] == '!'
                && world.resolved[i]->Ok_0 == path,
        world.includes(custom).contains(path) <==> exists|i: int|
            0 <= i < custom.len() && ((#[trigger] custom[i]).len() == 0 || custom[i][0] != '!')
                && world.resolved[i]->Ok_0 == path,
{
    lemma_picked_contains(custom, world.resolved, true, 0, path);
    lemma_picked_contains(custom, world.resolved, false, 0, path);
}

/// The excluded paths are all that the trees of excluded directories hold, and the
/// exclusions that are no directories.
pub proof fn an_exclusion_covers_its_tree<E>(
    custom: Seq<Seq<char>>,
    world: World<E>,
    path: PathView,
)
    requires
        world.answers(custom),
    ensures
        world.excluded(custom).contains(path) <==> exists|i: int|
            0 <= i < world.covers.len() && (if (#[trigger] world.covers[i]).is_dir {
                exists|j: int|
                    0 <= j < world.covers[i].tree.len()
                        && (#[trigger] world.covers[i].tree[j])->Ok_0 == path
            } else {
                world.excludes(custom)[i] == path
            }),
{
    lemma_covered_contains(world.excludes(custom), world.covers, 0, path);
    if exists|i: int|
        0 <= i < world.covers.len() && covers_path(
            world.excludes(custom)[i],
            #[trigger] world.covers[i],
            path,
        ) {
        let i = choose|i: int|
            0 <= i < world.covers.len() && covers_path(
                world.excludes(custom)[i],
                #[trigger] world.covers[i],
                path,
            );
        assert(world.covers[i].is_dir || !world.covers[i].is_dir);
    }
}

spec fn covers_path<E>(exclude: PathView, cover: Cover<E>, path: PathView) -> bool {
    if cover.is_dir {
        exists|j: int| 0 <= j < cover.tree.len() && (#[trigger] cover.tree[j])->Ok_0 == path
    } else {
        exclude == path
    }
}

// ---- What lists hold ----

proof fn lemma_contains_concat(a: Seq<PathView>, b: Seq<PathView>, path: PathView)
    ensures
        (a + b).contains(path) <==> a.contains(path) || b.contains(path),
{
    if a.contains(path) {
        let i = choose|i: int| 0 <= i < a.len() && a[i] == path;
        assert((a + b)[i] == path);
    }
    if b.contains(path) {
        let i = choose|i: int| 0 <= i < b.len() && b[i] == path;
        assert((a + b)[a.len() + i] == path);
    }
    if (a + b).contains(path) {
        let i = choose|i: int| 0 <= i < (a + b).len() && (a + b)[i] == path;
        if i < a.len() {
            assert(a[i] == path);
        } else {
            assert(b[i - a.len()] == path);
        }
    }
}

proof fn lemma_contains_one(one: PathView, path: PathView)
    ensures
        seq![one].contains(path) <==> one == path,
{
    assert(seq![one][0] == one);
}

proof fn lemma_contains_push(list: Seq<PathView>, one: PathView, path: PathView)
    ensures
        list.push(one).contains(path) <==> list.contains(path) || one == path,
{
    assert(list.push(one) =~= list + seq![one]);
    lemma_contains_concat(list, seq![one], path);
    lemma_contains_one(one, path);
}

proof fn lemma_filter_contains(
    list: Seq<PathView>,
    keep: spec_fn(PathView) -> bool,
    path: PathView,
)
    ensures
        list.filter(keep).contains(path) <==> list.contains(path) && keep(path),
    decreases list.len(),
{
    reveal(Seq::filter);
    if list.len() > 0 {
        let earlier = list.drop_last();
        lemma_filter_contains(earlier, keep, path);
        assert(list =~= earlier.push(list.last()));
        lemma_contains_push(earlier, list.last(), path);
        lemma_contains_push(earlier.filter(keep), list.last(), path);
    }
}

proof fn lemma_watched_contains(asked: Seq<ActionView>, path: PathView)
    ensures
        watched(asked).contains(path) <==> exists|k: int|
            0 <= k < asked.len() && #[trigger] asked[k] == ActionView::Watch(path),
    decreases asked.len(),
{
    if asked.len() > 0 {
        let earlier = asked.drop_last();
        let last = asked.len() - 1;
        lemma_watched_contains(earlier, path);
        if asked[last] is Watch {
            lemma_contains_push(watched(earlier), asked[last]->Watch_0, path);
        }
        if watched(earlier).contains(path) {
            let k = choose|k: int|
                0 <= k < earlier.len() && #[trigger] earlier[k] == ActionView::Watch(path);
            assert(asked[k] == ActionView::Watch(path));
        }
        if exists|k: int| 0 <= k < asked.len() && #[trigger] asked[k] == ActionView::Watch(path) {
            let k = choose|k: int|
                0 <= k < asked.len() && #[trigger] asked[k] == ActionView::Watch(path);
            if k < last {
                assert(earlier[k] == ActionView::Watch(path));
            }
        }
        if watched(asked).contains(path) && !watched(earlier).contains(path) {
            assert(asked[last] == ActionView::Watch(path));
        }
    }
}

proof fn lemma_tree_contains<E>(tree: Seq<Leaf<E>>, i: int, file: PathView)
    requires
        0 <= i <= tree.len(),
    ensures
        tree_files(tree, i).contains(file) <==> exists|j: int|
            i <= j < tree.len() && !(#[trigger] tree[j]).is_dir && tree[j].full->Ok_0 == file,
    decreases tree.len() - i,
{
    if i < tree.len() {
        lemma_tree_contains(tree, i + 1, file);
        lemma_contains_concat(seq![tree[i].full->Ok_0], tree_files(tree, i + 1), file);
        lemma_contains_one(tree[i].full->Ok_0, file);
    }
}

proof fn lemma_root_contains<E>(path: PathView, root: Root<E>, file: PathView)
    ensures
        root_files(path, root).contains(file) <==> holds_file(path, root, file),
{
    lemma_tree_contains(root.tree, 0, file);
    lemma_contains_one(path, file);
}

proof fn lemma_tops_contain<E>(
    tops: Seq<Top<E>>,
    passed_over: Seq<Seq<char>>,
    i: int,
    file: PathView,
)
    requires
        0 <= i <= tops.len(),
    ensures
        tops_files(tops, passed_over, i).contains(file) <==> exists|j: int|
            i <= j < tops.len() && !passed_over.contains((#[trigger] tops[j]).entry->Ok_0.0)
                && holds_file(tops[j].full->Ok_0, tops[j].root, file),
    decreases tops.len() - i,
{
    if i < tops.len() {
        lemma_tops_contain(tops, passed_over, i + 1, file);
        lemma_contains_concat(
            root_files(tops[i].full->Ok_0, tops[i].root),
            tops_files(tops, passed_over, i + 1),
            file,
        );
        lemma_root_contains(tops[i].full->Ok_0, tops[i].root, file);
    }
}

proof fn lemma_roots_contain<E>(
    includes: Seq<PathView>,
    roots: Seq<Root<E>>,
    i: int,
    file: PathView,
)
    requires
        0 <= i <= includes.len(),
        includes.len() == roots.len(),
    ensures
        roots_files(includes, roots, i).contains(file) <==> exists|j: int|
            i <= j < roots.len() && holds_file(includes[j], #[trigger] roots[j], file),
    decreases includes.len() - i,
{
    if i < includes.len() {
        lemma_roots_contain(includes, roots, i + 1, file);
        lemma_contains_concat(
            root_files(includes[i], roots[i]),
            roots_files(includes, roots, i + 1),
            file,
        );
        lemma_root_contains(includes[i], roots[i], file);
    }
}

proof fn lemma_picked_contains<E>(
    custom: Seq<Seq<char>>,
    resolved: Seq<Result<PathView, E>>,
    kind: bool,
    i: int,
    path: PathView,
)
    requires
        0 <= i <= custom.len(),
    ensures
        picked(custom, resolved, kind, i).contains(path) <==> exists|j: int|
            i <= j < custom.len() && ((#[trigger] custom[j]).len() > 0 && custom[j][0] == '!')
                == kind && resolved[j]->Ok_0 == path,
    decreases custom.len() - i,
{
    if i < custom.len() {
        lemma_picked_contains(custom, resolved, kind, i + 1, path);
        lemma_contains_concat(
            seq![resolved[i]->Ok_0],
            picked(custom, resolved, kind, i + 1),
            path,
        );
        lemma_contains_one(resolved[i]->Ok_0, path);
    }
}

proof fn lemma_tree_paths_contain<E>(tree: Seq<Result<PathView, E>>, i: int, path: PathView)
    requires
        0 <= i <= tree.len(),
    ensures
        tree_paths(tree, i).contains(path) <==> exists|j: int|
            i <= j < tree.len() && (#[trigger] tree[j])->Ok_0 == path,
    decreases tree.len() - i,
{
    if i < tree.len() {
        lemma_tree_paths_contain(tree, i + 1, path);
        lemma_contains_concat(seq![tree[i]->Ok_0], tree_paths(tree, i + 1), path);
        lemma_contains_one(tree[i]->Ok_0, path);
    }
}

proof fn lemma_covered_contains<E>(
    excludes: Seq<PathView>,
    covers: Seq<Cover<E>>,
    i: int,
    path: PathView,
)
    requires
        0 <= i <= excludes.len(),
        excludes.len() == covers.len(),
    ensures
        all_covered(excludes, covers, i).contains(path) <==> exists|j: int|
            i <= j < covers.len() && covers_path(excludes[j], #[trigger] covers[j], path),
    decreases excludes.len() - i,
{
    if i < excludes.len() {
        lemma_covered_contains(excludes, covers, i + 1, path);
        lemma_contains_concat(
            covered(excludes[i], covers[i]),
            all_covered(excludes, covers, i + 1),
            path,
        );
        lemma_tree_paths_contain(covers[i].tree, 0, path);
        lemma_contains_one(excludes[i], path);
    }
}

} // verus!
