//! What can be relied on of every run of the program.
use crate::dispatch::{started, StepReply, StepView};
use crate::dispatch_laws::{acts_in_the_given_directory, after};
use crate::opts::Subcommand;
use crate::path::{EntryView, PathView};
use crate::session::{
    exit_code, startup, startup_name, ErrandView, NewsView, ReportView, SessionState,
};
use vstd::prelude::*;

verus! {

/// What happens in the outside world during a run.
pub struct Events<E> {
    /// The current directory, if there is one.
    pub dir: Result<PathView, E>,
    /// How the command ends: with an exit code, or with a failure, of which is
    /// told whether it was one of installing tools.
    pub command: Result<i32, (bool, E)>,
    /// What comes of deleting the tools of the project.
    pub local: Result<(), E>,
    /// Where the shared tools are kept, if there is a place for them.
    pub shared: Option<EntryView>,
    /// Whether there is anything.
    pub exists: bool,
    /// What comes of deleting it.
    pub removed: Result<(), E>,
}

/// What a run asks for, what the user is told of, and the exit code.
pub struct Run<E> {
    pub errands: Seq<ErrandView>,
    pub told: Seq<ReportView<E>>,
    pub state: SessionState<E>,
}

/// A run after a sequence of news.
pub open spec fn run<E>(news: Seq<NewsView<E>>) -> Run<E>
    decreases news.len(),
{
    if news.len() == 0 {
        Run { errands: Seq::empty(), told: Seq::empty(), state: SessionState::Starting }
    } else {
        let before = run(news.drop_last());
        let (state, told) = before.state.step(news.last());
        Run { errands: before.errands.push(before.state.errand()), told: before.told + told, state }
    }
}

/// The news of the current directory.
pub open spec fn found<E>(dir: Result<PathView, E>) -> NewsView<E> {
    match dir {
        Ok(dir) => NewsView::Found(dir),
        Err(error) => NewsView::Failed(error),
    }
}

/// The news of something that is done or fails.
pub open spec fn done<E>(result: Result<(), E>) -> NewsView<E> {
    match result {
        Ok(_) => NewsView::Done,
        Err(error) => NewsView::Failed(error),
    }
}

impl<E> Events<E> {
    /// Whether a clean-up of the tools is called for: the command failed while
    /// tools were installed.
    pub open spec fn cleans_up(self) -> bool {
        self.dir is Ok && self.command matches Err((true, _))
    }

    /// Whether shared tools are there to be deleted.
    pub open spec fn removes(self) -> bool {
        self.cleans_up() && self.shared is Some && self.exists
    }

    /// The news of these events, in order.
    pub open spec fn news(self) -> Seq<NewsView<E>> {
        let none = Seq::<NewsView<E>>::empty();
        seq![found(self.dir)] + (if self.dir is Ok {
            seq![
                (match self.command {
                    Ok(code) => NewsView::Exited(code),
                    Err((install, error)) => NewsView::CommandFailed { install, error },
                }),
            ]
        } else {
            none
        }) + (if self.cleans_up() {
            seq![done(self.local), NewsView::Located(self.shared)]
        } else {
            none
        }) + (if self.cleans_up() && self.shared is Some {
            seq![NewsView::Exists(self.exists)]
        } else {
            none
        }) + (if self.removes() {
            seq![done(self.removed)]
        } else {
            none
        })
    }

    /// The exit code of a run in which these events happen: that of the command if
    /// it has one, and otherwise 1.
    pub open spec fn code(self) -> i32 {
        match (self.dir, self.command) {
            (Ok(_), Ok(code)) => code,
            _ => 1,
        }
    }

    /// The errands of such a run.
    pub open spec fn errands(self) -> Seq<ErrandView> {
        let none = Seq::<ErrandView>::empty();
        seq![ErrandView::FindCurrentDir] + (match self.dir {
            Ok(dir) => seq![ErrandView::RunCommand(dir)],
            Err(_) => none,
        }) + (match self.dir {
            Ok(dir) if self.cleans_up() => {
                seq![ErrandView::DeleteLocalTools(dir), ErrandView::LocateSharedTools]
            },
            _ => none,
        }) + (match self.shared {
            Some(path) if self.cleans_up() => seq![ErrandView::Probe(path)],
            _ => none,
        }) + (match self.shared {
            Some(path) if self.removes() => seq![ErrandView::RemoveTree(path)],
            _ => none,
        })
    }

    /// What the user is told of in such a run.
    pub open spec fn told(self) -> Seq<ReportView<E>> {
        let none = Seq::<ReportView<E>>::empty();
        match (self.dir, self.command) {
            (Err(error), _) => seq![ReportView::CurrentDirUnavailable(error)],
            (Ok(_), Ok(_)) => none,
            (Ok(_), Err((_, error))) => {
                (match self.local {
                    Err(source) if self.cleans_up() => {
                        seq![ReportView::LocalToolsNotDeleted(source)]
                    },
                    _ => none,
                }) + (match (self.shared, self.removed) {
                    (Some(target), Err(source)) if self.removes() => {
                        seq![ReportView::RemoveArtifactsFailed { target, source }]
                    },
                    _ => none,
                }) + seq![ReportView::CommandFailed(error)]
            },
        }
    }
}

proof fn lemma_push<E>(news: Seq<NewsView<E>>, next: NewsView<E>)
    ensures
        run(news + seq![next]) == (Run {
            errands: run(news).errands.push(run(news).state.errand()),
            told: run(news).told + run(news).state.step(next).1,
            state: run(news).state.step(next).0,
        }),
{
    assert((news + seq![next]).drop_last() =~= news);
}

/// A run passes the exit code of its command on, and ends with 1 if anything
/// failed. A failure of the command is told last, after everything that went
/// wrong with the clean-up. Tools are only deleted when installing them failed;
/// then both the tools of the project and the shared ones are deleted, the latter
/// also if the former cannot be. The command is run, and the tools of the project
/// are deleted, in the directory that was found at the start.
pub proof fn runs_by_the_events<E>(events: Events<E>)
    ensures
        run(events.news()).state == SessionState::<E>::Over(events.code()),
        run(events.news()).errands == events.errands(),
        run(events.news()).told == events.told(),
{
    let none = Seq::<NewsView<E>>::empty();
    let first = found(events.dir);
    lemma_push(none, first);
    assert(none + seq![first] =~= seq![first]);
    if events.dir is Ok {
        let second = match events.command {
            Ok(code) => NewsView::Exited(code),
            Err((install, error)) => NewsView::CommandFailed { install, error },
        };
        let news2 = seq![first] + seq![second];
        lemma_push(seq![first], second);
        if events.cleans_up() {
            let third = done(events.local);
            let fourth = NewsView::Located(events.shared);
            let news3 = news2 + seq![third];
            let news4 = news3 + seq![fourth];
            lemma_push(news2, third);
            lemma_push(news3, fourth);
            if events.shared is Some {
                let fifth = NewsView::Exists(events.exists);
                let news5 = news4 + seq![fifth];
                lemma_push(news4, fifth);
                if events.exists {
                    let sixth = done(events.removed);
                    lemma_push(news5, sixth);
                    assert(events.news() =~= news5 + seq![sixth]);
                } else {
                    assert(events.news() =~= news5);
                }
            } else {
                assert(events.news() =~= news4);
            }
        } else {
            assert(events.news() =~= news2);
        }
    } else {
        assert(events.news() =~= seq![first]);
    }
    assert(run(events.news()).errands =~= events.errands());
    assert(run(events.news()).told =~= events.told());
}

/// The directory that a run keeps, if it keeps one.
spec fn kept<E>(state: SessionState<E>) -> Option<PathView> {
    match state {
        SessionState::Running(dir) => Some(dir),
        SessionState::CleaningLocal(_, dir) => Some(dir),
        _ => None,
    }
}

/// Whether `dir` is the directory that was found at the start of a run.
pub open spec fn found_at_the_start<E>(news: Seq<NewsView<E>>, dir: PathView) -> bool {
    exists|k: int|
        #![trigger news[k]]
        0 <= k < news.len() && news[k] == NewsView::<E>::Found(dir) && run(news.take(k)).state
            is Starting
}

/// The command is run, and the tools of the project are deleted, in the directory
/// that was found at the start, whatever the news are.
pub proof fn stays_in_the_directory_found<E>(news: Seq<NewsView<E>>, dir: PathView)
    requires
        ({
            let errand = run(news).state.errand();
            errand == ErrandView::RunCommand(dir) || errand == ErrandView::DeleteLocalTools(dir)
        }),
    ensures
        found_at_the_start(news, dir),
{
    lemma_kept(news, dir);
}

/// Every step of the command that acts in a directory acts in the one that was
/// found at the start of the run, whatever the news and the replies are.
pub proof fn steps_stay_in_the_directory_found<E, F>(
    news: Seq<NewsView<E>>,
    dir: PathView,
    subcmd: Subcommand,
    reload: (Seq<char>, u16),
    replies: Seq<StepReply<F>>,
    step: StepView,
    place: PathView,
)
    requires
        run(news).state.errand() == ErrandView::RunCommand(dir),
        after(started::<F>(dir, subcmd, reload), replies).current() == Some(step),
        step.acts_in() == Some(place),
    ensures
        found_at_the_start(news, place),
{
    lemma_kept(news, dir);
    acts_in_the_given_directory(dir, subcmd, reload, replies, step);
}

proof fn lemma_kept<E>(news: Seq<NewsView<E>>, dir: PathView)
    requires
        kept(run(news).state) == Some(dir),
    ensures
        found_at_the_start(news, dir),
    decreases news.len(),
{
    let earlier = news.drop_last();
    let last = news.len() - 1;
    if kept(run(earlier).state) == Some(dir) {
        lemma_kept(earlier, dir);
        let k = choose|k: int|
            #![trigger earlier[k]]
            0 <= k < earlier.len() && earlier[k] == NewsView::<E>::Found(dir) && run(
                earlier.take(k),
            ).state is Starting;
        assert(news.take(k) =~= earlier.take(k));
        assert(news[k] == earlier[k]);
    } else {
        assert(news.take(last) =~= earlier);
        assert(news[last] == NewsView::<E>::Found(dir));
    }
}

/// A run that fails never ends with the code of success.
pub proof fn failures_show_in_the_exit_code<E>(events: Events<E>)
    requires
        events.dir is Err || events.command is Err,
    ensures
        exit_code(events.code()) == 1,
{
}

/// No exit code other than zero turns into that of success on the way out.
pub proof fn only_zero_is_success(code: i32)
    ensures
        exit_code(code) == 0 <==> code == 0,
{
}

// ---- Run by run, whatever happens ----

/// What a run that comes to its command does: it exits with the code of the command
/// and tells nothing; a failure that is not one of installing tools is told, deletes
/// nothing, and exits with 1. A run without a current directory tells that, and does
/// nothing at all.
pub proof fn runs_the_command_and_exits<E>(dir: PathView, code: i32, error: E)
    ensures
        ({
            let ended = run(seq![NewsView::<E>::Found(dir), NewsView::Exited(code)]);
            &&& ended.errands =~= seq![ErrandView::FindCurrentDir, ErrandView::RunCommand(dir)]
            &&& ended.told.len() == 0
            &&& ended.state.errand() == ErrandView::Exit(code)
        }),
        ({
            let ended = run(
                seq![NewsView::Found(dir), NewsView::CommandFailed { install: false, error }],
            );
            &&& ended.errands =~= seq![ErrandView::FindCurrentDir, ErrandView::RunCommand(dir)]
            &&& ended.told =~= seq![ReportView::CommandFailed(error)]
            &&& ended.state.errand() == ErrandView::Exit(1)
        }),
        ({
            let ended = run(seq![NewsView::Failed(error)]);
            &&& ended.errands =~= seq![ErrandView::FindCurrentDir]
            &&& ended.told =~= seq![ReportView::CurrentDirUnavailable(error)]
            &&& ended.state.errand() == ErrandView::Exit(1)
        }),
{
    let none = Seq::<NewsView<E>>::empty();
    let found = NewsView::<E>::Found(dir);
    let exited = NewsView::<E>::Exited(code);
    let failed = NewsView::CommandFailed { install: false, error };
    lemma_push(none, found);
    lemma_push(none, NewsView::Failed(error));
    assert(none + seq![found] =~= seq![found]);
    assert(none + seq![NewsView::Failed(error)] =~= seq![NewsView::Failed(error)]);
    lemma_push(seq![found], exited);
    lemma_push(seq![found], failed);
    assert(seq![found] + seq![exited] =~= seq![found, exited]);
    assert(seq![found] + seq![failed] =~= seq![found, failed]);
}

/// The news of a run whose tools could not be installed, up to the deletion of the
/// tools of the project.
pub open spec fn not_installed<E>(
    dir: PathView,
    error: E,
    local: Result<(), E>,
) -> Seq<NewsView<E>> {
    seq![NewsView::Found(dir), NewsView::CommandFailed { install: true, error }, done(local)]
}

proof fn lemma_not_installed<E>(dir: PathView, error: E, local: Result<(), E>)
    ensures
        run(not_installed(dir, error, local)).state == SessionState::Locating(error),
        run(not_installed(dir, error, local)).errands == seq![
            ErrandView::FindCurrentDir,
            ErrandView::RunCommand(dir),
            ErrandView::DeleteLocalTools(dir),
        ],
        run(not_installed(dir, error, local)).told == (match local {
            Ok(_) => Seq::<ReportView<E>>::empty(),
            Err(source) => seq![ReportView::LocalToolsNotDeleted(source)],
        }),
{
    let none = Seq::<NewsView<E>>::empty();
    let first = NewsView::<E>::Found(dir);
    let second = NewsView::CommandFailed { install: true, error };
    lemma_push(none, first);
    assert(none + seq![first] =~= seq![first]);
    lemma_push(seq![first], second);
    lemma_push(seq![first] + seq![second], done(local));
    assert(seq![first] + seq![second] + seq![done(local)] =~= not_installed(dir, error, local));
    assert(run(not_installed(dir, error, local)).errands =~= seq![
        ErrandView::FindCurrentDir,
        ErrandView::RunCommand(dir),
        ErrandView::DeleteLocalTools(dir),
    ]);
    assert(run(not_installed(dir, error, local)).told =~= (match local {
        Ok(_) => Seq::<ReportView<E>>::empty(),
        Err(source) => seq![ReportView::LocalToolsNotDeleted(source)],
    }));
}

/// A run whose tools could not be installed deletes the tools of the project and,
/// whether that works or not, looks for the shared tools. Where there is no place
/// for those, or nothing there, it tells what could not be deleted and last why the
/// command failed, and exits with 1.
pub proof fn cleans_up_after_a_failed_installation<E>(
    dir: PathView,
    error: E,
    local: Result<(), E>,
    shared: EntryView,
    found: Seq<NewsView<E>>,
)
    requires
        found == seq![NewsView::<E>::Located(None)] || found == seq![
            NewsView::<E>::Located(Some(shared)),
            NewsView::Exists(false),
        ],
    ensures
        run(not_installed(dir, error, local) + found).errands == seq![
            ErrandView::FindCurrentDir,
            ErrandView::RunCommand(dir),
            ErrandView::DeleteLocalTools(dir),
            ErrandView::LocateSharedTools,
        ] + (if found.len() == 2 {
            seq![ErrandView::Probe(shared)]
        } else {
            Seq::empty()
        }),
        run(not_installed(dir, error, local) + found).told == (match local {
            Ok(_) => seq![ReportView::CommandFailed(error)],
            Err(source) => {
                seq![ReportView::LocalToolsNotDeleted(source), ReportView::CommandFailed(error)]
            },
        }),
        run(not_installed(dir, error, local) + found).state.errand() == ErrandView::Exit(1),
{
    let start = not_installed(dir, error, local);
    lemma_not_installed(dir, error, local);
    lemma_push(start, NewsView::Located(None));
    lemma_push(start, NewsView::Located(Some(shared)));
    let at = start + seq![NewsView::<E>::Located(Some(shared))];
    lemma_push(at, NewsView::Exists(false));
    if found.len() == 2 {
        assert(start + found =~= at + seq![NewsView::<E>::Exists(false)]);
    } else {
        assert(start + found =~= start + seq![NewsView::<E>::Located(None)]);
    }
    let told = run(start + found).told;
    assert(told =~= (match local {
        Ok(_) => seq![ReportView::CommandFailed(error)],
        Err(source) => {
            seq![ReportView::LocalToolsNotDeleted(source), ReportView::CommandFailed(error)]
        },
    }));
}

/// Shared tools that are there are deleted too, after a look and whether the tools
/// of the project could be deleted or not. What could not be deleted is told, the
/// tools of the project first, and last why the command failed. The run exits with
/// 1.
pub proof fn deletes_the_shared_tools_too<E>(
    dir: PathView,
    error: E,
    local: Result<(), E>,
    shared: EntryView,
    removed: Result<(), E>,
)
    ensures
        ({
            let ended = run(
                not_installed(dir, error, local) + seq![
                    NewsView::Located(Some(shared)),
                    NewsView::Exists(true),
                    done(removed),
                ],
            );
            &&& ended.errands == seq![
                ErrandView::FindCurrentDir,
                ErrandView::RunCommand(dir),
                ErrandView::DeleteLocalTools(dir),
                ErrandView::LocateSharedTools,
                ErrandView::Probe(shared),
                ErrandView::RemoveTree(shared),
            ]
            &&& ended.told == (match (local, removed) {
                (Ok(_), Ok(_)) => seq![ReportView::CommandFailed(error)],
                (Ok(_), Err(source)) => seq![
                    ReportView::RemoveArtifactsFailed { target: shared, source },
                    ReportView::CommandFailed(error),
                ],
                (Err(own), Ok(_)) => {
                    seq![ReportView::LocalToolsNotDeleted(own), ReportView::CommandFailed(error)]
                },
                (Err(own), Err(source)) => seq![
                    ReportView::LocalToolsNotDeleted(own),
                    ReportView::RemoveArtifactsFailed { target: shared, source },
                    ReportView::CommandFailed(error),
                ],
            })
            &&& ended.state.errand() == ErrandView::Exit(1)
        }),
{
    let start = not_installed(dir, error, local);
    let rest = seq![NewsView::Located(Some(shared)), NewsView::Exists(true), done(removed)];
    lemma_not_installed(dir, error, local);
    lemma_push(start, NewsView::Located(Some(shared)));
    let at = start + seq![NewsView::<E>::Located(Some(shared))];
    lemma_push(at, NewsView::Exists(true));
    let probed = at + seq![NewsView::<E>::Exists(true)];
    lemma_push(probed, done(removed));
    assert(start + rest =~= probed + seq![done(removed)]);
    let ended = run(start + rest);
    assert(ended.errands =~= seq![
        ErrandView::FindCurrentDir,
        ErrandView::RunCommand(dir),
        ErrandView::DeleteLocalTools(dir),
        ErrandView::LocateSharedTools,
        ErrandView::Probe(shared),
        ErrandView::RemoveTree(shared),
    ]);
    assert(ended.told =~= (match (local, removed) {
        (Ok(_), Ok(_)) => seq![ReportView::CommandFailed(error)],
        (Ok(_), Err(source)) => seq![
            ReportView::RemoveArtifactsFailed { target: shared, source },
            ReportView::CommandFailed(error),
        ],
        (Err(own), Ok(_)) => {
            seq![ReportView::LocalToolsNotDeleted(own), ReportView::CommandFailed(error)]
        },
        (Err(own), Err(source)) => seq![
            ReportView::LocalToolsNotDeleted(own),
            ReportView::RemoveArtifactsFailed { target: shared, source },
            ReportView::CommandFailed(error),
        ],
    }));
}

/// News that do not belong to the errand change nothing, and tell the user nothing.
pub proof fn news_out_of_turn_change_nothing<E>(state: SessionState<E>, news: NewsView<E>)
    requires
        match state.errand() {
            ErrandView::FindCurrentDir => !(news is Found || news is Failed),
            ErrandView::RunCommand(_) => !(news is Exited || news is CommandFailed),
            ErrandView::DeleteLocalTools(_) => !(news is Done || news is Failed),
            ErrandView::LocateSharedTools => news !is Located,
            ErrandView::Probe(_) => news !is Exists,
            ErrandView::RemoveTree(_) => !(news is Done || news is Failed),
            ErrandView::Exit(_) => true,
        },
    ensures
        state.step(news).0 == state,
        state.step(news).1.len() == 0,
{
}

/// The exit code of the process is that of the run where a process can have it, and
/// otherwise 1.
pub proof fn codes_that_fit_are_kept(code: i32)
    ensures
        0 <= code <= 255 ==> exit_code(code) == code,
        code < 0 || code > 255 ==> exit_code(code) == 1,
{
}

/// During development a run takes place where the variable for it says, if it says
/// so, and otherwise in the current directory.
pub proof fn development_runs_where_it_is_told<T>(named: Option<T>)
    ensures
        startup(true, named) == named,
        startup(false, named) is None,
        startup_name(true) == Some("TEST_EXAMPLE"@),
        startup_name(false) is None,
{
}

} // verus!
