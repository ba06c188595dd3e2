//! What can be relied on of every command.
use crate::dispatch::{needs_tools, plan, started, ExecutionState, StepReply, StepView, Task};
use crate::opts::{Address, Subcommand, WatchOpts};
use crate::path::PathView;
use vstd::prelude::*;

verus! {

/// The state after a sequence of replies.
pub open spec fn after<E>(
    state: ExecutionState<E>,
    replies: Seq<StepReply<E>>,
) -> ExecutionState<E>
    decreases replies.len(),
{
    if replies.len() == 0 {
        state
    } else {
        after(state, replies.drop_last()).step(replies.last())
    }
}

/// Whether none of the first `n` replies ends a command.
pub open spec fn goes_on<E>(replies: Seq<StepReply<E>>, n: int) -> bool {
    forall|k: int| 0 <= k < n ==> (#[trigger] replies[k]).stop() is None
}

proof fn lemma_in_order<E>(state: ExecutionState<E>, replies: Seq<StepReply<E>>)
    requires
        state.done == 0,
        state.end is None,
        replies.len() < state.steps.len(),
        goes_on(replies, replies.len() as int),
    ensures
        after(state, replies) == (ExecutionState { done: replies.len() as int, ..state }),
    decreases replies.len(),
{
    if replies.len() > 0 {
        let earlier = replies.drop_last();
        assert(goes_on(earlier, earlier.len() as int)) by {
            assert forall|k: int| 0 <= k < earlier.len() implies (#[trigger] earlier[k]).stop()
                is None by {
                assert(replies[k].stop() is None);
            }
        }
        lemma_in_order(state, earlier);
        assert(replies[replies.len() - 1].stop() is None);
    }
}

proof fn lemma_ended<E>(state: ExecutionState<E>, replies: Seq<StepReply<E>>, n: int)
    requires
        0 <= n <= replies.len(),
        after(state, replies.take(n)).end is Some,
    ensures
        after(state, replies) == after(state, replies.take(n)),
    decreases replies.len(),
{
    if n == replies.len() {
        assert(replies.take(n) =~= replies);
    } else {
        let earlier = replies.drop_last();
        assert(earlier.take(n) =~= replies.take(n));
        lemma_ended(state, earlier, n);
    }
}

proof fn lemma_not_ended<E>(state: ExecutionState<E>, replies: Seq<StepReply<E>>)
    requires
        state.done == 0,
        after(state, replies).end is None,
    ensures
        after(state, replies) == (ExecutionState { done: replies.len() as int, ..state }),
        replies.len() > 0 ==> replies.last().stop() is None && after(
            state,
            replies.drop_last(),
        ).end is None && replies.len() < state.steps.len(),
    decreases replies.len(),
{
    if replies.len() > 0 {
        lemma_not_ended(state, replies.drop_last());
    }
}

proof fn lemma_plan_is_not_empty(
    dir: PathView,
    subcmd: Subcommand,
    reload: (Seq<char>, u16),
)
    ensures
        plan(dir, subcmd, reload).len() > 0,
{
}

/// As long as no step fails or exits with a code other than zero, the steps of
/// the plan are taken one after the other.
pub proof fn steps_are_taken_in_order<E>(
    dir: PathView,
    subcmd: Subcommand,
    reload: (Seq<char>, u16),
    replies: Seq<StepReply<E>>,
)
    requires
        replies.len() < plan(dir, subcmd, reload).len(),
        goes_on(replies, replies.len() as int),
    ensures
        after(started::<E>(dir, subcmd, reload), replies).current() == Some(
            plan(dir, subcmd, reload)[replies.len() as int],
        ),
{
    lemma_in_order(started::<E>(dir, subcmd, reload), replies);
}

/// The first step that fails, or that exits with a code other than zero, ends
/// the command with that failure or that code. Nothing that follows is done, and
/// nothing that is replied later changes it.
pub proof fn first_stop_ends_the_command<E>(
    dir: PathView,
    subcmd: Subcommand,
    reload: (Seq<char>, u16),
    replies: Seq<StepReply<E>>,
    k: int,
)
    requires
        0 <= k < replies.len(),
        k < plan(dir, subcmd, reload).len(),
        goes_on(replies, k),
        replies[k].stop() is Some,
    ensures
        after(started::<E>(dir, subcmd, reload), replies).end == replies[k].stop(),
        after(started::<E>(dir, subcmd, reload), replies).current() is None,
{
    let start = started::<E>(dir, subcmd, reload);
    let upto = replies.take(k + 1);
    assert(upto.drop_last() =~= replies.take(k));
    assert(goes_on(replies.take(k), k));
    lemma_in_order(start, replies.take(k));
    lemma_ended(start, replies, k + 1);
}

/// A command in which every step is done, and every exit code is zero, ends with
/// zero.
pub proof fn ends_with_zero_when_nothing_stops<E>(
    dir: PathView,
    subcmd: Subcommand,
    reload: (Seq<char>, u16),
    replies: Seq<StepReply<E>>,
)
    requires
        replies.len() >= plan(dir, subcmd, reload).len(),
        goes_on(replies, plan(dir, subcmd, reload).len() as int),
    ensures
        after(started::<E>(dir, subcmd, reload), replies).end == Some(Ok::<i32, E>(0)),
{
    let start = started::<E>(dir, subcmd, reload);
    let n = plan(dir, subcmd, reload).len() as int;
    lemma_plan_is_not_empty(dir, subcmd, reload);
    let upto = replies.take(n);
    assert(upto.drop_last() =~= replies.take(n - 1));
    assert(goes_on(replies.take(n - 1), n - 1));
    lemma_in_order(start, replies.take(n - 1));
    assert(upto.last() == replies[n - 1]);
    lemma_ended(start, replies, n);
}

/// The tools are installed for every command except `new`, `init` and `clean`:
/// right at the start, once the directory exists.
pub proof fn tools_for_all_but_new_init_clean(
    dir: PathView,
    subcmd: Subcommand,
    reload: (Seq<char>, u16),
)
    ensures
        plan(dir, subcmd, reload).contains(StepView::InstallTools(dir)) <==> !(subcmd is New
            || subcmd is Init || subcmd is Clean),
        forall|k: int|
            0 <= k < plan(dir, subcmd, reload).len() && (#[trigger] plan(dir, subcmd, reload)[k])
                is InstallTools ==> {
                &&& plan(dir, subcmd, reload)[k] == StepView::InstallTools(dir)
                &&& k == 1
                &&& plan(dir, subcmd, reload)[0] is CreateDist
            },
{
    let steps = plan(dir, subcmd, reload);
    if needs_tools(subcmd) {
        assert(steps[1] == StepView::InstallTools(dir));
    }
}

/// Every step that acts in a directory acts in the one that the command was given,
/// whatever was replied before.
pub proof fn acts_in_the_given_directory<E>(
    dir: PathView,
    subcmd: Subcommand,
    reload: (Seq<char>, u16),
    replies: Seq<StepReply<E>>,
    step: StepView,
)
    requires
        after(started::<E>(dir, subcmd, reload), replies).current() == Some(step),
    ensures
        step.acts_in() is None <==> step is Notify || step is OrderReload,
        step.acts_in() matches Some(place) ==> place == dir,
{
    let start = started::<E>(dir, subcmd, reload);
    lemma_not_ended(start, replies);
    lemma_plan_is_not_empty(dir, subcmd, reload);
    let k = replies.len() as int;
    assert(step == plan(dir, subcmd, reload)[k]);
}

/// Whether a step deletes anything.
pub open spec fn deletes(step: StepView) -> bool {
    step is DeleteDist || step is DeleteArtifacts
}

/// Whether a step does the work of a command, which ends with an exit code.
pub open spec fn works(step: StepView) -> bool {
    step is Run || step is ServeExported
}

/// What is outdated is deleted before any work begins, and after the directory
/// and the tools are there.
pub proof fn deletes_before_it_works(
    dir: PathView,
    subcmd: Subcommand,
    reload: (Seq<char>, u16),
    i: int,
    j: int,
)
    requires
        0 <= i < plan(dir, subcmd, reload).len(),
        0 <= j < plan(dir, subcmd, reload).len(),
        deletes(plan(dir, subcmd, reload)[i]),
    ensures
        works(plan(dir, subcmd, reload)[j]) ==> i < j,
        plan(dir, subcmd, reload)[j] is InstallTools ==> j < i,
{
}

/// What was built before is kept where the user asks for it: nothing is deleted
/// by `serve` and `test` without a build, nor by `tinker` without a clean-up.
pub proof fn keeps_what_the_user_keeps(
    dir: PathView,
    subcmd: Subcommand,
    reload: (Seq<char>, u16),
    k: int,
)
    requires
        0 <= k < plan(dir, subcmd, reload).len(),
        match subcmd {
            Subcommand::Serve { no_build, .. } => no_build,
            Subcommand::Test { no_build, .. } => no_build,
            Subcommand::Tinker { no_clean } => no_clean,
            _ => false,
        },
    ensures
        !deletes(plan(dir, subcmd, reload)[k]),
{
}

/// Browsers are only told to reload, at the address of the reload server, once
/// an export that is to be served has exited with zero.
pub proof fn reloads_only_after_an_export<E>(
    dir: PathView,
    subcmd: Subcommand,
    reload: (Seq<char>, u16),
    replies: Seq<StepReply<E>>,
    host: Seq<char>,
    port: u16,
)
    requires
        after(started::<E>(dir, subcmd, reload), replies).current() == Some(
            StepView::OrderReload(host, port),
        ),
    ensures
        (host, port) == reload,
        subcmd matches Subcommand::Export { serve, .. } && serve,
        replies.len() > 0,
        replies.last().stop() is None,
        after(started::<E>(dir, subcmd, reload), replies.drop_last()).current() == Some(
            StepView::Run(dir, Task::Export),
        ),
{
    let start = started::<E>(dir, subcmd, reload);
    lemma_not_ended(start, replies);
    if replies.len() > 0 {
        lemma_not_ended(start, replies.drop_last());
    }
}

// ---- Step by step, whatever is replied ----

/// Whether each of the first `n` replies says that a step was done, or that it
/// exited with zero.
pub open spec fn went_well<E>(replies: Seq<StepReply<E>>, n: int) -> bool {
    forall|j: int|
        0 <= j < n ==> (#[trigger] replies[j]) == StepReply::<E>::Done || replies[j]
            == StepReply::<E>::Exited(0)
}

/// A step that exits with any code other than zero, after steps that went well,
/// ends the command with that very code. Nothing more is done, and nothing that is
/// replied later changes it.
pub proof fn an_exit_code_is_passed_on<E>(
    dir: PathView,
    subcmd: Subcommand,
    reload: (Seq<char>, u16),
    replies: Seq<StepReply<E>>,
    k: int,
    code: i32,
)
    requires
        0 <= k < replies.len(),
        k < plan(dir, subcmd, reload).len(),
        went_well(replies, k),
        replies[k] == StepReply::<E>::Exited(code),
        code != 0,
    ensures
        after(started::<E>(dir, subcmd, reload), replies).end == Some(Ok::<i32, E>(code)),
        after(started::<E>(dir, subcmd, reload), replies).current() is None,
{
    assert(goes_on(replies, k));
    first_stop_ends_the_command(dir, subcmd, reload, replies, k);
}

/// A step that fails, after steps that went well, ends the command with that very
/// failure. Nothing more is done, and nothing that is replied later changes it.
pub proof fn a_failure_is_passed_on<E>(
    dir: PathView,
    subcmd: Subcommand,
    reload: (Seq<char>, u16),
    replies: Seq<StepReply<E>>,
    k: int,
    error: E,
)
    requires
        0 <= k < replies.len(),
        k < plan(dir, subcmd, reload).len(),
        went_well(replies, k),
        replies[k] == StepReply::Failed(error),
    ensures
        after(started::<E>(dir, subcmd, reload), replies).end == Some(Err::<i32, E>(error)),
        after(started::<E>(dir, subcmd, reload), replies).current() is None,
{
    assert(goes_on(replies, k));
    first_stop_ends_the_command(dir, subcmd, reload, replies, k);
}

/// As long as all steps go well, the command has not ended, and the next step of the
/// plan is the one to do. Once all steps of the plan went well, the command has
/// ended with zero, whatever is replied later.
pub proof fn goes_on_to_the_end_of_the_plan<E>(
    dir: PathView,
    subcmd: Subcommand,
    reload: (Seq<char>, u16),
    replies: Seq<StepReply<E>>,
)
    ensures
        ({
            let steps = plan(dir, subcmd, reload);
            let state = after(started::<E>(dir, subcmd, reload), replies);
            &&& replies.len() < steps.len() && went_well(replies, replies.len() as int) ==> {
                &&& state.end is None
                &&& state.current() == Some(steps[replies.len() as int])
            }
            &&& replies.len() >= steps.len() && went_well(replies, steps.len() as int) ==> {
                &&& state.end == Some(Ok::<i32, E>(0))
                &&& state.current() is None
            }
        }),
{
    let steps = plan(dir, subcmd, reload);
    if replies.len() < steps.len() && went_well(replies, replies.len() as int) {
        assert(goes_on(replies, replies.len() as int));
        lemma_in_order(started::<E>(dir, subcmd, reload), replies);
    }
    if replies.len() >= steps.len() && went_well(replies, steps.len() as int) {
        assert(goes_on(replies, steps.len() as int));
        ends_with_zero_when_nothing_stops(dir, subcmd, reload, replies);
    }
}

/// An export that is to be served and exits with zero is followed by the order to
/// reload, at the address of the reload server, and that by serving the app at its
/// own address, whatever the options for watching are. The command then ends with
/// what the server exits with.
pub proof fn an_export_that_went_well_is_served<E>(
    dir: PathView,
    watching: WatchOpts,
    address: Address,
    reload: (Seq<char>, u16),
    replies: Seq<StepReply<E>>,
    code: i32,
)
    requires
        went_well(replies, replies.len() as int),
        replies.len() < plan(
            dir,
            Subcommand::Export { watching, serve: true, address },
            reload,
        ).len(),
        after(
            started::<E>(dir, Subcommand::Export { watching, serve: true, address }, reload),
            replies,
        ).current() == Some(StepView::Run(dir, Task::Export)),
    ensures
        ({
            let exporting = after(
                started::<E>(dir, Subcommand::Export { watching, serve: true, address }, reload),
                replies,
            );
            let reloading = exporting.step(StepReply::Exited(0));
            let serving = reloading.step(StepReply::Done);
            &&& reloading.current() == Some(StepView::OrderReload(reload.0, reload.1))
            &&& serving.current() == Some(
                StepView::ServeExported(dir, address.host@, address.port),
            )
            &&& serving.step(StepReply::Exited(code)).end == Some(Ok::<i32, E>(code))
        }),
{
    let subcmd = Subcommand::Export { watching, serve: true, address };
    assert(goes_on(replies, replies.len() as int));
    lemma_in_order(started::<E>(dir, subcmd, reload), replies);
    let steps = plan(dir, subcmd, reload);
    assert(steps.len() == 8);
    assert(steps[5] == StepView::Run(dir, Task::Export));
    assert(steps[replies.len() as int] == StepView::Run(dir, Task::Export));
    assert(replies.len() == 5);
    assert(steps[6] == StepView::OrderReload(reload.0, reload.1));
    assert(steps[7] == StepView::ServeExported(dir, address.host@, address.port));
}

} // verus!
