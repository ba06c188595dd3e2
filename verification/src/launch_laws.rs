//! What can be relied on of the decision whether a command is watched, command by
//! command.
use crate::dispatch::{plan, Notice};
use crate::launch::{
    decided_course, launched, reload_server, watch_choice, AnswerView, CourseView, LaunchStage,
    LaunchState, Request,
};
use crate::opts::{Address, Opts, SnoopSubcommand, Subcommand, WatchOpts};
use crate::path::PathView;
use crate::setup::{ActionView, StageView};
use crate::supervise::WATCHING_PROHIBITED;
use crate::watch_laws::decided;
use vstd::prelude::*;

verus! {

/// What is answered before the variable is read: that the user was told, where the
/// program runs on a single thread, and that the environment is in order.
pub open spec fn ready<E>(opts: Opts) -> Seq<AnswerView<E>> {
    if opts.sequential {
        seq![AnswerView::<E>::Done, AnswerView::<E>::Done]
    } else {
        seq![AnswerView::<E>::Done]
    }
}

proof fn lemma_ready<E>(opts: Opts, answer: AnswerView<E>)
    ensures
        decided(launched::<E>(opts), ready(opts)) == (LaunchState::<E> {
            subcmd: opts.subcmd,
            stage: LaunchStage::Asking,
        }),
        decided(launched::<E>(opts), ready(opts).push(answer)) == decided(
            launched::<E>(opts),
            ready(opts),
        ).step(answer),
{
    let start = launched::<E>(opts);
    let all = ready::<E>(opts);
    assert(all.push(answer).drop_last() =~= all);
    assert(decided(start, all) == decided(start, all.drop_last()).step(all.last()));
    if opts.sequential {
        let first = all.drop_last();
        assert(first.drop_last() =~= Seq::<AnswerView<E>>::empty());
        assert(decided(start, first) == decided(start, first.drop_last()).step(first.last()));
    } else {
        assert(all.drop_last() =~= Seq::<AnswerView<E>>::empty());
    }
}

/// Each command that can be watched is watched when the user asks for it and nothing
/// is in the variable that prohibits it, whatever its other options are: the
/// decision is for exactly its own custom entries, in their order.
pub proof fn watches_every_command_that_can_be_watched<E>(opts: Opts, watching: WatchOpts)
    requires
        match opts.subcmd {
            Subcommand::Build(own) => own == watching,
            Subcommand::Export { watching: own, .. } => own == watching,
            Subcommand::Serve { watching: own, .. } => own == watching,
            Subcommand::Test { watching: own, .. } => own == watching,
            Subcommand::Snoop(SnoopSubcommand::Build(own)) => own == watching,
            Subcommand::Snoop(SnoopSubcommand::WasmBuild(own)) => own == watching,
            Subcommand::Snoop(SnoopSubcommand::Serve(own)) => own == watching,
            Subcommand::Check(own) => own == watching,
            _ => false,
        },
        watching.watch,
    ensures
        decided(launched::<E>(opts), ready(opts).push(AnswerView::Variable(None))).stage matches
            LaunchStage::Over(Ok(Some(custom))) && custom.len() == watching.custom_watch@.len()
            && (forall|i: int|
            0 <= i < custom.len() ==> #[trigger] custom[i] == watching.custom_watch@[i]@),
        watch_choice(opts.subcmd, true) matches Some(custom) && custom.len()
            == watching.custom_watch@.len() && (forall|i: int|
            0 <= i < custom.len() ==> #[trigger] custom[i] == watching.custom_watch@[i]@),
        watch_choice(opts.subcmd, false) is None,
{
    lemma_ready::<E>(opts, AnswerView::Variable(None));
}

/// The options for watching are those that the command itself was given, whether or
/// not the user asks to watch. Commands that cannot be watched have none.
pub proof fn options_for_watching_are_those_given(
    subcmd: Subcommand,
    watching: WatchOpts,
    serve: bool,
    address: Address,
    no_build: bool,
)
    ensures
        Subcommand::Build(watching).watching() == Some(watching),
        (Subcommand::Export { watching, serve, address }).watching() == Some(watching),
        (Subcommand::Serve { watching, no_build }).watching() == Some(watching),
        (Subcommand::Test { watching, no_build }).watching() == Some(watching),
        Subcommand::Snoop(SnoopSubcommand::Build(watching)).watching() == Some(watching),
        Subcommand::Snoop(SnoopSubcommand::WasmBuild(watching)).watching() == Some(watching),
        Subcommand::Snoop(SnoopSubcommand::Serve(watching)).watching() == Some(watching),
        Subcommand::Check(watching).watching() == Some(watching),
        subcmd is Clean || subcmd is Deploy || subcmd is Tinker || subcmd is ExportErrorPage
            || subcmd is New || subcmd is Init ==> subcmd.watching() is None,
{
}

/// A command is carried out once where the user did not ask to watch it, where it
/// cannot be watched, and where there is anything in the variable that prohibits
/// it, be it empty.
pub proof fn carries_out_once_what_is_not_to_be_watched<E>(
    opts: Opts,
    variable: Option<Seq<char>>,
)
    requires
        variable is Some || match opts.subcmd {
            Subcommand::Build(own) => !own.watch,
            Subcommand::Export { watching: own, .. } => !own.watch,
            Subcommand::Serve { watching: own, .. } => !own.watch,
            Subcommand::Test { watching: own, .. } => !own.watch,
            Subcommand::Snoop(SnoopSubcommand::Build(own)) => !own.watch,
            Subcommand::Snoop(SnoopSubcommand::WasmBuild(own)) => !own.watch,
            Subcommand::Snoop(SnoopSubcommand::Serve(own)) => !own.watch,
            Subcommand::Check(own) => !own.watch,
            _ => true,
        },
    ensures
        decided(launched::<E>(opts), ready(opts).push(AnswerView::Variable(variable))).stage
            == LaunchStage::<E>::Over(Ok(None)),
        watch_choice(opts.subcmd, variable is None) is None,
{
    lemma_ready::<E>(opts, AnswerView::Variable(variable));
}

/// What is asked on the way: the user is told of a single thread if there is only
/// one, then the environment is checked, then the variable is read that prohibits
/// watching, and nothing more. A check that fails ends everything with its failure.
pub proof fn asks_in_order<E>(opts: Opts, variable: Option<Seq<char>>, error: E)
    ensures
        ({
            let start = launched::<E>(opts);
            let checking = if opts.sequential {
                start.step(AnswerView::Done)
            } else {
                start
            };
            let asking = checking.step(AnswerView::Done);
            let failed = checking.step(AnswerView::Failed(error));
            &&& opts.sequential ==> start.request() == Request::Notify(Notice::Sequential)
            &&& checking.request() == Request::CheckEnvironment
            &&& asking.request() matches Request::ReadVariable(name) && name@
                == WATCHING_PROHIBITED@
            &&& asking.step(AnswerView::Variable(variable)).request() == Request::Stop
            &&& failed.request() == Request::Stop
            &&& failed.stage == LaunchStage::Over(Err(error))
        }),
{
}

/// An answer that does not belong to what was asked changes nothing, and no answer
/// changes the command.
pub proof fn answers_out_of_turn_change_nothing<E>(state: LaunchState<E>, answer: AnswerView<E>)
    ensures
        state.step(answer).subcmd == state.subcmd,
        match state.request() {
            Request::Notify(_) => answer !is Done,
            Request::CheckEnvironment => answer is Variable,
            Request::ReadVariable(_) => answer !is Variable,
            Request::Stop => true,
        } ==> state.step(answer) == state,
{
}

/// Browsers are reloaded by way of the server that the user named, unless the user
/// declined it.
pub proof fn the_reload_server_is_that_of_the_user(opts: Opts)
    ensures
        opts.no_browser_reload ==> reload_server(opts) is None,
        !opts.no_browser_reload ==> reload_server(opts) == Some(
            (opts.reload_server.host@, opts.reload_server.port),
        ),
{
}

/// With custom entries to watch by, even if there are none of them, the decision
/// leads to a setup that has done nothing yet, for these entries, this server and
/// these names to pass over. Without, it leads to the steps of the command in the
/// given directory, of which none is done yet.
pub proof fn the_decision_is_carried_out<S, E>(
    dir: PathView,
    opts: Opts,
    custom: Seq<Seq<char>>,
    passed_over: Seq<Seq<char>>,
)
    ensures
        decided_course::<S, E>(dir, opts, Some(custom), passed_over) matches CourseView::Watch(
            setup,
        ) && {
            &&& setup.custom == custom
            &&& setup.passed_over == passed_over
            &&& setup.server == (if opts.no_browser_reload {
                None
            } else {
                Some((opts.reload_server.host@, opts.reload_server.port))
            })
            &&& setup.includes.len() == 0
            &&& setup.excludes.len() == 0
            &&& setup.excluded.len() == 0
            &&& setup.command is None
            &&& custom.len() == 0 ==> setup.action() == ActionView::InstallHandler
            &&& custom.len() > 0 ==> setup.stage == StageView::<S>::Custom(0)
        },
        decided_course::<S, E>(dir, opts, None, passed_over) matches CourseView::Once(execution)
            && {
            &&& execution.steps == plan(
                dir,
                opts.subcmd,
                (opts.reload_server.host@, opts.reload_server.port),
            )
            &&& execution.done == 0
            &&& execution.end is None
        },
{
}

} // verus!
