//! What can be relied on of every process that watches, and of the copies of the
//! program that it starts.
use crate::dispatch::started;
use crate::errors::WatchErrorView;
use crate::launch::{
    decided_course, launched, reload_server, watch_choice, AnswerView, CourseView, LaunchStage,
    LaunchState, Request,
};
use crate::opts::Opts;
use crate::path::PathView;
use crate::session::{startup, startup_name};
use crate::setup::{initial, ReplyView, StageView};
use crate::setup_laws::{knows_the_program_that_was_found, located_by};
use crate::setup_run;
use crate::supervise::{
    child, ChildView, Duty, Event, Outcome, WatchStage, WatchState, TEST_EXAMPLE, USE_RELOAD_SERVER,
    WATCHING_PROHIBITED,
};
use crate::text::texts;
use vstd::prelude::*;

verus! {

// ---- The decision ----

/// The state after a sequence of answers.
pub open spec fn decided<E>(
    state: LaunchState<E>,
    answers: Seq<AnswerView<E>>,
) -> LaunchState<E>
    decreases answers.len(),
{
    if answers.len() == 0 {
        state
    } else {
        decided(state, answers.drop_last()).step(answers.last())
    }
}

/// What is answered on the way to a decision: that the user was told, where there
/// is something to tell, how the check of the environment went, and what is in
/// the variable.
pub open spec fn answers<E>(
    sequential: bool,
    check: Result<(), E>,
    variable: Option<Seq<char>>,
) -> Seq<AnswerView<E>> {
    let note = if sequential {
        seq![AnswerView::<E>::Done]
    } else {
        Seq::empty()
    };
    note + seq![
        (match check {
            Ok(_) => AnswerView::Done,
            Err(error) => AnswerView::Failed(error),
        }),
        AnswerView::Variable(variable),
    ]
}

/// A command is watched when the environment is in order, the user asked for it,
/// the command is one that can be watched, and nothing is in the variable that
/// prohibits it. An environment that is not in order ends everything.
pub proof fn decides_by_command_line_and_variable<E>(
    opts: Opts,
    check: Result<(), E>,
    variable: Option<Seq<char>>,
)
    ensures
        decided(launched::<E>(opts), answers(opts.sequential, check, variable)).stage == (
        match check {
            Ok(_) => LaunchStage::<E>::Over(Ok(watch_choice(opts.subcmd, variable is None))),
            Err(error) => LaunchStage::Over(Err(error)),
        }),
{
    let all = answers(opts.sequential, check, variable);
    let start = launched::<E>(opts);
    let first = all.drop_last();
    let second = first.drop_last();
    assert(decided(start, all) == decided(start, first).step(all.last()));
    assert(decided(start, first) == decided(start, second).step(first.last()));
    if opts.sequential {
        assert(second.len() == 1);
        assert(second.drop_last() =~= Seq::<AnswerView<E>>::empty());
        assert(decided(start, second.drop_last()) == start);
        assert(decided(start, second) == start.step(second.last()));
    } else {
        assert(second =~= Seq::<AnswerView<E>>::empty());
    }
}

/// What follows the decision: a command that the user asked to watch, and that can
/// be watched, is watched by its own custom entries if nothing is in the variable
/// that prohibits it. Every other command is carried out once, in the given
/// directory.
pub proof fn watched_or_carried_out_once<S, E, F>(
    dir: PathView,
    opts: Opts,
    variable: Option<Seq<char>>,
    passed_over: Seq<Seq<char>>,
    decision: Option<Seq<Seq<char>>>,
)
    requires
        decided(launched::<F>(opts), answers(opts.sequential, Ok(()), variable)).stage
            == LaunchStage::<F>::Over(Ok(decision)),
    ensures
        decided_course::<S, E>(dir, opts, decision, passed_over) == (match opts.subcmd.watching() {
            Some(watching) if watching.watch && variable is None => CourseView::<S, E>::Watch(
                initial(texts(watching.custom_watch@), reload_server(opts), passed_over),
            ),
            _ => CourseView::Once(started(dir, opts.subcmd, opts.reload_server@)),
        }),
{
    decides_by_command_line_and_variable::<F>(opts, Ok(()), variable);
}

/// Whether any decision was made that the environment has to be in order for.
spec fn checked<E>(stage: LaunchStage<E>) -> bool {
    stage is Asking || stage matches LaunchStage::Over(Ok(_))
}

/// Nothing is decided before the environment has been found in order.
pub proof fn checks_the_environment_first<E>(opts: Opts, answers: Seq<AnswerView<E>>)
    requires
        decided(launched::<E>(opts), answers).stage matches LaunchStage::Over(Ok(_)),
    ensures
        exists|k: int|
            #![trigger answers[k]]
            0 <= k < answers.len() && answers[k] is Done && decided(
                launched::<E>(opts),
                answers.take(k),
            ).stage is Checking,
{
    lemma_checked(launched::<E>(opts), answers);
}

proof fn lemma_checked<E>(start: LaunchState<E>, answers: Seq<AnswerView<E>>)
    requires
        !checked(start.stage),
        checked(decided(start, answers).stage),
    ensures
        exists|k: int|
            #![trigger answers[k]]
            0 <= k < answers.len() && answers[k] is Done && decided(
                start,
                answers.take(k),
            ).stage is Checking,
    decreases answers.len(),
{
    let earlier = answers.drop_last();
    let last = answers.len() - 1;
    if checked(decided(start, earlier).stage) {
        lemma_checked(start, earlier);
        let k = choose|k: int|
            #![trigger earlier[k]]
            0 <= k < earlier.len() && earlier[k] is Done && decided(
                start,
                earlier.take(k),
            ).stage is Checking;
        assert(answers.take(k) =~= earlier.take(k));
        assert(answers[k] is Done);
    } else {
        assert(answers.take(last) =~= earlier);
        assert(answers[last] is Done);
    }
}

// ---- The copy of the program ----

/// Variables with some of them set anew, one after the other.
pub open spec fn with_set(
    inherited: Map<Seq<char>, Seq<char>>,
    set: Seq<(Seq<char>, Seq<char>)>,
) -> Map<Seq<char>, Seq<char>>
    decreases set.len(),
{
    if set.len() == 0 {
        inherited
    } else {
        with_set(inherited, set.drop_last()).insert(set.last().0, set.last().1)
    }
}

/// The variables that a process finds when it is started by `command` in an
/// environment with the variables `inherited`: those, with some set anew and then
/// some taken away.
pub open spec fn environment(
    command: ChildView,
    inherited: Map<Seq<char>, Seq<char>>,
) -> Map<Seq<char>, Seq<char>> {
    with_set(inherited, command.set).remove_keys(command.unset.to_set())
}

/// What is in a variable.
pub open spec fn variable(
    variables: Map<Seq<char>, Seq<char>>,
    name: Seq<char>,
) -> Option<Seq<char>> {
    if variables.contains_key(name) {
        Some(variables[name])
    } else {
        None
    }
}

/// A copy of the program never watches by itself, whatever its parent inherited
/// and whatever the command is: when it reads the variable that it is to read, it
/// finds that watching is prohibited.
pub proof fn copies_never_watch<E>(
    state: LaunchState<E>,
    name: &'static str,
    program: PathView,
    args: Seq<Seq<char>>,
    debug: bool,
    inherited: Map<Seq<char>, Seq<char>>,
)
    requires
        state.request() == Request::ReadVariable(name),
    ensures
        state.step(
            AnswerView::Variable(
                variable(environment(child(program, args, debug), inherited), name@),
            ),
        ).stage == LaunchStage::<E>::Over(Ok(None)),
{
    let command = child(program, args, debug);
    reveal_with_fuel(with_set, 3);
    assert(command.set.drop_last().last().0 == WATCHING_PROHIBITED@);
    assert(with_set(inherited, command.set).contains_key(WATCHING_PROHIBITED@));
    reveal_strlit("PERSEUS_WATCHING_PROHIBITED");
    reveal_strlit("TEST_EXAMPLE");
    assert(WATCHING_PROHIBITED@.len() != TEST_EXAMPLE@.len());
    assert(!command.unset.contains(WATCHING_PROHIBITED@));
    assert(!command.unset.to_set().contains(WATCHING_PROHIBITED@));
}

/// A copy of the program runs in the directory of its parent, also during
/// development, where a variable could send it elsewhere. It is told to order
/// reloads at the reload server.
pub proof fn copies_stay_and_use_the_reload_server(
    program: PathView,
    args: Seq<Seq<char>>,
    debug: bool,
    inherited: Map<Seq<char>, Seq<char>>,
)
    ensures
        startup(
            debug,
            (match startup_name(debug) {
                Some(name) => variable(environment(child(program, args, debug), inherited), name),
                None => None,
            }),
        ) is None,
        variable(
            environment(child(program, args, debug), inherited),
            USE_RELOAD_SERVER@,
        ) == Some("true"@),
{
    let command = child(program, args, debug);
    reveal_with_fuel(with_set, 3);
    assert(command.set.last().0 == USE_RELOAD_SERVER@);
    reveal_strlit("PERSEUS_USE_RELOAD_SERVER");
    reveal_strlit("TEST_EXAMPLE");
    assert(USE_RELOAD_SERVER@.len() != TEST_EXAMPLE@.len());
    assert(!command.unset.contains(USE_RELOAD_SERVER@));
    if debug {
        assert(command.unset[0] == TEST_EXAMPLE@);
        assert(command.unset.contains(TEST_EXAMPLE@));
    }
}

/// A copy of the program gets the arguments that its parent got, so it carries
/// out the same command.
pub proof fn copies_get_the_same_arguments(
    program: PathView,
    own: Seq<char>,
    args: Seq<Seq<char>>,
    debug: bool,
)
    ensures
        child(program, seq![own] + args, debug).args == args,
{
    assert((seq![own] + args).skip(1) =~= args);
}

// ---- The watching process ----

/// The state after a sequence of outcomes.
pub open spec fn after<E>(state: WatchState<E>, outcomes: Seq<Outcome<E>>) -> WatchState<E>
    decreases outcomes.len(),
{
    if outcomes.len() == 0 {
        state
    } else {
        after(state, outcomes.drop_last()).step(outcomes.last())
    }
}

/// How many copies of the program were started and not yet told to end. A copy is
/// told to end by a kill, whether that works or not.
pub open spec fn not_told_to_end<E>(state: WatchState<E>, outcomes: Seq<Outcome<E>>) -> int
    decreases outcomes.len(),
{
    if outcomes.len() == 0 {
        0
    } else {
        let before = not_told_to_end(state, outcomes.drop_last());
        match (after(state, outcomes.drop_last()).stage, outcomes.last()) {
            (WatchStage::Starting, Outcome::Done) => before + 1,
            (WatchStage::Restarting, Outcome::Done | Outcome::Failed(_)) => before - 1,
            (WatchStage::Stopping, Outcome::Done | Outcome::Failed(_)) => before - 1,
            _ => before,
        }
    }
}

/// The state in which a watching process starts.
pub open spec fn fresh<E>(command: ChildView) -> WatchState<E> {
    WatchState { command, stage: WatchStage::Starting }
}

/// There is never more than one copy of the program that has not yet been told to
/// end: the old one is killed before a new one is started, though the kill may
/// fail. Every one is started by the same command.
pub proof fn at_most_one_copy_not_told_to_end<E>(command: ChildView, outcomes: Seq<Outcome<E>>)
    ensures
        0 <= not_told_to_end(fresh::<E>(command), outcomes) <= 1,
        after(fresh::<E>(command), outcomes).stage is Starting ==> not_told_to_end(
            fresh::<E>(command),
            outcomes,
        ) == 0,
        after(fresh::<E>(command), outcomes).command == command,
{
    lemma_not_told_to_end(command, outcomes);
}

/// Every copy of the program is started by the command that the setup was replied
/// when it asked for the running program, whatever the replies and the outcomes
/// are.
pub proof fn starts_the_program_that_was_found<E>(
    custom: Seq<Seq<char>>,
    server: Option<(Seq<char>, u16)>,
    passed_over: Seq<Seq<char>>,
    replies: Seq<ReplyView<E>>,
    command: ChildView,
    outcomes: Seq<Outcome<E>>,
)
    requires
        ({
            let ended = setup_run::after(initial::<E>(custom, server, passed_over), replies);
            ended.stage == StageView::<E>::Over(Ok(())) && ended.command == Some(command)
        }),
    ensures
        located_by(
            initial::<E>(custom, server, passed_over),
            replies,
            after(fresh::<E>(command), outcomes).command,
        ),
{
    knows_the_program_that_was_found(custom, server, passed_over, replies);
    at_most_one_copy_not_told_to_end(command, outcomes);
}

/// A process that stops watching with an exit code does so because it was told to
/// terminate, ends with zero, and has told every copy of the program to end.
pub proof fn terminates_with_every_copy_told_to_end<E>(
    command: ChildView,
    outcomes: Seq<Outcome<E>>,
    code: i32,
)
    requires
        after(fresh::<E>(command), outcomes).stage == WatchStage::<E>::Over(Ok(code)),
    ensures
        code == 0,
        not_told_to_end(fresh::<E>(command), outcomes) == 0,
        exists|k: int|
            #![trigger outcomes[k]]
            0 <= k < outcomes.len() && outcomes[k] == Outcome::<E>::Arrived(Event::Terminate),
{
    lemma_not_told_to_end(command, outcomes);
    lemma_told(fresh::<E>(command), outcomes);
}

/// What every event does: a change kills the copy of the program and starts a new
/// one, and the order to terminate kills it and ends the process with zero. A kill
/// that fails makes no difference.
pub proof fn events_are_obeyed<E>(command: ChildView, killed: Outcome<E>)
    requires
        killed is Done || killed is Failed,
    ensures
        ({
            let running = WatchState::<E> { command, stage: WatchStage::Running };
            let changed = running.step(Outcome::Arrived(Event::Reload));
            let told = running.step(Outcome::Arrived(Event::Terminate));
            &&& changed.duty() is Kill
            &&& changed.step(killed).duty() is Spawn
            &&& changed.step(killed).step(Outcome::Done) == running
            &&& told.duty() is Kill
            &&& told.step(killed).stage == WatchStage::<E>::Over(Ok(0))
        }),
{
}

proof fn lemma_not_told_to_end<E>(command: ChildView, outcomes: Seq<Outcome<E>>)
    ensures
        after(fresh::<E>(command), outcomes).command == command,
        match after(fresh::<E>(command), outcomes).stage {
            WatchStage::Starting => not_told_to_end(fresh::<E>(command), outcomes) == 0,
            WatchStage::Over(Ok(code)) => {
                code == 0 && not_told_to_end(fresh::<E>(command), outcomes) == 0
            },
            WatchStage::Over(Err(_)) => 0 <= not_told_to_end(fresh::<E>(command), outcomes) <= 1,
            _ => not_told_to_end(fresh::<E>(command), outcomes) == 1,
        },
    decreases outcomes.len(),
{
    if outcomes.len() > 0 {
        lemma_not_told_to_end(command, outcomes.drop_last());
    }
}

proof fn lemma_told<E>(start: WatchState<E>, outcomes: Seq<Outcome<E>>)
    requires
        start.stage is Starting,
        after(start, outcomes).stage is Stopping || after(start, outcomes).stage
            matches WatchStage::Over(Ok(_)),
    ensures
        exists|k: int|
            #![trigger outcomes[k]]
            0 <= k < outcomes.len() && outcomes[k] == Outcome::<E>::Arrived(Event::Terminate),
    decreases outcomes.len(),
{
    let earlier = outcomes.drop_last();
    let last = outcomes.len() - 1;
    let stage = after(start, earlier).stage;
    if stage is Stopping || stage matches WatchStage::Over(Ok(_)) {
        lemma_told(start, earlier);
        let k = choose|k: int|
            #![trigger earlier[k]]
            0 <= k < earlier.len() && earlier[k] == Outcome::<E>::Arrived(Event::Terminate);
        assert(outcomes[k] == earlier[k]);
    } else {
        assert(outcomes[last] == Outcome::<E>::Arrived(Event::Terminate));
    }
}

/// What leads from one duty to the next: a process first starts the copy, then waits
/// for events. A copy that cannot be started, and events that can no longer arrive,
/// end watching with a failure that holds what was reported.
pub proof fn starts_then_waits<E>(command: ChildView, state: WatchState<E>, source: E)
    ensures
        fresh::<E>(command).duty() is Spawn,
        state.duty() is Spawn ==> {
            &&& state.step(Outcome::Done).duty() is Await
            &&& state.step(Outcome::Failed(source)).stage == WatchStage::<E>::Over(
                Err(WatchErrorView::SpawnSelfFailed { source }),
            )
        },
        state.duty() is Await ==> {
            &&& state.step(Outcome::Arrived(Event::Reload)).duty() is Kill
            &&& state.step(Outcome::Arrived(Event::Terminate)).duty() is Kill
            &&& state.step(Outcome::Failed(source)).stage == WatchStage::<E>::Over(
                Err(WatchErrorView::WatcherError { source }),
            )
        },
        state.duty() is Stop <==> state.stage is Over,
{
}

/// An outcome that does not belong to the duty changes nothing, and no outcome
/// changes the command by which copies are started.
pub proof fn outcomes_out_of_turn_change_nothing<E>(state: WatchState<E>, outcome: Outcome<E>)
    ensures
        state.step(outcome).command == state.command,
        (match state.duty() {
            Duty::Spawn => outcome is Arrived,
            Duty::Await => outcome is Done,
            Duty::Kill => outcome is Arrived,
            Duty::Stop => true,
        }) ==> state.step(outcome) == state,
{
}

/// A copy of the program is a copy of this very program. It finds that watching is
/// prohibited, and every variable that its parent inherited, but for the two that
/// are set for it and, during development, the one that could send it elsewhere.
pub proof fn copies_inherit_everything_else(
    program: PathView,
    args: Seq<Seq<char>>,
    debug: bool,
    inherited: Map<Seq<char>, Seq<char>>,
    name: Seq<char>,
)
    ensures
        child(program, args, debug).program == program,
        variable(
            environment(child(program, args, debug), inherited),
            WATCHING_PROHIBITED@,
        ) == Some("true"@),
        name != WATCHING_PROHIBITED@ && name != USE_RELOAD_SERVER@ && !(debug && name
            == TEST_EXAMPLE@) ==> variable(
            environment(child(program, args, debug), inherited),
            name,
        ) == variable(inherited, name),
{
    let command = child(program, args, debug);
    reveal_with_fuel(with_set, 3);
    assert(command.set.drop_last().last() == (WATCHING_PROHIBITED@, "true"@));
    assert(command.set.last().0 == USE_RELOAD_SERVER@);
    assert(command.set.drop_last().drop_last().len() == 0);
    reveal_strlit("PERSEUS_WATCHING_PROHIBITED");
    reveal_strlit("PERSEUS_USE_RELOAD_SERVER");
    reveal_strlit("TEST_EXAMPLE");
    assert(WATCHING_PROHIBITED@.len() != TEST_EXAMPLE@.len());
    assert(WATCHING_PROHIBITED@.len() != USE_RELOAD_SERVER@.len());
    assert(!command.unset.contains(WATCHING_PROHIBITED@));
    assert(!command.unset.to_set().contains(WATCHING_PROHIBITED@));
    if debug {
        assert(forall|n: Seq<char>| #[trigger]
            command.unset.contains(n) ==> n == command.unset[0]);
    }
}

/// A copy of the program gets every argument of its parent but the first, each in
/// its place.
pub proof fn copies_get_all_arguments_but_the_first(
    program: PathView,
    args: Seq<Seq<char>>,
    debug: bool,
)
    requires
        args.len() > 0,
    ensures
        child(program, args, debug).args.len() == args.len() - 1,
        forall|i: int|
            0 <= i < args.len() - 1 ==> #[trigger] child(program, args, debug).args[i] == args[i
                + 1],
{
}

} // verus!
