use perseus_driver::dispatch::{Notice, Step};
use perseus_driver::launch::{
    choose_watch, course, watch_setup, Answer, Course, Launch, Request,
};
use perseus_driver::opts::{Address, Opts, SnoopSubcommand, Subcommand, WatchOpts};
use perseus_driver::path::FilePath;
use perseus_driver::setup::{Action, Reply, Setup};

fn wanted() -> WatchOpts {
    WatchOpts { watch: true, custom_watch: vec!["!x".to_string(), "y".to_string()] }
}

fn unwanted() -> WatchOpts {
    WatchOpts { watch: false, custom_watch: vec!["y".to_string()] }
}

fn home() -> Address {
    Address { host: "localhost".to_string(), port: 3100 }
}

fn line(sequential: bool, no_browser_reload: bool, subcmd: Subcommand) -> Opts {
    Opts { sequential, reload_server: home(), no_browser_reload, subcmd }
}

#[test]
fn every_watchable_command_can_be_watched() {
    let custom = Some(vec!["!x".to_string(), "y".to_string()]);
    for subcmd in [
        Subcommand::Build(wanted()),
        Subcommand::Export { watching: wanted(), serve: true, address: home() },
        Subcommand::Serve { watching: wanted(), no_build: false },
        Subcommand::Test { watching: wanted(), no_build: true },
        Subcommand::Snoop(SnoopSubcommand::Build(wanted())),
        Subcommand::Snoop(SnoopSubcommand::WasmBuild(wanted())),
        Subcommand::Snoop(SnoopSubcommand::Serve(wanted())),
        Subcommand::Check(wanted()),
    ] {
        assert_eq!(choose_watch(&subcmd, true), custom);
        assert_eq!(choose_watch(&subcmd, false), None);
    }
}

#[test]
fn other_commands_are_carried_out_once() {
    for subcmd in [
        Subcommand::Build(unwanted()),
        Subcommand::Clean,
        Subcommand::Deploy,
        Subcommand::Tinker { no_clean: false },
        Subcommand::ExportErrorPage,
        Subcommand::New,
        Subcommand::Init,
    ] {
        assert_eq!(choose_watch(&subcmd, true), None);
    }
}

#[test]
fn a_single_thread_is_noted_first() {
    let opts = line(true, false, Subcommand::Build(wanted()));
    let launch: Launch<&'static str> = Launch::new(&opts);
    assert_eq!(launch.request(), Request::Notify(Notice::Sequential));
    let launch = launch.handle(Answer::Done);
    assert_eq!(launch.request(), Request::CheckEnvironment);
    let launch = launch.handle(Answer::Done);
    assert_eq!(launch.request(), Request::ReadVariable("PERSEUS_WATCHING_PROHIBITED"));
    let launch = launch.handle(Answer::Variable(None));
    assert_eq!(launch.request(), Request::Stop);
    assert_eq!(
        launch.into_result(),
        Some(Ok(Some(vec!["!x".to_string(), "y".to_string()])))
    );
}

#[test]
fn a_prohibited_process_does_not_watch() {
    let opts = line(false, false, Subcommand::Build(wanted()));
    let launch: Launch<&'static str> = Launch::new(&opts);
    let launch = launch.handle(Answer::Done).handle(Answer::Variable(Some("".to_string())));
    assert_eq!(launch.into_result(), Some(Ok(None)));
}

#[test]
fn a_bad_environment_ends_everything() {
    let opts = line(false, false, Subcommand::Build(wanted()));
    let launch: Launch<&'static str> = Launch::new(&opts);
    let launch = launch.handle(Answer::Failed("no cargo")).handle(Answer::Variable(None));
    assert_eq!(launch.request(), Request::Stop);
    assert_eq!(launch.into_result(), Some(Err("no cargo")));
}

#[test]
fn answers_out_of_turn_change_nothing() {
    let opts = line(false, false, Subcommand::Clean);
    let launch: Launch<&'static str> = Launch::new(&opts);
    let launch = launch.handle(Answer::Variable(None));
    assert_eq!(launch.request(), Request::CheckEnvironment);
    assert!(launch.into_result().is_none());
}

#[test]
fn the_reload_server_can_be_declined() {
    let opts = line(false, true, Subcommand::Clean);
    let setup: Setup<&'static str> = watch_setup(&opts, vec![], vec![]);
    assert_eq!(setup.handle(Reply::Done).action(), Action::LocateSelf);
    let opts = line(false, false, Subcommand::Clean);
    let setup: Setup<&'static str> = watch_setup(&opts, vec![], vec![]);
    assert_eq!(setup.handle(Reply::Done).action(), Action::StartReloadServer(home()));
}

#[test]
fn a_setup_knows_what_to_watch_and_what_to_pass_over() {
    let opts = line(false, true, Subcommand::Clean);
    let custom = vec!["!x".to_string()];
    let setup: Setup<&'static str> = watch_setup(&opts, custom, vec!["dist".to_string()]);
    assert_eq!(setup.action(), Action::ResolveName("x".to_string()));
}

#[test]
fn the_course_is_the_one_decided() {
    let project = || FilePath {
        spelling: b"/project".to_vec(),
        components: vec![b"/".to_vec(), b"project".to_vec()],
    };
    let opts = line(false, false, Subcommand::Build(wanted()));
    let custom = choose_watch(&opts.subcmd, true);
    match course::<&'static str, &'static str>(&project(), &opts, custom, vec![]) {
        Course::Watch(setup) => {
            assert_eq!(setup.action(), Action::ResolveName("x".to_string()));
        }
        Course::Once(_) => panic!("the command is to be watched"),
    }
    let custom = choose_watch(&opts.subcmd, false);
    match course::<&'static str, &'static str>(&project(), &opts, custom, vec![]) {
        Course::Watch(_) => panic!("watching is prohibited"),
        Course::Once(execution) => {
            assert_eq!(execution.current(), Some(Step::CreateDist(project())));
        }
    }
}
