use perseus_driver::dispatch::{
    command_steps, Artifacts, Execution, Notice, Step, StepReply, Task,
};
use perseus_driver::opts::{Address, Opts, SnoopSubcommand, Subcommand, WatchOpts};
use perseus_driver::path::FilePath;

fn project() -> FilePath {
    FilePath {
        spelling: b"/project".to_vec(),
        components: vec![b"/".to_vec(), b"project".to_vec()],
    }
}

fn reload_server() -> Address {
    Address { host: "localhost".to_string(), port: 3100 }
}

fn app_server() -> Address {
    Address { host: "127.0.0.1".to_string(), port: 8080 }
}

fn watching(watch: bool) -> WatchOpts {
    WatchOpts { watch, custom_watch: vec![] }
}

fn opts(subcmd: Subcommand) -> Opts {
    Opts { sequential: false, reload_server: reload_server(), no_browser_reload: false, subcmd }
}

fn delete(artifacts: Artifacts) -> Step {
    Step::DeleteArtifacts(project(), artifacts)
}

fn export(serve: bool) -> Subcommand {
    Subcommand::Export { watching: watching(false), serve, address: app_server() }
}

#[test]
fn builds_and_checks_start_afresh() {
    for (subcmd, task) in [
        (Subcommand::Build(watching(false)), Task::Build),
        (Subcommand::Check(watching(true)), Task::Check),
        (Subcommand::Serve { watching: watching(false), no_build: false }, Task::Serve),
        (Subcommand::Test { watching: watching(false), no_build: false }, Task::Test),
    ] {
        assert_eq!(
            command_steps(&project(), &opts(subcmd)),
            vec![
                Step::CreateDist(project()),
                Step::InstallTools(project()),
                delete(Artifacts::Static),
                delete(Artifacts::Mutable),
                Step::Run(project(), task),
            ]
        );
    }
}

#[test]
fn nothing_is_deleted_without_a_build() {
    for (subcmd, task) in [
        (Subcommand::Serve { watching: watching(false), no_build: true }, Task::Serve),
        (Subcommand::Test { watching: watching(false), no_build: true }, Task::Test),
        (Subcommand::Tinker { no_clean: true }, Task::Tinker),
        (Subcommand::Snoop(SnoopSubcommand::Build(watching(true))), Task::SnoopBuild),
        (Subcommand::Snoop(SnoopSubcommand::WasmBuild(watching(true))), Task::SnoopWasmBuild),
        (Subcommand::Snoop(SnoopSubcommand::Serve(watching(false))), Task::SnoopServe),
        (Subcommand::ExportErrorPage, Task::ExportErrorPage),
    ] {
        assert_eq!(
            command_steps(&project(), &opts(subcmd)),
            vec![
                Step::CreateDist(project()),
                Step::InstallTools(project()),
                Step::Run(project(), task),
            ]
        );
    }
}

#[test]
fn exports_are_served_on_demand() {
    let mut steps = vec![
        Step::CreateDist(project()),
        Step::InstallTools(project()),
        delete(Artifacts::Static),
        delete(Artifacts::Mutable),
        delete(Artifacts::Exported),
        Step::Run(project(), Task::Export),
    ];
    assert_eq!(command_steps(&project(), &opts(export(false))), steps);
    steps.push(Step::OrderReload(reload_server()));
    steps.push(Step::ServeExported(project(), app_server()));
    assert_eq!(command_steps(&project(), &opts(export(true))), steps);
}

#[test]
fn deployments_delete_everything_old() {
    assert_eq!(
        command_steps(&project(), &opts(Subcommand::Deploy)),
        vec![
            Step::CreateDist(project()),
            Step::InstallTools(project()),
            delete(Artifacts::Static),
            delete(Artifacts::Mutable),
            delete(Artifacts::Exported),
            delete(Artifacts::Pkg),
            Step::Run(project(), Task::Deploy),
        ]
    );
}

#[test]
fn new_init_and_clean_need_no_tools() {
    assert_eq!(
        command_steps(&project(), &opts(Subcommand::New)),
        vec![Step::Run(project(), Task::New)]
    );
    assert_eq!(
        command_steps(&project(), &opts(Subcommand::Init)),
        vec![Step::Run(project(), Task::Init)]
    );
    assert_eq!(
        command_steps(&project(), &opts(Subcommand::Clean)),
        vec![Step::DeleteDist(project()), Step::Notify(Notice::ArtifactsDeleted)]
    );
}

#[test]
fn tinkering_starts_with_a_blank_slate() {
    assert_eq!(
        command_steps(&project(), &opts(Subcommand::Tinker { no_clean: false })),
        vec![
            Step::CreateDist(project()),
            Step::InstallTools(project()),
            Step::DeleteDist(project()),
            Step::Run(project(), Task::Tinker),
        ]
    );
}

#[test]
fn watching_a_snooping_server_is_warned_of() {
    assert_eq!(
        command_steps(&project(), &opts(Subcommand::Snoop(SnoopSubcommand::Serve(watching(true))))),
        vec![
            Step::CreateDist(project()),
            Step::InstallTools(project()),
            Step::Notify(Notice::SnoopServeWatched),
            Step::Run(project(), Task::SnoopServe),
        ]
    );
}

fn execute(
    subcmd: Subcommand,
    replies: Vec<StepReply<&'static str>>,
) -> (usize, Option<Result<i32, &'static str>>) {
    let mut execution = Execution::new(&project(), &opts(subcmd));
    let mut taken: usize = 0;
    for reply in replies {
        if execution.current().is_some() {
            taken += 1;
        }
        execution = execution.handle(reply);
    }
    (taken, execution.into_result())
}

#[test]
fn an_exit_code_is_passed_on() {
    let replies = vec![
        StepReply::Done,
        StepReply::Done,
        StepReply::Done,
        StepReply::Done,
        StepReply::Exited(101),
    ];
    assert_eq!(execute(Subcommand::Build(watching(false)), replies), (5, Some(Ok(101))));
}

#[test]
fn a_failed_export_is_not_served() {
    let replies = vec![
        StepReply::Done,
        StepReply::Done,
        StepReply::Done,
        StepReply::Done,
        StepReply::Done,
        StepReply::Exited(2),
        StepReply::Done,
        StepReply::Exited(0),
    ];
    assert_eq!(execute(export(true), replies), (6, Some(Ok(2))));
}

#[test]
fn a_served_export_ends_with_the_server() {
    let mut execution: Execution<&'static str> = Execution::new(&project(), &opts(export(true)));
    let mut steps: usize = 0;
    while let Some(step) = execution.current() {
        steps += 1;
        execution = execution.handle(match step {
            Step::Run(..) => StepReply::Exited(0),
            Step::ServeExported(dir, address) => {
                assert_eq!(dir, project());
                assert_eq!(address, app_server());
                StepReply::Exited(7)
            }
            _ => StepReply::Done,
        });
    }
    assert_eq!(steps, 8);
    assert_eq!(execution.into_result(), Some(Ok(7)));
}

#[test]
fn the_first_failure_ends_a_command() {
    let replies = vec![StepReply::Done, StepReply::Failed("no network"), StepReply::Done];
    assert_eq!(execute(Subcommand::Deploy, replies), (2, Some(Err("no network"))));
}

#[test]
fn cleaning_ends_with_zero() {
    let replies = vec![StepReply::Done, StepReply::Done];
    assert_eq!(execute(Subcommand::Clean, replies), (2, Some(Ok(0))));
    assert_eq!(execute(Subcommand::Clean, vec![StepReply::Done]), (1, None));
}

#[test]
fn every_step_acts_in_the_given_directory() {
    let elsewhere = || FilePath {
        spelling: b"/elsewhere".to_vec(),
        components: vec![b"/".to_vec(), b"elsewhere".to_vec()],
    };
    assert_eq!(
        command_steps(&elsewhere(), &opts(export(true))),
        vec![
            Step::CreateDist(elsewhere()),
            Step::InstallTools(elsewhere()),
            Step::DeleteArtifacts(elsewhere(), Artifacts::Static),
            Step::DeleteArtifacts(elsewhere(), Artifacts::Mutable),
            Step::DeleteArtifacts(elsewhere(), Artifacts::Exported),
            Step::Run(elsewhere(), Task::Export),
            Step::OrderReload(reload_server()),
            Step::ServeExported(elsewhere(), app_server()),
        ]
    );
    assert_eq!(
        command_steps(&elsewhere(), &opts(Subcommand::Clean)),
        vec![Step::DeleteDist(elsewhere()), Step::Notify(Notice::ArtifactsDeleted)]
    );
}

#[test]
fn names_and_notices() {
    assert_eq!(Artifacts::Static.name(), "static");
    assert_eq!(Artifacts::Mutable.name(), "mutable");
    assert_eq!(Artifacts::Exported.name(), "exported");
    assert_eq!(Artifacts::Pkg.name(), "pkg");
    assert_eq!(Artifacts::Tools.name(), "tools");
    assert!(Notice::Sequential.text().starts_with("Note: the Perseus CLI is running"));
    assert_eq!(
        Notice::ArtifactsDeleted.text(),
        "[NOTE]: Build artifacts have been deleted, the next run will take some time."
    );
    assert!(Notice::SnoopServeWatched.text().starts_with("[WARNING]: Watching `snoop serve`"));
    assert!(!Notice::Sequential.on_error_stream());
    assert!(Notice::ArtifactsDeleted.on_error_stream());
    assert!(Notice::SnoopServeWatched.on_error_stream());
}
