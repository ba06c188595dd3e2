use perseus_driver::cache::{cached_tools, tools_below, tools_in};
use perseus_driver::path::{EntryPath, FilePath};
use perseus_driver::session::{
    exit_status, startup_dir, startup_variable, Errand, News, Report, Session,
};

fn project() -> FilePath {
    FilePath {
        spelling: b"/project".to_vec(),
        components: vec![b"/".to_vec(), b"project".to_vec()],
    }
}

fn cache() -> FilePath {
    FilePath { spelling: b"/./cache".to_vec(), components: vec![b"/".to_vec(), b"cache".to_vec()] }
}

fn shared() -> EntryPath {
    EntryPath { dir: cache(), name: "tools".to_string() }
}

/// Holds a run to a script, and gives what the user was told and the exit code.
fn play(script: Vec<(Errand, News<&'static str>)>) -> (Vec<Report<&'static str>>, i32) {
    let mut session = Session::new();
    let mut told = vec![];
    for (errand, news) in script {
        assert_eq!(session.errand(), errand);
        let (next, reports) = session.handle(news);
        session = next;
        told.extend(reports);
    }
    match session.errand() {
        Errand::Exit(code) => (told, code),
        other => panic!("the run goes on: {:?}", other),
    }
}

fn install_failure() -> Vec<(Errand, News<&'static str>)> {
    vec![
        (Errand::FindCurrentDir, News::Found(project())),
        (
            Errand::RunCommand(project()),
            News::CommandFailed { install: true, error: "bad download" },
        ),
    ]
}

#[test]
fn the_exit_code_of_the_command_is_passed_on() {
    let script = vec![
        (Errand::FindCurrentDir, News::Found(project())),
        (Errand::RunCommand(project()), News::Exited(101)),
    ];
    assert_eq!(play(script), (vec![], 101));
}

#[test]
fn without_a_directory_nothing_runs() {
    let script = vec![(Errand::FindCurrentDir, News::Failed("deleted"))];
    assert_eq!(play(script), (vec![Report::CurrentDirUnavailable("deleted")], 1));
}

#[test]
fn ordinary_failures_delete_nothing() {
    let script = vec![
        (Errand::FindCurrentDir, News::Found(project())),
        (Errand::RunCommand(project()), News::CommandFailed { install: false, error: "broken" }),
    ];
    assert_eq!(play(script), (vec![Report::CommandFailed("broken")], 1));
}

#[test]
fn both_kinds_of_tools_are_deleted() {
    let mut script = install_failure();
    script.push((Errand::DeleteLocalTools(project()), News::Done));
    script.push((Errand::LocateSharedTools, News::Located(Some(shared()))));
    script.push((Errand::Probe(shared()), News::Exists(true)));
    script.push((Errand::RemoveTree(shared()), News::Done));
    assert_eq!(play(script), (vec![Report::CommandFailed("bad download")], 1));
}

#[test]
fn a_failed_clean_up_goes_on_and_is_told() {
    let mut script = install_failure();
    script.push((Errand::DeleteLocalTools(project()), News::Failed("in use")));
    script.push((Errand::LocateSharedTools, News::Located(Some(shared()))));
    script.push((Errand::Probe(shared()), News::Exists(true)));
    script.push((Errand::RemoveTree(shared()), News::Failed("read-only")));
    assert_eq!(
        play(script),
        (
            vec![
                Report::LocalToolsNotDeleted("in use"),
                Report::RemoveArtifactsFailed { target: shared(), source: "read-only" },
                Report::CommandFailed("bad download"),
            ],
            1
        )
    );
}

#[test]
fn shared_tools_need_not_be_there() {
    let mut script = install_failure();
    script.push((Errand::DeleteLocalTools(project()), News::Done));
    script.push((Errand::LocateSharedTools, News::Located(None)));
    assert_eq!(play(script), (vec![Report::CommandFailed("bad download")], 1));
    let mut script = install_failure();
    script.push((Errand::DeleteLocalTools(project()), News::Done));
    script.push((Errand::LocateSharedTools, News::Located(Some(shared()))));
    script.push((Errand::Probe(shared()), News::Exists(false)));
    assert_eq!(play(script), (vec![Report::CommandFailed("bad download")], 1));
}

#[test]
fn news_out_of_turn_change_nothing() {
    let (session, told) = Session::<&'static str>::new().handle(News::Exists(true));
    assert!(told.is_empty());
    assert_eq!(session.errand(), Errand::FindCurrentDir);
    let (session, _) = session.handle(News::Found(project()));
    let (session, told) = session.handle(News::Found(cache()));
    assert!(told.is_empty());
    assert_eq!(session.errand(), Errand::RunCommand(project()));
}

#[test]
fn exit_codes_that_do_not_fit_are_failures() {
    assert_eq!(exit_status(0), 0);
    assert_eq!(exit_status(101), 101);
    assert_eq!(exit_status(255), 255);
    assert_eq!(exit_status(256), 1);
    assert_eq!(exit_status(-1), 1);
    assert_eq!(exit_status(i32::MIN), 1);
}

#[test]
fn examples_are_run_during_development_only() {
    let named = Some("examples/core/basic".to_string());
    assert_eq!(startup_dir(true, named.clone()), named);
    assert_eq!(startup_dir(true, None), None);
    assert_eq!(startup_dir(false, named), None);
    assert_eq!(startup_variable(true), Some("TEST_EXAMPLE"));
    assert_eq!(startup_variable(false), None);
}

#[test]
fn tools_lie_below_the_cache() {
    assert_eq!(tools_below(cache()), shared());
}

#[test]
fn there_are_shared_tools_where_there_is_a_cache() {
    assert_eq!(tools_in(Some(cache())), Some(shared()));
    assert_eq!(tools_in(None), None);
}

#[test]
fn the_cache_is_that_of_this_program() {
    let expected = directories::ProjectDirs::from("", "perseus", "perseus_cli");
    let found = cached_tools();
    assert_eq!(found.is_some(), expected.is_some());
    if let (Some(tools), Some(dirs)) = (found, expected) {
        let dir = dirs.cache_dir();
        assert_eq!(tools.name, "tools");
        assert_eq!(tools.dir.spelling, dir.as_os_str().as_encoded_bytes().to_vec());
        let components = dir.components().map(|c| c.as_os_str().as_encoded_bytes().to_vec());
        assert_eq!(tools.dir.components, components.collect::<Vec<_>>());
        let cache = &tools.dir.components;
        let spelling = &tools.dir.spelling;
        let names: Vec<Vec<u8>> =
            vec![b"perseus".to_vec(), b"perseus_cli".to_vec(), b"cache".to_vec()];
        let on_linux = cache.ends_with(&names[1..2]) && spelling.ends_with(b"perseus_cli");
        let on_macos = cache.ends_with(&[b"perseus.perseus_cli".to_vec()])
            && spelling.ends_with(b"perseus.perseus_cli");
        let on_windows =
            cache.ends_with(&names) && spelling.ends_with(b"perseus\\perseus_cli\\cache");
        assert!(on_linux || on_macos || on_windows);
    }
}
