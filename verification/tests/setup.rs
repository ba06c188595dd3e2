use perseus_driver::errors::{Subject, WatchError};
use perseus_driver::opts::Address;
use perseus_driver::path::FilePath;
use perseus_driver::setup::{is_excluding, watched_name, Action, Reply, Setup};
use perseus_driver::supervise::{child_command, ChildCommand, Duty};

fn path(text: &str) -> FilePath {
    FilePath {
        spelling: text.as_bytes().to_vec(),
        components: text.split('/').map(|c| c.as_bytes().to_vec()).collect(),
    }
}

fn texts(list: &[&str]) -> Vec<String> {
    list.iter().map(|s| s.to_string()).collect()
}

fn copy() -> ChildCommand {
    child_command(path("/bin/perseus"), texts(&["perseus", "build", "-w"]), false)
}

fn server() -> Address {
    Address { host: "localhost".to_string(), port: 3100 }
}

/// Holds a setup to a script of actions and what is replied to them.
fn follow(
    mut setup: Setup<&'static str>,
    script: Vec<(Action, Reply<&'static str>)>,
) -> Option<Result<ChildCommand, WatchError<&'static str>>> {
    for (action, reply) in script {
        assert_eq!(setup.action(), action);
        setup = setup.handle(reply);
    }
    assert_eq!(setup.action(), Action::Stop);
    setup.into_result()
}

fn prepared() -> Vec<(Action, Reply<&'static str>)> {
    vec![
        (Action::InstallHandler, Reply::Done),
        (Action::LocateSelf, Reply::Located(copy())),
        (Action::CreateWatcher, Reply::Done),
    ]
}

fn plus(
    mut first: Vec<(Action, Reply<&'static str>)>,
    second: Vec<(Action, Reply<&'static str>)>,
) -> Vec<(Action, Reply<&'static str>)> {
    first.extend(second);
    first
}

#[test]
fn a_leading_mark_excludes() {
    assert!(is_excluding(&"!target".to_string()));
    assert!(!is_excluding(&"src".to_string()));
    assert!(!is_excluding(&"src!".to_string()));
    assert!(!is_excluding(&"".to_string()));
    assert_eq!(watched_name(&"!target".to_string()), "target");
    assert_eq!(watched_name(&"src".to_string()), "src");
    assert_eq!(watched_name(&"".to_string()), "");
}

#[test]
fn only_one_mark_is_taken_off() {
    assert_eq!(watched_name(&"!!odd".to_string()), "!odd");
    assert_eq!(watched_name(&"!".to_string()), "");
    assert_eq!(watched_name(&"!\u{e9}t\u{e9}".to_string()), "\u{e9}t\u{e9}");
}

#[test]
fn watches_the_files_of_the_current_directory() {
    let script = plus(
        prepared(),
        vec![
            (Action::ListCurrentDir, Reply::Done),
            (Action::NextEntry, Reply::Entry("Cargo.toml".to_string(), path("./Cargo.toml"))),
            (Action::Resolve(path("./Cargo.toml")), Reply::Resolved(path("/app/Cargo.toml"))),
            (Action::Probe(path("/app/Cargo.toml")), Reply::Directory(false)),
            (Action::Watch(path("/app/Cargo.toml")), Reply::Done),
            (Action::NextEntry, Reply::Entry("src".to_string(), path("./src"))),
            (Action::Resolve(path("./src")), Reply::Resolved(path("/app/src"))),
            (Action::Probe(path("/app/src")), Reply::Directory(true)),
            (Action::OpenTree(path("/app/src")), Reply::Done),
            (Action::NextInTree, Reply::Walked(path("/app/src"))),
            (Action::Probe(path("/app/src")), Reply::Directory(true)),
            (Action::NextInTree, Reply::Walked(path("/app/src/link.rs"))),
            (Action::Probe(path("/app/src/link.rs")), Reply::Directory(false)),
            (Action::Resolve(path("/app/src/link.rs")), Reply::Resolved(path("/lib/real.rs"))),
            (Action::Watch(path("/lib/real.rs")), Reply::Done),
            (Action::NextInTree, Reply::Exhausted),
            (Action::NextEntry, Reply::Exhausted),
        ],
    );
    assert_eq!(follow(Setup::new(vec![], None, vec![]), script), Some(Ok(copy())));
}

#[test]
fn passes_names_over_at_the_top_level_only() {
    let script = plus(
        prepared(),
        vec![
            (Action::ListCurrentDir, Reply::Done),
            (Action::NextEntry, Reply::Entry("target".to_string(), path("./target"))),
            (Action::NextEntry, Reply::Entry("src".to_string(), path("./src"))),
            (Action::Resolve(path("./src")), Reply::Resolved(path("/app/src"))),
            (Action::Probe(path("/app/src")), Reply::Directory(true)),
            (Action::OpenTree(path("/app/src")), Reply::Done),
            (Action::NextInTree, Reply::Walked(path("/app/src/target"))),
            (Action::Probe(path("/app/src/target")), Reply::Directory(false)),
            (
                Action::Resolve(path("/app/src/target")),
                Reply::Resolved(path("/app/src/target")),
            ),
            (Action::Watch(path("/app/src/target")), Reply::Done),
            (Action::NextInTree, Reply::Exhausted),
            (Action::NextEntry, Reply::Exhausted),
        ],
    );
    let setup = Setup::new(vec![], None, texts(&["dist", "target"]));
    assert_eq!(follow(setup, script), Some(Ok(copy())));
}

#[test]
fn never_watches_an_excluded_file() {
    let script = plus(
        plus(
            vec![
                (
                    Action::ResolveName("notes".to_string()),
                    Reply::Resolved(path("/app/notes")),
                ),
                (Action::ResolveName("a.txt".to_string()), Reply::Resolved(path("/app/a.txt"))),
            ],
            prepared(),
        ),
        vec![
            (Action::Probe(path("/app/notes")), Reply::Directory(true)),
            (Action::OpenTree(path("/app/notes")), Reply::Done),
            (Action::NextInTree, Reply::Walked(path("/app/notes"))),
            (Action::NextInTree, Reply::Walked(path("/app/notes/x"))),
            (Action::NextInTree, Reply::Exhausted),
            (Action::Probe(path("/app/a.txt")), Reply::Directory(false)),
            (Action::ListCurrentDir, Reply::Done),
            (Action::NextEntry, Reply::Entry("a.txt".to_string(), path("./a.txt"))),
            (Action::Resolve(path("./a.txt")), Reply::Resolved(path("/app/a.txt"))),
            (Action::Probe(path("/app/a.txt")), Reply::Directory(false)),
            (Action::NextEntry, Reply::Entry("notes".to_string(), path("./notes"))),
            (Action::Resolve(path("./notes")), Reply::Resolved(path("/app/notes"))),
            (Action::Probe(path("/app/notes")), Reply::Directory(true)),
            (Action::OpenTree(path("/app/notes")), Reply::Done),
            (Action::NextInTree, Reply::Walked(path("/app/notes/x"))),
            (Action::Probe(path("/app/notes/x")), Reply::Directory(false)),
            (Action::Resolve(path("/app/notes/x")), Reply::Resolved(path("/app/notes/x"))),
            (Action::NextInTree, Reply::Walked(path("/app/notes/new"))),
            (Action::Probe(path("/app/notes/new")), Reply::Directory(false)),
            (Action::Resolve(path("/app/notes/new")), Reply::Resolved(path("/app/notes/new"))),
            (Action::Watch(path("/app/notes/new")), Reply::Done),
            (Action::NextInTree, Reply::Exhausted),
            (Action::NextEntry, Reply::Exhausted),
        ],
    );
    let setup = Setup::new(texts(&["!notes", "!a.txt"]), None, vec![]);
    assert_eq!(follow(setup, script), Some(Ok(copy())));
}

#[test]
fn watches_extra_entries_last() {
    let script = plus(
        plus(
            vec![
                (Action::ResolveName("../lib".to_string()), Reply::Resolved(path("/lib"))),
                (Action::ResolveName("skip".to_string()), Reply::Resolved(path("/app/skip"))),
                (Action::ResolveName("../one".to_string()), Reply::Resolved(path("/one"))),
            ],
            prepared(),
        ),
        vec![
            (Action::Probe(path("/app/skip")), Reply::Directory(false)),
            (Action::ListCurrentDir, Reply::Done),
            (Action::NextEntry, Reply::Exhausted),
            (Action::Probe(path("/lib")), Reply::Directory(true)),
            (Action::OpenTree(path("/lib")), Reply::Done),
            (Action::NextInTree, Reply::Walked(path("/lib/to_skip"))),
            (Action::Probe(path("/lib/to_skip")), Reply::Directory(false)),
            (Action::Resolve(path("/lib/to_skip")), Reply::Resolved(path("/app/skip"))),
            (Action::NextInTree, Reply::Exhausted),
            (Action::Probe(path("/one")), Reply::Directory(false)),
            (Action::Watch(path("/one")), Reply::Done),
        ],
    );
    let setup = Setup::new(texts(&["../lib", "!skip", "../one"]), None, vec![]);
    assert_eq!(follow(setup, script), Some(Ok(copy())));
}

#[test]
fn installs_the_handler_before_it_starts_the_server() {
    let script = vec![
        (Action::InstallHandler, Reply::Done),
        (Action::StartReloadServer(server()), Reply::Done),
        (Action::LocateSelf, Reply::Located(copy())),
        (Action::CreateWatcher, Reply::Done),
        (Action::ListCurrentDir, Reply::Done),
        (Action::NextEntry, Reply::Exhausted),
    ];
    assert_eq!(follow(Setup::new(vec![], Some(server()), vec![]), script), Some(Ok(copy())));
}

#[test]
fn unresolved_custom_entries_are_named_as_written() {
    let script = vec![(Action::ResolveName("gone".to_string()), Reply::Failed("no such file"))];
    let error = WatchError::WatchFileNotResolved {
        filename: Subject::Named("gone".to_string()),
        source: "no such file",
    };
    let setup = Setup::new(texts(&["!gone"]), None, vec![]);
    assert_eq!(follow(setup, script), Some(Err(error)));
}

#[test]
fn the_program_and_the_watcher_must_be_there() {
    let lost = vec![
        (Action::InstallHandler, Reply::Done),
        (Action::LocateSelf, Reply::Failed("lost")),
    ];
    assert_eq!(
        follow(Setup::new(vec![], None, vec![]), lost),
        Some(Err(WatchError::GetSelfPathFailed { source: "lost" }))
    );
    let blind = vec![
        (Action::InstallHandler, Reply::Done),
        (Action::LocateSelf, Reply::Located(copy())),
        (Action::CreateWatcher, Reply::Failed("blind")),
    ];
    assert_eq!(
        follow(Setup::new(vec![], None, vec![]), blind),
        Some(Err(WatchError::WatcherSetupFailed { source: "blind" }))
    );
}

#[test]
fn unreadable_directories_end_the_setup() {
    let list = plus(prepared(), vec![(Action::ListCurrentDir, Reply::Failed("shut"))]);
    assert_eq!(
        follow(Setup::new(vec![], None, vec![]), list),
        Some(Err(WatchError::ReadCurrentDirFailed { source: "shut" }))
    );
    let entry = plus(
        prepared(),
        vec![
            (Action::ListCurrentDir, Reply::Done),
            (Action::NextEntry, Reply::Failed("torn")),
        ],
    );
    assert_eq!(
        follow(Setup::new(vec![], None, vec![]), entry),
        Some(Err(WatchError::ReadDirEntryFailed { source: "torn" }))
    );
    let tree = plus(
        plus(
            vec![(Action::ResolveName("x".to_string()), Reply::Resolved(path("/x")))],
            prepared(),
        ),
        vec![
            (Action::Probe(path("/x")), Reply::Directory(true)),
            (Action::OpenTree(path("/x")), Reply::Done),
            (Action::NextInTree, Reply::Failed("loop")),
        ],
    );
    assert_eq!(
        follow(Setup::new(texts(&["!x"]), None, vec![]), tree),
        Some(Err(WatchError::ReadCustomDirEntryFailed { source: "loop" }))
    );
}

#[test]
fn unresolved_and_unwatchable_files_end_the_setup() {
    let start = plus(
        prepared(),
        vec![
            (Action::ListCurrentDir, Reply::Done),
            (Action::NextEntry, Reply::Entry("a".to_string(), path("./a"))),
        ],
    );
    let unresolved = plus(start, vec![(Action::Resolve(path("./a")), Reply::Failed("gone"))]);
    assert_eq!(
        follow(Setup::new(vec![], None, vec![]), unresolved),
        Some(Err(WatchError::WatchFileNotResolved {
            filename: Subject::At(path("./a")),
            source: "gone"
        }))
    );
    let unwatchable = plus(
        prepared(),
        vec![
            (Action::ListCurrentDir, Reply::Done),
            (Action::NextEntry, Reply::Entry("a".to_string(), path("./a"))),
            (Action::Resolve(path("./a")), Reply::Resolved(path("/app/a"))),
            (Action::Probe(path("/app/a")), Reply::Directory(false)),
            (Action::Watch(path("/app/a")), Reply::Failed("too many")),
        ],
    );
    assert_eq!(
        follow(Setup::new(vec![], None, vec![]), unwatchable),
        Some(Err(WatchError::WatchFileFailed {
            filename: Subject::At(path("/app/a")),
            source: "too many"
        }))
    );
}

#[test]
fn a_file_that_is_spelled_otherwise_is_excluded_too() {
    let respelled = || FilePath { spelling: b"/app/./a".to_vec(), ..path("/app/a") };
    let script = plus(
        plus(
            vec![(Action::ResolveName("a".to_string()), Reply::Resolved(respelled()))],
            prepared(),
        ),
        vec![
            (Action::Probe(respelled()), Reply::Directory(false)),
            (Action::ListCurrentDir, Reply::Done),
            (Action::NextEntry, Reply::Entry("a".to_string(), path("./a"))),
            (Action::Resolve(path("./a")), Reply::Resolved(path("/app/a"))),
            (Action::Probe(path("/app/a")), Reply::Directory(false)),
            (Action::NextEntry, Reply::Exhausted),
        ],
    );
    let setup = Setup::new(texts(&["!a"]), None, vec![]);
    assert_eq!(follow(setup, script), Some(Ok(copy())));
}

#[test]
fn a_finished_setup_hands_its_command_over() {
    let script = plus(
        prepared(),
        vec![(Action::ListCurrentDir, Reply::Done), (Action::NextEntry, Reply::Exhausted)],
    );
    let mut setup: Setup<&'static str> = Setup::new(vec![], None, vec![]);
    for (action, reply) in script {
        assert_eq!(setup.action(), action);
        setup = setup.handle(reply);
    }
    match setup.into_supervisor() {
        Some(Ok(supervisor)) => {
            assert_eq!(supervisor.command(), &copy());
            assert_eq!(supervisor.duty(), Duty::Spawn);
        }
        _ => panic!("the setup ended well"),
    }
    let failed: Setup<&'static str> = Setup::new(vec![], None, vec![]);
    let failed = failed.handle(Reply::Done).handle(Reply::Failed("lost"));
    assert!(matches!(
        failed.into_supervisor(),
        Some(Err(WatchError::GetSelfPathFailed { source: "lost" }))
    ));
    let unfinished: Setup<&'static str> = Setup::new(vec![], None, vec![]);
    assert!(unfinished.into_supervisor().is_none());
}

#[test]
fn replies_out_of_turn_change_nothing() {
    let setup: Setup<&'static str> = Setup::new(vec![], None, vec![]);
    let setup = setup.handle(Reply::Exhausted).handle(Reply::Directory(true));
    assert_eq!(setup.action(), Action::InstallHandler);
    assert!(setup.into_result().is_none());
}
