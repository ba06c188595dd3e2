use perseus_driver::errors::WatchError;
use perseus_driver::path::FilePath;
use perseus_driver::supervise::{
    child_command, Duty, Event, Outcome, Supervisor, TEST_EXAMPLE, USE_RELOAD_SERVER,
    WATCHING_PROHIBITED,
};

fn program() -> FilePath {
    FilePath {
        spelling: b"/perseus".to_vec(),
        components: vec![b"/".to_vec(), b"perseus".to_vec()],
    }
}

fn arguments() -> Vec<String> {
    vec!["perseus".to_string(), "serve".to_string(), "-w".to_string()]
}

fn supervisor() -> Supervisor<&'static str> {
    Supervisor::new(child_command(program(), arguments(), false))
}

#[test]
fn a_copy_gets_the_arguments_and_may_not_watch() {
    let command = child_command(program(), arguments(), false);
    assert_eq!(command.program, program());
    assert_eq!(command.args, vec!["serve".to_string(), "-w".to_string()]);
    assert_eq!(
        command.set,
        vec![
            ("PERSEUS_WATCHING_PROHIBITED".to_string(), "true".to_string()),
            ("PERSEUS_USE_RELOAD_SERVER".to_string(), "true".to_string()),
        ]
    );
    assert!(command.unset.is_empty());
    assert_eq!(WATCHING_PROHIBITED, "PERSEUS_WATCHING_PROHIBITED");
    assert_eq!(USE_RELOAD_SERVER, "PERSEUS_USE_RELOAD_SERVER");
}

#[test]
fn a_copy_stays_in_its_directory_during_development() {
    let command = child_command(program(), vec!["perseus".to_string()], true);
    assert!(command.args.is_empty());
    assert_eq!(command.unset, vec!["TEST_EXAMPLE".to_string()]);
    assert_eq!(TEST_EXAMPLE, "TEST_EXAMPLE");
}

#[test]
fn a_change_restarts_the_copy() {
    let watching = supervisor();
    assert_eq!(watching.command().args, vec!["serve".to_string(), "-w".to_string()]);
    assert_eq!(watching.duty(), Duty::Spawn);
    let watching = watching.handle(Outcome::Done);
    assert_eq!(watching.duty(), Duty::Await);
    let watching = watching.handle(Outcome::Arrived(Event::Reload));
    assert_eq!(watching.duty(), Duty::Kill);
    let watching = watching.handle(Outcome::Done);
    assert_eq!(watching.duty(), Duty::Spawn);
    let watching = watching.handle(Outcome::Done);
    assert_eq!(watching.duty(), Duty::Await);
    assert!(watching.into_result().is_none());
}

#[test]
fn termination_kills_the_copy_and_ends_with_zero() {
    let watching = supervisor().handle(Outcome::Done).handle(Outcome::Arrived(Event::Terminate));
    assert_eq!(watching.duty(), Duty::Kill);
    let watching = watching.handle(Outcome::Done);
    assert_eq!(watching.duty(), Duty::Stop);
    assert_eq!(watching.into_result(), Some(Ok(0)));
}

#[test]
fn a_kill_that_fails_makes_no_difference() {
    let watching = supervisor()
        .handle(Outcome::Done)
        .handle(Outcome::Arrived(Event::Reload))
        .handle(Outcome::Failed("no such process"));
    assert_eq!(watching.duty(), Duty::Spawn);
    let watching = watching
        .handle(Outcome::Done)
        .handle(Outcome::Arrived(Event::Terminate))
        .handle(Outcome::Failed("no such process"));
    assert_eq!(watching.duty(), Duty::Stop);
    assert_eq!(watching.into_result(), Some(Ok(0)));
}

#[test]
fn a_copy_that_cannot_be_started_ends_watching() {
    let watching = supervisor().handle(Outcome::Failed("no memory"));
    assert_eq!(
        watching.into_result(),
        Some(Err(WatchError::SpawnSelfFailed { source: "no memory" }))
    );
    let watching = supervisor()
        .handle(Outcome::Done)
        .handle(Outcome::Arrived(Event::Reload))
        .handle(Outcome::Done)
        .handle(Outcome::Failed("no memory"));
    assert_eq!(
        watching.into_result(),
        Some(Err(WatchError::SpawnSelfFailed { source: "no memory" }))
    );
}

#[test]
fn without_events_watching_ends() {
    let watching = supervisor().handle(Outcome::Done).handle(Outcome::Failed("closed"));
    assert_eq!(watching.duty(), Duty::Stop);
    assert_eq!(
        watching.into_result(),
        Some(Err(WatchError::WatcherError { source: "closed" }))
    );
}

#[test]
fn outcomes_out_of_turn_change_nothing() {
    let watching = supervisor().handle(Outcome::Arrived(Event::Terminate));
    assert_eq!(watching.duty(), Duty::Spawn);
    let watching = watching.handle(Outcome::Done).handle(Outcome::Done);
    assert_eq!(watching.duty(), Duty::Await);
}
