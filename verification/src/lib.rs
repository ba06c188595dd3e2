//! The decisions behind the `perseus` command line.
//!
//! Everything that touches the outside world (files, processes, signals, the
//! terminal) is left to the program around this library: it performs the
//! actions that the state machines here ask for, and hands back what happened.
//!
//! - [`session`]: a whole run, from the current directory to the exit code;
//! - [`launch`]: whether a command is watched or carried out once, and what follows;
//! - [`dispatch`]: the steps of a command that is carried out;
//! - [`setup`]: which files are watched;
//! - [`supervise`]: restarting the command on every change.
//!
//! What can be relied on of each of them stands beside it, in the modules of
//! laws.
pub mod cache;
pub mod dispatch;
pub mod dispatch_laws;
pub mod errors;
pub mod exclusion_laws;
pub mod launch;
pub mod launch_laws;
pub mod opts;
pub mod path;
pub mod plan_laws;
pub mod session;
pub mod session_laws;
pub mod setup;
pub mod setup_laws;
pub mod setup_run;
pub mod supervise;
pub mod text;
pub mod value_laws;
pub mod watch_laws;
