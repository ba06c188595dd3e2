//! The command line, as far as decisions depend on it.
use vstd::prelude::*;

verus! {

/// Where a server listens.
#[derive(Debug, PartialEq, Eq)]
pub struct Address {
    pub host: String,
    pub port: u16,
}

impl View for Address {
    type V = (Seq<char>, u16);

    open spec fn view(&self) -> (Seq<char>, u16) {
        (self.host@, self.port)
    }
}

impl Address {
    /// A copy of the address.
    pub fn duplicate(&self) -> (copy: Address)
        ensures
            copy@ == self@,
    {
        Address { host: self.host.clone(), port: self.port }
    }
}

/// Whether a command is to be repeated on every change, and which paths the user
/// named for that.
#[derive(Debug, PartialEq, Eq)]
pub struct WatchOpts {
    pub watch: bool,
    pub custom_watch: Vec<String>,
}

/// What can be asked of the snooping tools.
#[derive(Debug, PartialEq, Eq)]
pub enum SnoopSubcommand {
    Build(WatchOpts),
    WasmBuild(WatchOpts),
    Serve(WatchOpts),
}

/// What the user asked for.
#[derive(Debug, PartialEq, Eq)]
pub enum Subcommand {
    Build(WatchOpts),
    Export {
        watching: WatchOpts,
        /// Whether the exported app is to be served.
        serve: bool,
        /// Where it is to be served.
        address: Address,
    },
    Serve {
        watching: WatchOpts,
        /// Whether to serve what was built before.
        no_build: bool,
    },
    Test {
        watching: WatchOpts,
        /// Whether to test what was built before.
        no_build: bool,
    },
    Clean,
    Deploy,
    Tinker {
        /// Whether to keep what earlier tinkering left behind.
        no_clean: bool,
    },
    Snoop(SnoopSubcommand),
    ExportErrorPage,
    New,
    Init,
    Check(WatchOpts),
}

/// The whole command line.
#[derive(Debug, PartialEq, Eq)]
pub struct Opts {
    /// Whether to run on a single thread.
    pub sequential: bool,
    /// Where browsers are told to reload.
    pub reload_server: Address,
    /// Whether to leave open browsers alone.
    pub no_browser_reload: bool,
    pub subcmd: Subcommand,
}

impl Subcommand {
    /// The watching options of a command that can be watched.
    pub open spec fn watching(self) -> Option<WatchOpts> {
        match self {
            Subcommand::Build(watching) => Some(watching),
            Subcommand::Export { watching, .. } => Some(watching),
            Subcommand::Serve { watching, .. } => Some(watching),
            Subcommand::Test { watching, .. } => Some(watching),
            Subcommand::Snoop(SnoopSubcommand::Build(watching)) => Some(watching),
            Subcommand::Snoop(SnoopSubcommand::WasmBuild(watching)) => Some(watching),
            Subcommand::Snoop(SnoopSubcommand::Serve(watching)) => Some(watching),
            Subcommand::Check(watching) => Some(watching),
            _ => None,
        }
    }

    /// The watching options of a command that can be watched.
    pub fn watch_opts(&self) -> (watching: Option<&WatchOpts>)
        ensures
            watching == (match self.watching() {
                Some(watching) => Some(&watching),
                None => None,
            }),
    {
        match self {
            Subcommand::Build(watching) => Some(watching),
            Subcommand::Export { watching, .. } => Some(watching),
            Subcommand::Serve { watching, .. } => Some(watching),
            Subcommand::Test { watching, .. } => Some(watching),
            Subcommand::Snoop(SnoopSubcommand::Build(watching)) => Some(watching),
            Subcommand::Snoop(SnoopSubcommand::WasmBuild(watching)) => Some(watching),
            Subcommand::Snoop(SnoopSubcommand::Serve(watching)) => Some(watching),
            Subcommand::Check(watching) => Some(watching),
            _ => None,
        }
    }
}

} // verus!
