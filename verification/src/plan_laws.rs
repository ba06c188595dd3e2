//! What can be relied on of the steps of every command, command by command.
use crate::dispatch::{plan, Artifacts, Notice, StepView, Task};
use crate::opts::{SnoopSubcommand, Subcommand};
use crate::path::PathView;
use vstd::prelude::*;

verus! {

/// Whether the step `step` stands exactly once in a plan, and no other step of the
/// kind that `alike` tells.
pub open spec fn only(
    steps: Seq<StepView>,
    step: StepView,
    alike: spec_fn(StepView) -> bool,
) -> bool {
    exists|k: int|
        #![trigger steps[k]]
        0 <= k < steps.len() && steps[k] == step && (forall|j: int|
            0 <= j < steps.len() && alike(#[trigger] steps[j]) ==> j == k)
}

/// Every command but cleaning up does its own work, exactly once and in the given
/// directory, whatever its options are. Cleaning up does no other work.
pub proof fn every_command_does_its_own_work(
    dir: PathView,
    subcmd: Subcommand,
    reload: (Seq<char>, u16),
    task: Task,
)
    requires
        match subcmd {
            Subcommand::Build(_) => task == Task::Build,
            Subcommand::Export { .. } => task == Task::Export,
            Subcommand::Serve { .. } => task == Task::Serve,
            Subcommand::Test { .. } => task == Task::Test,
            Subcommand::Clean => false,
            Subcommand::Deploy => task == Task::Deploy,
            Subcommand::Tinker { .. } => task == Task::Tinker,
            Subcommand::Snoop(SnoopSubcommand::Build(_)) => task == Task::SnoopBuild,
            Subcommand::Snoop(SnoopSubcommand::WasmBuild(_)) => task == Task::SnoopWasmBuild,
            Subcommand::Snoop(SnoopSubcommand::Serve(_)) => task == Task::SnoopServe,
            Subcommand::ExportErrorPage => task == Task::ExportErrorPage,
            Subcommand::New => task == Task::New,
            Subcommand::Init => task == Task::Init,
            Subcommand::Check(_) => task == Task::Check,
        },
    ensures
        only(plan(dir, subcmd, reload), StepView::Run(dir, task), |s: StepView| s is Run),
        forall|k: int|
            0 <= k < plan(dir, Subcommand::Clean, reload).len() ==> (#[trigger] plan(
                dir,
                Subcommand::Clean,
                reload,
            )[k]) !is Run,
{
    let steps = plan(dir, subcmd, reload);
    let n = steps.len() as int;
    if subcmd matches Subcommand::Export { serve, .. } && serve {
        assert(steps[n - 3] == StepView::Run(dir, task));
    } else {
        assert(steps[n - 1] == StepView::Run(dir, task));
    }
}

/// The work is the last step of a command. Only an export that is to be served goes
/// on: its last three steps are the export, telling the browsers at the reload
/// server to reload, and serving the app at its own address. No other command
/// serves an export or orders a reload. All this whatever the other options are.
pub proof fn a_served_export_is_served(
    dir: PathView,
    subcmd: Subcommand,
    reload: (Seq<char>, u16),
)
    ensures
        ({
            let steps = plan(dir, subcmd, reload);
            let n = steps.len() as int;
            match subcmd {
                Subcommand::Export { serve, address, .. } if serve => {
                    &&& n >= 3
                    &&& steps[n - 3] == StepView::Run(dir, Task::Export)
                    &&& steps[n - 2] == StepView::OrderReload(reload.0, reload.1)
                    &&& steps[n - 1] == StepView::ServeExported(
                        dir,
                        address.host@,
                        address.port,
                    )
                    &&& forall|k: int|
                        0 <= k < n - 2 ==> (#[trigger] steps[k]) !is OrderReload && steps[k]
                            !is ServeExported
                },
                _ => {
                    &&& n >= 1
                    &&& subcmd !is Clean ==> steps[n - 1] is Run
                    &&& forall|k: int|
                        0 <= k < n ==> (#[trigger] steps[k]) !is OrderReload && steps[k]
                            !is ServeExported
                },
            }
        }),
{
}

/// Every command but `new`, `init` and `clean` first makes sure of the distribution
/// directory and then of the tools, and does neither again. Those three do neither
/// at all.
pub proof fn prepares_first_and_once(dir: PathView, subcmd: Subcommand, reload: (Seq<char>, u16))
    ensures
        ({
            let steps = plan(dir, subcmd, reload);
            if subcmd is New || subcmd is Init || subcmd is Clean {
                forall|k: int|
                    0 <= k < steps.len() ==> (#[trigger] steps[k]) !is CreateDist && steps[k]
                        !is InstallTools
            } else {
                &&& steps.len() > 2
                &&& steps[0] == StepView::CreateDist(dir)
                &&& steps[1] == StepView::InstallTools(dir)
                &&& forall|k: int|
                    2 <= k < steps.len() ==> (#[trigger] steps[k]) !is CreateDist && steps[k]
                        !is InstallTools
            }
        }),
{
}

/// What a command deletes of earlier runs, named by commands: what was built, by
/// every command that builds anew; what was exported, by an export and a
/// deployment; the package, by a deployment. Tools are never deleted. Each is
/// deleted in the given directory and once.
pub proof fn deletes_what_is_made_anew(
    dir: PathView,
    subcmd: Subcommand,
    reload: (Seq<char>, u16),
    artifacts: Artifacts,
    k: int,
    j: int,
)
    requires
        0 <= k < plan(dir, subcmd, reload).len(),
        0 <= j < plan(dir, subcmd, reload).len(),
    ensures
        ({
            let steps = plan(dir, subcmd, reload);
            let builds = match subcmd {
                Subcommand::Build(_) => true,
                Subcommand::Export { .. } => true,
                Subcommand::Serve { no_build, .. } => !no_build,
                Subcommand::Test { no_build, .. } => !no_build,
                Subcommand::Deploy => true,
                Subcommand::Check(_) => true,
                _ => false,
            };
            let outdated = match artifacts {
                Artifacts::Static => builds,
                Artifacts::Mutable => builds,
                Artifacts::Exported => subcmd is Export || subcmd is Deploy,
                Artifacts::Pkg => subcmd is Deploy,
                Artifacts::Tools => false,
            };
            &&& outdated <==> steps.contains(StepView::DeleteArtifacts(dir, artifacts))
            &&& steps[k] is DeleteArtifacts && steps[j] == steps[k] ==> j == k
            &&& steps[k] matches StepView::DeleteArtifacts(place, _) ==> place == dir
        }),
{
    let steps = plan(dir, subcmd, reload);
    match subcmd {
        Subcommand::Build(_) | Subcommand::Check(_) => {
            assert(steps[2] == StepView::DeleteArtifacts(dir, Artifacts::Static));
            assert(steps[3] == StepView::DeleteArtifacts(dir, Artifacts::Mutable));
        },
        Subcommand::Serve { no_build, .. } => {
            if !no_build {
                assert(steps[2] == StepView::DeleteArtifacts(dir, Artifacts::Static));
                assert(steps[3] == StepView::DeleteArtifacts(dir, Artifacts::Mutable));
            }
        },
        Subcommand::Test { no_build, .. } => {
            if !no_build {
                assert(steps[2] == StepView::DeleteArtifacts(dir, Artifacts::Static));
                assert(steps[3] == StepView::DeleteArtifacts(dir, Artifacts::Mutable));
            }
        },
        Subcommand::Export { .. } => {
            assert(steps[2] == StepView::DeleteArtifacts(dir, Artifacts::Static));
            assert(steps[3] == StepView::DeleteArtifacts(dir, Artifacts::Mutable));
            assert(steps[4] == StepView::DeleteArtifacts(dir, Artifacts::Exported));
        },
        Subcommand::Deploy => {
            assert(steps[2] == StepView::DeleteArtifacts(dir, Artifacts::Static));
            assert(steps[3] == StepView::DeleteArtifacts(dir, Artifacts::Mutable));
            assert(steps[4] == StepView::DeleteArtifacts(dir, Artifacts::Exported));
            assert(steps[5] == StepView::DeleteArtifacts(dir, Artifacts::Pkg));
        },
        _ => {},
    }
}

/// The place of artifacts among those that are deleted one after the other.
pub open spec fn rank(artifacts: Artifacts) -> int {
    match artifacts {
        Artifacts::Static => 0,
        Artifacts::Mutable => 1,
        Artifacts::Exported => 2,
        Artifacts::Pkg => 3,
        Artifacts::Tools => 4,
    }
}

/// Artifacts are deleted in one order: what was built, what was exported, and the
/// package.
pub proof fn deletes_in_order(
    dir: PathView,
    subcmd: Subcommand,
    reload: (Seq<char>, u16),
    j: int,
    k: int,
)
    requires
        0 <= j < k < plan(dir, subcmd, reload).len(),
    ensures
        ({
            let steps = plan(dir, subcmd, reload);
            (steps[j], steps[k]) matches (
                StepView::DeleteArtifacts(_, first),
                StepView::DeleteArtifacts(_, second),
            ) ==> rank(first) < rank(second)
        }),
{
}

/// The whole distribution directory is deleted by cleaning up, and by tinkering
/// unless the user keeps it, and by nothing else: once, in the given directory.
pub proof fn only_clean_and_tinker_delete_everything(
    dir: PathView,
    subcmd: Subcommand,
    reload: (Seq<char>, u16),
)
    ensures
        ({
            let steps = plan(dir, subcmd, reload);
            let starts_blank = match subcmd {
                Subcommand::Clean => true,
                Subcommand::Tinker { no_clean } => !no_clean,
                _ => false,
            };
            if starts_blank {
                only(steps, StepView::DeleteDist(dir), |s: StepView| s is DeleteDist)
            } else {
                forall|k: int| 0 <= k < steps.len() ==> (#[trigger] steps[k]) !is DeleteDist
            }
        }),
{
    let steps = plan(dir, subcmd, reload);
    if subcmd is Clean {
        assert(steps[0] == StepView::DeleteDist(dir));
    } else if subcmd matches Subcommand::Tinker { no_clean } && !no_clean {
        assert(steps[2] == StepView::DeleteDist(dir));
    }
}

/// The user is told two things on the way, and nothing else: after cleaning up,
/// that artifacts are gone, and right before a snooping server is served that is to
/// be watched, that this is no good idea.
pub proof fn tells_what_is_to_be_told(dir: PathView, subcmd: Subcommand, reload: (Seq<char>, u16))
    ensures
        ({
            let steps = plan(dir, subcmd, reload);
            let n = steps.len() as int;
            match subcmd {
                Subcommand::Clean => {
                    &&& n == 2
                    &&& steps[0] is DeleteDist
                    &&& steps[1] == StepView::Notify(Notice::ArtifactsDeleted)
                },
                Subcommand::Snoop(SnoopSubcommand::Serve(watching)) if watching.watch => {
                    &&& n == 4
                    &&& steps[2] == StepView::Notify(Notice::SnoopServeWatched)
                    &&& steps[3] is Run
                },
                _ => forall|k: int| 0 <= k < n ==> (#[trigger] steps[k]) !is Notify,
            }
        }),
{
}

/// No step is taken twice.
pub proof fn no_step_is_taken_twice(
    dir: PathView,
    subcmd: Subcommand,
    reload: (Seq<char>, u16),
    j: int,
    k: int,
)
    requires
        0 <= j < k < plan(dir, subcmd, reload).len(),
    ensures
        plan(dir, subcmd, reload)[j] != plan(dir, subcmd, reload)[k],
{
}

/// The options for watching make no difference to what is done, but for the warning
/// before a snooping server: two commands that differ in nothing else take the same
/// steps.
pub proof fn watching_changes_no_step(
    dir: PathView,
    one: Subcommand,
    other: Subcommand,
    reload: (Seq<char>, u16),
)
    requires
        match (one, other) {
            (Subcommand::Build(_), Subcommand::Build(_)) => true,
            (Subcommand::Check(_), Subcommand::Check(_)) => true,
            (
                Subcommand::Export { serve: s, address: a, .. },
                Subcommand::Export { serve: t, address: b, .. },
            ) => s == t && a.host@ == b.host@ && a.port == b.port,
            (Subcommand::Serve { no_build: m, .. }, Subcommand::Serve { no_build: n, .. }) => {
                m == n
            },
            (Subcommand::Test { no_build: m, .. }, Subcommand::Test { no_build: n, .. }) => m == n,
            (
                Subcommand::Snoop(SnoopSubcommand::Build(_)),
                Subcommand::Snoop(SnoopSubcommand::Build(_)),
            ) => true,
            (
                Subcommand::Snoop(SnoopSubcommand::WasmBuild(_)),
                Subcommand::Snoop(SnoopSubcommand::WasmBuild(_)),
            ) => true,
            _ => false,
        },
    ensures
        plan(dir, one, reload) == plan(dir, other, reload),
{
    assert(plan(dir, one, reload) =~= plan(dir, other, reload));
}

} // verus!
