//! What holds of every run, whatever the caller reports.

use vstd::prelude::*;
use crate::error::BuildFailure;
use crate::orchestrator::{
    ActionModel, CommandOutcome, EventModel, Outcome, Phase, RunModel, action_model, command_fault, failed,
    initial_model, lemma_next_wf, model_wf, next_model, succeeded,
};
use crate::types::{LibraryModel, StrategyModel, VisualStudioToolsetVersion};
use crate::workspace::{EntryModel, has_only_dir, is_only_dir};

verus! {

/// One report of the caller: the event, and the tag offered for a new attempt.
pub struct Report {
    pub event: EventModel,
    pub tag: Seq<char>,
}

/// The state that a run reaches from `m` after the given reports, in order.
pub open spec fn run_model(m: RunModel, reports: Seq<Report>) -> RunModel
    decreases reports.len(),
{
    if reports.len() == 0 {
        m
    } else {
        let before = run_model(m, reports.drop_last());
        next_model(before, reports.last().event, reports.last().tag)
    }
}

/// Whether a workspace is in use for library `i`: the run is at that library
/// and past the look at its install directory.
pub open spec fn attempting(m: RunModel, i: nat) -> bool {
    m.index == i && m.phase != Phase::CheckInstalled && m.phase != Phase::Stopped
}

/// Whether `a` is the beginning of `b`.
pub open spec fn is_prefix(a: Seq<Outcome>, b: Seq<Outcome>) -> bool {
    a.len() <= b.len() && b.subrange(0, a.len() as int) == a
}

/// A run stays within the states that it can be in.
pub proof fn lemma_run_wf(m: RunModel, reports: Seq<Report>)
    requires
        model_wf(m),
    ensures
        model_wf(run_model(m, reports)),
    decreases reports.len(),
{
    if reports.len() > 0 {
        lemma_run_wf(m, reports.drop_last());
    }
}

/// One step either stays at the library at hand and records nothing, or moves
/// to the next library and records how the one at hand came to be installed:
/// skipped because its install directory was there, or built, with its
/// workspace removed and no failure of its strategy.
pub proof fn lemma_step_records_completion(m: RunModel, ev: EventModel, tag: Seq<char>)
    requires
        model_wf(m),
    ensures
        ({
            let n = next_model(m, ev, tag);
            ||| n.index == m.index && n.outcomes == m.outcomes
            ||| n.index == m.index + 1 && n.outcomes == m.outcomes.push(Outcome::Skipped) && m.phase
                == Phase::CheckInstalled && (ev matches EventModel::Installed { exists, .. } && exists)
            ||| n.index == m.index + 1 && n.outcomes == m.outcomes.push(Outcome::Built) && (m.phase
                == Phase::RemoveBuildDir || m.phase == Phase::RemoveAgain) && succeeded(ev) && m.pending
                is None
        }),
{
}

/// A run never goes back to an earlier library, and never changes what it
/// recorded of one.
pub proof fn lemma_run_moves_forward(m: RunModel, reports: Seq<Report>)
    requires
        model_wf(m),
    ensures
        run_model(m, reports).index >= m.index,
        is_prefix(m.outcomes, run_model(m, reports).outcomes),
    decreases reports.len(),
{
    if reports.len() == 0 {
        assert(m.outcomes.subrange(0, m.outcomes.len() as int) =~= m.outcomes);
    } else {
        let before = run_model(m, reports.drop_last());
        lemma_run_moves_forward(m, reports.drop_last());
        lemma_run_wf(m, reports.drop_last());
        lemma_step_records_completion(before, reports.last().event, reports.last().tag);
        let after = run_model(m, reports);
        assert(after.outcomes.subrange(0, m.outcomes.len() as int) =~= before.outcomes.subrange(
            0,
            m.outcomes.len() as int,
        ));
    }
}

/// The number of custom steps of a strategy; none for a CMake library.
pub open spec fn step_count(s: StrategyModel) -> int {
    match s {
        StrategyModel::Custom { steps } => steps.len() as int,
        _ => 0,
    }
}

/// A bound on the number of reports that the attempt at hand can still take
/// before the run turns to the next library or stops.
pub open spec fn remaining(m: RunModel) -> int {
    let n = step_count(m.catalog[m.index as int].strategy);
    match m.phase {
        Phase::Stopped => 0,
        Phase::RemoveAgain => 1,
        Phase::Wait => 2,
        Phase::ReportCurrentDir => 3,
        Phase::RemoveBuildDir => 4,
        Phase::Settle => 5,
        Phase::ReturnToTop => 6,
        Phase::Build => 7,
        Phase::Configure => 8,
        Phase::EnterInnerDir => 9,
        Phase::CreateInnerDir => 10,
        Phase::RunStep(k) => 7 + 2 * (n - 1 - k),
        Phase::EnterSourceDir(k) => 8 + 2 * (n - 1 - k),
        Phase::ListBuildDir => 11 + 2 * n,
        Phase::ExtractArchive => 12 + 2 * n,
        Phase::EnterBuildDir => 13 + 2 * n,
        Phase::CopyArchive => 14 + 2 * n,
        Phase::CreateBuildDir => 15 + 2 * n,
        Phase::CheckInstalled => 16 + 2 * n,
    }
}

/// Every report brings the run nearer to its end: it moves the run to the
/// next library, or leaves the attempt at hand with fewer reports to take.
/// So every run stops, whatever is reported.
pub proof fn lemma_step_makes_progress(m: RunModel, ev: EventModel, tag: Seq<char>)
    requires
        model_wf(m),
        m.phase != Phase::Stopped,
    ensures
        ({
            let n = next_model(m, ev, tag);
            ||| n.index == m.index + 1 && n.catalog == m.catalog
            ||| n.index == m.index && n.catalog == m.catalog && 0 <= remaining(n) < remaining(m)
        }),
{
}

/// A run that has stopped stays as it is, and asks for nothing more.
pub proof fn lemma_stopped_is_final(m: RunModel, reports: Seq<Report>)
    requires
        m.phase == Phase::Stopped,
    ensures
        run_model(m, reports) == m,
        action_model(m) == ActionModel::Stop,
    decreases reports.len(),
{
    if reports.len() > 0 {
        lemma_stopped_is_final(m, reports.drop_last());
    }
}

/// A library whose install directory exists is skipped: the run records it as
/// such and moves on, and no workspace is ever in use for it afterwards.
pub proof fn lemma_installed_library_is_skipped(m: RunModel, path: Seq<char>, tag: Seq<char>, reports: Seq<Report>)
    requires
        model_wf(m),
        m.phase == Phase::CheckInstalled,
    ensures
        ({
            let n = next_model(m, EventModel::Installed { path, exists: true }, tag);
            let s = run_model(n, reports);
            &&& n.index == m.index + 1
            &&& !attempting(s, m.index)
            &&& s.outcomes[m.index as int] == Outcome::Skipped
        }),
{
    let n = next_model(m, EventModel::Installed { path, exists: true }, tag);
    let s = run_model(n, reports);
    lemma_run_moves_forward(n, reports);
    assert(s.outcomes.subrange(0, n.outcomes.len() as int)[m.index as int] == s.outcomes[m.index as int]);
}

/// While the run is at a library, every library before it in the catalog is
/// installed: each has its outcome on record, and the record has no more.
pub proof fn lemma_earlier_libraries_are_done(
    catalog: Seq<LibraryModel>,
    toolset: VisualStudioToolsetVersion,
    reports: Seq<Report>,
)
    ensures
        ({
            let s = run_model(initial_model(catalog, toolset), reports);
            &&& model_wf(s)
            &&& s.outcomes.len() == s.index
            &&& s.index <= catalog.len()
            &&& s.catalog == catalog
        }),
    decreases reports.len(),
{
    let m = initial_model(catalog, toolset);
    lemma_run_wf(m, reports);
    if reports.len() > 0 {
        lemma_earlier_libraries_are_done(catalog, toolset, reports.drop_last());
        lemma_run_wf(m, reports.drop_last());
    }
}

/// A failure stops the run at once, at the library that failed, with nothing
/// recorded for it; the run then stays there and asks for nothing more.
pub proof fn lemma_failure_is_final(m: RunModel, ev: EventModel, tag: Seq<char>, reports: Seq<Report>)
    requires
        model_wf(m),
        next_model(m, ev, tag).failure is Some,
    ensures
        ({
            let n = next_model(m, ev, tag);
            &&& n.phase == Phase::Stopped
            &&& n.index == m.index
            &&& n.outcomes == m.outcomes
            &&& run_model(n, reports) == n
            &&& action_model(n) == ActionModel::Stop
        }),
{
    let n = next_model(m, ev, tag);
    lemma_stopped_is_final(n, reports);
}

/// Once the strategy of a library has failed, the run stays at that library:
/// it runs no further program, records nothing for it, and when it stops it
/// stops with a failure. No later library is reached.
pub proof fn lemma_after_strategy_failure(m: RunModel, reports: Seq<Report>)
    requires
        model_wf(m),
        m.pending is Some,
    ensures
        ({
            let s = run_model(m, reports);
            &&& s.index == m.index
            &&& s.outcomes == m.outcomes
            &&& s.pending is Some
            &&& !(action_model(s) is Run)
            &&& !(action_model(s) is Probe)
            &&& s.phase == Phase::Stopped ==> s.failure is Some
        }),
    decreases reports.len(),
{
    if reports.len() > 0 {
        lemma_after_strategy_failure(m, reports.drop_last());
        lemma_run_wf(m, reports.drop_last());
    }
}

/// A failed run of a program ends the strategy: the run turns to removing the
/// workspace with the failure kept, and runs no further program.
pub proof fn lemma_failed_command_ends_strategy(m: RunModel, ev: EventModel, tag: Seq<char>, reports: Seq<Report>)
    requires
        model_wf(m),
        m.phase == Phase::Configure || m.phase == Phase::Build || m.phase is RunStep,
        command_fault(ev) is Some,
    ensures
        ({
            let n = next_model(m, ev, tag);
            let s = run_model(n, reports);
            &&& n.phase == Phase::ReturnToTop
            &&& n.pending == Some(
                match m.phase {
                    Phase::Configure => BuildFailure::ConfigureFailed(command_fault(ev)->0),
                    Phase::Build => BuildFailure::BuildFailed(command_fault(ev)->0),
                    Phase::RunStep(k) => BuildFailure::StepFailed(k, command_fault(ev)->0),
                    _ => arbitrary(),
                },
            )
            &&& !(action_model(s) is Run)
            &&& s.index == m.index
            &&& s.outcomes == m.outcomes
        }),
{
    let n = next_model(m, ev, tag);
    lemma_next_wf(m, ev, tag);
    lemma_after_strategy_failure(n, reports);
}

/// An attempt keeps its workspace: from the moment the workspace is created
/// until the run turns to another library or stops, no step changes the tag,
/// the install directory or, once found, the source root.
pub proof fn lemma_attempt_keeps_its_workspace(m: RunModel, ev: EventModel, tag: Seq<char>)
    requires
        model_wf(m),
        m.phase != Phase::CheckInstalled,
    ensures
        next_model(m, ev, tag).tag == m.tag,
        next_model(m, ev, tag).install_dir == m.install_dir,
        m.phase != Phase::ListBuildDir ==> next_model(m, ev, tag).source_root == m.source_root,
{
}

/// Entries without a directory have no only directory.
pub proof fn lemma_no_dir_is_ambiguous(entries: Seq<EntryModel>)
    requires
        forall|i: int| 0 <= i < entries.len() ==> !(#[trigger] entries[i]).is_dir,
    ensures
        !has_only_dir(entries),
{
    assert forall|i: int| !is_only_dir(entries, i) by {
        if is_only_dir(entries, i) {
            assert(entries[i].is_dir);
        }
    }
}

/// Entries with two directories have no only directory.
pub proof fn lemma_two_dirs_are_ambiguous(entries: Seq<EntryModel>, a: int, b: int)
    requires
        0 <= a < entries.len(),
        0 <= b < entries.len(),
        a != b,
        entries[a].is_dir,
        entries[b].is_dir,
    ensures
        !has_only_dir(entries),
{
    assert forall|i: int| !is_only_dir(entries, i) by {
        if is_only_dir(entries, i) {
            if i == a {
                assert(entries[b].is_dir);
            } else {
                assert(entries[a].is_dir);
            }
        }
    }
}

/// Where the archive did not unpack to exactly one directory, the run stops
/// with that failure and asks for nothing more: the workspace is not removed.
pub proof fn lemma_ambiguous_layout_keeps_workspace(m: RunModel, entries: Seq<EntryModel>, tag: Seq<char>)
    requires
        model_wf(m),
        m.phase == Phase::ListBuildDir,
        !has_only_dir(entries),
    ensures
        next_model(m, EventModel::Listed(entries), tag) == failed(m, BuildFailure::AmbiguousSourceLayout),
        action_model(next_model(m, EventModel::Listed(entries), tag)) == ActionModel::Stop,
{
}

/// A CMake library with a local path is configured in the directory that the
/// path leads to from the source root, not in the source root itself.
pub proof fn lemma_configure_follows_local_path(m: RunModel)
    requires
        model_wf(m),
        m.phase == Phase::Configure,
    ensures
        m.catalog[m.index as int].strategy matches StrategyModel::CMake { local_path, .. } && (
        action_model(m) matches ActionModel::Run(c) && c.has_source_argument && c.source_root
            == m.source_root && (local_path matches Some(p) ==> c.subpath == p)),
{
}

/// The custom steps run in the order of the list: after step `k` succeeded the
/// run turns to step `k + 1`, or to removing the workspace after the last.
pub proof fn lemma_steps_run_in_order(m: RunModel, k: usize, tag: Seq<char>)
    requires
        model_wf(m),
        m.phase == Phase::RunStep(k),
    ensures
        ({
            let n = next_model(m, EventModel::Ran(CommandOutcome::Exited(true)), tag);
            m.catalog[m.index as int].strategy matches StrategyModel::Custom { steps } && n.phase == (if k < usize::MAX && k + 1
                < steps.len() {
                Phase::EnterSourceDir((k + 1) as usize)
            } else {
                Phase::ReturnToTop
            }) && n.pending is None
        }),
{
}

} // verus!
