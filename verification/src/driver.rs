//! The run from its first library to its end.

use vstd::prelude::*;
use crate::error::{BuildFailure, MyError, failure_message};
use crate::laws::{Report, lemma_step_makes_progress, remaining, run_model};
use crate::orchestrator::{Action, Event, Orchestrator, Phase, RunModel, action_model, initial_model, next_model};
use crate::types::{LibraryDetails, VisualStudioToolsetVersion, library_models};
use crate::workspace::is_build_tag;

verus! {

/// Whether `report` is what `perform` gave for the action that the run asked
/// for in state `m`, with a well-shaped tag where a new attempt may begin.
pub open spec fn step_performed<F: Fn(&Action) -> Event>(perform: F, m: RunModel, report: Report) -> bool {
    &&& m.phase != Phase::Stopped
    &&& m.phase == Phase::CheckInstalled ==> is_build_tag(report.tag)
    &&& exists|a: &Action, e: Event|
        a@ == action_model(m) && e@ == report.event && #[trigger] call_ensures(perform, (a,), e)
}

/// Whether every one of the reports is what `perform` gave for the action that
/// the run, begun in state `start`, asked for at that point.
pub open spec fn performed<F: Fn(&Action) -> Event>(perform: F, start: RunModel, reports: Seq<Report>) -> bool
    decreases reports.len(),
{
    reports.len() == 0 || (performed(perform, start, reports.drop_last()) && step_performed(
        perform,
        run_model(start, reports.drop_last()),
        reports.last(),
    ))
}

/// Builds the libraries of `catalog` in order and stops at the first failure.
/// `perform` does what an action asks for and reports what happened.
///
/// The run that is returned has stopped. It is the run that leads from the
/// beginning through the reports that `perform` gave, each for the action
/// asked for at that point, and through no others. Without a failure every
/// library has its outcome on record; with one, the record ends before the
/// library that failed.
pub fn run<F: Fn(&Action) -> Event>(
    catalog: Vec<LibraryDetails>,
    toolset: VisualStudioToolsetVersion,
    perform: F,
) -> (r: Orchestrator)
    requires
        forall|a: &Action| call_requires(perform, (a,)),
    ensures
        r.wf(),
        r@.phase == Phase::Stopped,
        r@.catalog == library_models(catalog@),
        r@.failure is None ==> r@.outcomes.len() == catalog@.len(),
        r@.failure is Some ==> r@.outcomes.len() < catalog@.len(),
        exists|reports: Seq<Report>|
            r@ == #[trigger] run_model(initial_model(library_models(catalog@), toolset), reports) && performed(
                perform,
                initial_model(library_models(catalog@), toolset),
                reports,
            ),
{
    let ghost start = initial_model(library_models(catalog@), toolset);
    let mut run = Orchestrator::new(catalog, toolset);
    let ghost mut reports: Seq<Report> = Seq::empty();
    while !run.is_stopped()
        invariant
            run.wf(),
            run@ == run_model(start, reports),
            performed(perform, start, reports),
            run@.catalog == start.catalog,
            forall|a: &Action| call_requires(perform, (a,)),
        decreases start.catalog.len() - run@.index, remaining(run@),
    {
        let action = run.action();
        let event = perform(&action);
        let ghost before = run@;
        let ghost given = event;
        run.advance(event);
        proof {
            let tag = choose|tag: Seq<char>|
                (before.phase == Phase::CheckInstalled ==> is_build_tag(tag)) && run@ == #[trigger] next_model(
                    before,
                    given@,
                    tag,
                );
            let report = Report { event: given@, tag };
            let longer = reports.push(report);
            assert(longer.drop_last() =~= reports);
            assert(call_ensures(perform, (&action,), given));
            assert(step_performed(perform, before, report));
            lemma_step_makes_progress(before, given@, tag);
            reports = longer;
        }
    }
    run
}

/// Whether the run that begins in `start` and takes the reports, each given by
/// `perform`, has stopped, with `failure` if it failed.
pub open spec fn ends_with<F: Fn(&Action) -> Event>(
    perform: F,
    start: RunModel,
    reports: Seq<Report>,
    failure: Option<BuildFailure>,
) -> bool {
    &&& performed(perform, start, reports)
    &&& run_model(start, reports).phase == Phase::Stopped
    &&& run_model(start, reports).failure == failure
}

/// Builds and installs one library, unless it is installed already: a run
/// over a catalog of that library alone. The error carries the message of the
/// failure that stopped the run.
pub fn build_and_install<F: Fn(&Action) -> Event>(
    library_details: LibraryDetails,
    toolset: VisualStudioToolsetVersion,
    perform: F,
) -> (r: Result<(), MyError>)
    requires
        forall|a: &Action| call_requires(perform, (a,)),
    ensures
        match r {
            Ok(_) => exists|reports: Seq<Report>| #[trigger]
                ends_with(perform, initial_model(seq![library_details@], toolset), reports, None),
            Err(e) => exists|reports: Seq<Report>, f: BuildFailure| #[trigger]
                ends_with(perform, initial_model(seq![library_details@], toolset), reports, Some(f))
                    && e.message@ == failure_message(f),
        },
{
    let mut catalog: Vec<LibraryDetails> = Vec::new();
    catalog.push(library_details);
    assert(library_models(catalog@) =~= seq![library_details@]);
    let ghost start = initial_model(seq![library_details@], toolset);
    let done = run(catalog, toolset, perform);
    let ghost reports = choose|reports: Seq<Report>|
        done@ == #[trigger] run_model(start, reports) && performed(perform, start, reports);
    match done.failure() {
        None => {
            assert(ends_with(perform, start, reports, None));
            Ok(())
        },
        Some(f) => {
            assert(ends_with(perform, start, reports, Some(f)));
            Err(MyError::from_failure(f))
        },
    }
}

} // verus!
