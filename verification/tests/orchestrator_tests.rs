use builder::driver::{build_and_install, run};
use builder::error::{BuildFailure, CleanupFault, CommandFault, SetupFault};
use builder::orchestrator::{Action, CommandOutcome, Event, FileOp, Orchestrator, Outcome, Phase};
use builder::types::{
    BuildType, CMakeDetails, CustomBuildDetails, CustomBuildStep, LibraryDetails, VisualStudioToolsetVersion,
};
use builder::workspace::SourceEntry;
use std::cell::RefCell;

fn cmake_library(name: &'static str, local_path: Option<Vec<&'static str>>) -> LibraryDetails {
    LibraryDetails {
        name,
        file_name: "source.tar.gz",
        build_type: BuildType::CMake(CMakeDetails { cmake_local_path: local_path, extra_configure_args: vec![] }),
    }
}

fn custom_library(name: &'static str, labels: &[&'static str]) -> LibraryDetails {
    let steps = labels
        .iter()
        .map(|l| CustomBuildStep { name: *l, command: *l, args: vec![String::from("go")], in_current_dir: false })
        .collect();
    LibraryDetails { name, file_name: "source.tar.gz", build_type: BuildType::Custom(CustomBuildDetails { steps }) }
}

/// A stand-in for the machine the run works on.
struct World {
    installed: Vec<String>,
    failing_programs: Vec<String>,
    failing_removals: usize,
    entries: Vec<(String, bool)>,
    log: Vec<String>,
}

fn world() -> World {
    World {
        installed: vec![],
        failing_programs: vec![],
        failing_removals: 0,
        entries: vec![(String::from("w/archive.file"), false), (String::from("w/src"), true)],
        log: vec![],
    }
}

fn perform(world: &mut World, current: &str, action: &Action) -> Event {
    match action {
        Action::Probe { library } => {
            world.log.push(format!("probe {}", library));
            Event::Installed { path: format!("art/{}", library), exists: world.installed.contains(library) }
        }
        Action::File { op, dir_name, name } => {
            world.log.push(format!("{:?} {} {}", op, if dir_name.starts_with('_') { "_" } else { "?" }, name));
            match op {
                FileOp::ListBuildDir => Event::Listed(
                    world.entries.iter().map(|(p, d)| SourceEntry { path: p.clone(), is_dir: *d }).collect(),
                ),
                FileOp::RemoveBuildDir => {
                    if world.failing_removals > 0 {
                        world.failing_removals -= 1;
                        Event::Completed(false)
                    } else {
                        Event::Completed(true)
                    }
                }
                _ => Event::Completed(true),
            }
        }
        Action::Run(command) => {
            world.log.push(format!("run {} for {}", command.program, current));
            let name = if command.program == "cmake" { command.args[0].clone() } else { command.program.clone() };
            if world.failing_programs.contains(&format!("{}:{}", current, name)) {
                Event::Ran(CommandOutcome::Exited(false))
            } else {
                if name == "--build" {
                    world.installed.push(current.to_string());
                }
                Event::Ran(CommandOutcome::Exited(true))
            }
        }
        Action::Sleep { millis } => {
            world.log.push(format!("sleep {}", millis));
            Event::Completed(true)
        }
        Action::Stop => panic!("a stopped run has nothing to perform"),
    }
}

fn drive(run: &mut Orchestrator, world: &mut World) {
    let mut steps = 0;
    while !run.is_stopped() {
        let current = run.catalog()[run.index()].name;
        let action = run.action();
        let event = perform(world, current, &action);
        run.advance(event);
        steps += 1;
        assert!(steps < 1000);
    }
}

fn count(log: &Vec<String>, prefix: &str) -> usize {
    log.iter().filter(|l| l.starts_with(prefix)).count()
}

#[test]
fn an_empty_catalog_is_done_at_once() {
    let run = Orchestrator::new(vec![], VisualStudioToolsetVersion::V142);
    assert!(run.is_stopped());
    assert_eq!(run.failure(), None);
    assert!(run.outcomes().is_empty());
    assert!(matches!(run.action(), Action::Stop));
}

#[test]
fn a_cmake_library_goes_through_every_phase() {
    let mut run = Orchestrator::new(vec![cmake_library("a", None)], VisualStudioToolsetVersion::V142);
    let mut w = world();
    drive(&mut run, &mut w);
    assert_eq!(run.failure(), None);
    assert_eq!(run.outcomes(), &vec![Outcome::Built]);
    assert_eq!(
        w.log,
        vec![
            "probe a",
            "CreateBuildDir _ ",
            "CopyArchive _ source.tar.gz",
            "EnterBuildDir _ ",
            "run tar for a",
            "ListBuildDir _ ",
            "CreateInnerDir _ build",
            "EnterInnerDir _ build",
            "run cmake for a",
            "run cmake for a",
            "ReturnToTop _ ",
            "sleep 100",
            "RemoveBuildDir _ ",
        ]
    );
}

#[test]
fn installed_libraries_are_not_built_again() {
    let catalog = || vec![cmake_library("a", None), custom_library("b", &["one"]), cmake_library("c", None)];
    let mut w = world();
    let mut first = Orchestrator::new(catalog(), VisualStudioToolsetVersion::V142);
    w.installed.push(String::from("b"));
    drive(&mut first, &mut w);
    assert_eq!(first.outcomes(), &vec![Outcome::Built, Outcome::Skipped, Outcome::Built]);
    assert_eq!(count(&w.log, "run one"), 0);
    w.log.clear();
    let mut second = Orchestrator::new(catalog(), VisualStudioToolsetVersion::V142);
    drive(&mut second, &mut w);
    assert_eq!(second.failure(), None);
    assert_eq!(second.outcomes(), &vec![Outcome::Skipped, Outcome::Skipped, Outcome::Skipped]);
    assert_eq!(w.log, vec!["probe a", "probe b", "probe c"]);
}

#[test]
fn a_library_is_attempted_after_the_ones_before_it() {
    let mut run =
        Orchestrator::new(vec![cmake_library("a", None), cmake_library("b", None)], VisualStudioToolsetVersion::V141);
    let mut w = world();
    let mut steps = 0;
    while !run.is_stopped() {
        let current = run.catalog()[run.index()].name;
        if current == "b" {
            assert!(w.installed.contains(&String::from("a")));
            assert_eq!(run.outcomes(), &vec![Outcome::Built]);
        }
        let action = run.action();
        let event = perform(&mut w, current, &action);
        run.advance(event);
        steps += 1;
        assert!(steps < 1000);
    }
    assert_eq!(run.outcomes(), &vec![Outcome::Built, Outcome::Built]);
    let first_b = w.log.iter().position(|l| l == "probe b").unwrap();
    let last_a = w.log.iter().rposition(|l| l.ends_with("for a")).unwrap();
    assert!(last_a < first_b);
}

#[test]
fn the_first_failure_ends_the_run() {
    let catalog = vec![cmake_library("a", None), cmake_library("b", None), cmake_library("c", None)];
    let mut run = Orchestrator::new(catalog, VisualStudioToolsetVersion::V142);
    let mut w = world();
    w.failing_programs.push(String::from("b:--build"));
    drive(&mut run, &mut w);
    assert_eq!(run.failure(), Some(BuildFailure::BuildFailed(CommandFault::ExitStatus)));
    assert_eq!(run.index(), 1);
    assert_eq!(run.outcomes(), &vec![Outcome::Built]);
    assert_eq!(w.installed, vec!["a"]);
    assert_eq!(count(&w.log, "probe c"), 0);
    assert_eq!(count(&w.log, "run cmake for c"), 0);
    assert_eq!(w.log.last().unwrap(), "RemoveBuildDir _ ");
    assert!(matches!(run.action(), Action::Stop));
    run.advance(Event::Completed(true));
    assert!(run.is_stopped());
    assert_eq!(run.index(), 1);
    assert_eq!(run.failure(), Some(BuildFailure::BuildFailed(CommandFault::ExitStatus)));
}

#[test]
fn a_failed_configure_skips_the_build() {
    let mut run = Orchestrator::new(vec![cmake_library("a", None)], VisualStudioToolsetVersion::V142);
    let mut w = world();
    let mut steps = 0;
    while !run.is_stopped() {
        let action = run.action();
        let event = match &action {
            Action::Run(c) if c.has_source_argument => Event::Ran(CommandOutcome::Exited(false)),
            _ => perform(&mut w, "a", &action),
        };
        run.advance(event);
        steps += 1;
        assert!(steps < 1000);
    }
    assert_eq!(run.failure(), Some(BuildFailure::ConfigureFailed(CommandFault::ExitStatus)));
    assert_eq!(count(&w.log, "run cmake"), 0);
    assert_eq!(count(&w.log, "RemoveBuildDir"), 1);
    assert!(run.outcomes().is_empty());
}

#[test]
fn each_attempt_has_its_own_workspace() {
    let mut dirs: Vec<String> = Vec::new();
    for _ in 0..10 {
        let mut run = Orchestrator::new(vec![cmake_library("a", None)], VisualStudioToolsetVersion::V142);
        run.advance(Event::Installed { path: String::from("art/a"), exists: false });
        assert_eq!(run.phase(), Phase::CreateBuildDir);
        match run.action() {
            Action::File { op: FileOp::CreateBuildDir, dir_name, .. } => {
                assert_eq!(dir_name, format!("_{}", run.build_tag()));
                assert_eq!(dir_name.chars().count(), 6);
                assert!(!dirs.contains(&dir_name));
                dirs.push(dir_name);
            }
            _ => panic!("the workspace is created first"),
        }
    }
}

#[test]
fn the_workspace_is_removed_after_a_build() {
    let mut run = Orchestrator::new(vec![cmake_library("a", None)], VisualStudioToolsetVersion::V142);
    let mut w = world();
    drive(&mut run, &mut w);
    assert_eq!(run.outcomes(), &vec![Outcome::Built]);
    assert_eq!(w.log.last().unwrap(), "RemoveBuildDir _ ");
}

fn run_to_listing(entries: Vec<SourceEntry>) -> Orchestrator {
    let mut run = Orchestrator::new(vec![cmake_library("a", None)], VisualStudioToolsetVersion::V142);
    run.advance_with_tag(Event::Installed { path: String::from("art/a"), exists: false }, String::from("tag01"));
    run.advance(Event::Completed(true));
    run.advance(Event::Completed(true));
    run.advance(Event::Completed(true));
    run.advance(Event::Ran(CommandOutcome::Exited(true)));
    assert_eq!(run.phase(), Phase::ListBuildDir);
    run.advance(Event::Listed(entries));
    run
}

#[test]
fn an_archive_without_a_directory_stops_the_run_and_keeps_the_workspace() {
    let run = run_to_listing(vec![SourceEntry { path: String::from("w/archive.file"), is_dir: false }]);
    assert!(run.is_stopped());
    assert_eq!(run.failure(), Some(BuildFailure::AmbiguousSourceLayout));
    assert!(run.failure().unwrap().keeps_workspace());
    assert!(matches!(run.action(), Action::Stop));
}

#[test]
fn an_archive_with_two_directories_stops_the_run_and_keeps_the_workspace() {
    let run = run_to_listing(vec![
        SourceEntry { path: String::from("w/one"), is_dir: true },
        SourceEntry { path: String::from("w/two"), is_dir: true },
    ]);
    assert!(run.is_stopped());
    assert_eq!(run.failure(), Some(BuildFailure::AmbiguousSourceLayout));
    assert!(matches!(run.action(), Action::Stop));
}

#[test]
fn setup_failures_stop_without_cleanup() {
    let faults = [SetupFault::CreateDir, SetupFault::CopyArchive, SetupFault::EnterDir];
    for (n, fault) in faults.iter().enumerate() {
        let mut run = Orchestrator::new(vec![cmake_library("a", None)], VisualStudioToolsetVersion::V142);
        run.advance(Event::Installed { path: String::from("art/a"), exists: false });
        for _ in 0..n {
            run.advance(Event::Completed(true));
        }
        run.advance(Event::Completed(false));
        assert!(run.is_stopped());
        assert_eq!(run.failure(), Some(BuildFailure::WorkspaceSetup(*fault)));
    }
    let mut run = Orchestrator::new(vec![cmake_library("a", None)], VisualStudioToolsetVersion::V142);
    run.advance(Event::Completed(true));
    assert_eq!(run.failure(), Some(BuildFailure::WorkspaceSetup(SetupFault::Probe)));
    let mut run = Orchestrator::new(vec![cmake_library("a", None)], VisualStudioToolsetVersion::V142);
    run.advance(Event::Installed { path: String::from("art/a"), exists: false });
    run.advance(Event::Completed(true));
    run.advance(Event::Completed(true));
    run.advance(Event::Completed(true));
    run.advance(Event::Ran(CommandOutcome::NotStarted));
    assert_eq!(run.failure(), Some(BuildFailure::WorkspaceSetup(SetupFault::Extract)));
    let mut run = Orchestrator::new(vec![cmake_library("a", None)], VisualStudioToolsetVersion::V142);
    run.advance(Event::Installed { path: String::from("art/a"), exists: false });
    run.advance(Event::Completed(true));
    run.advance(Event::Completed(true));
    run.advance(Event::Completed(true));
    run.advance(Event::Ran(CommandOutcome::Exited(true)));
    run.advance(Event::Completed(false));
    assert_eq!(run.failure(), Some(BuildFailure::WorkspaceSetup(SetupFault::ListContents)));
}

#[test]
fn configure_runs_in_the_local_path_of_the_source_root() {
    let mut run = Orchestrator::new(
        vec![cmake_library("glew", Some(vec!["build", "cmake"]))],
        VisualStudioToolsetVersion::V142,
    );
    let mut w = world();
    let mut seen = false;
    while !run.is_stopped() {
        let action = run.action();
        if run.phase() == Phase::Configure {
            match &action {
                Action::Run(c) => {
                    assert!(c.has_source_argument);
                    assert_eq!(c.source_root, "w/src");
                    assert_eq!(c.subpath, vec!["build".to_string(), "cmake".to_string()]);
                    assert_eq!(c.args[6], "-DCMAKE_INSTALL_PREFIX=art/glew");
                    seen = true;
                }
                _ => panic!("configure runs a program"),
            }
        }
        let event = perform(&mut w, "glew", &action);
        run.advance(event);
    }
    assert!(seen);
    assert_eq!(run.outcomes(), &vec![Outcome::Built]);
}

#[test]
fn a_failed_step_skips_the_steps_after_it() {
    let mut run = Orchestrator::new(
        vec![custom_library("boost", &["one", "two", "three"]), cmake_library("z", None)],
        VisualStudioToolsetVersion::V142,
    );
    let mut w = world();
    w.failing_programs.push(String::from("boost:two"));
    let mut outputs: Vec<String> = Vec::new();
    while !run.is_stopped() {
        let action = run.action();
        if let Action::Run(c) = &action {
            if c.captured {
                outputs.push(c.stdout_file.clone());
                outputs.push(c.stderr_file.clone());
            }
        }
        let event = perform(&mut w, "boost", &action);
        run.advance(event);
    }
    assert_eq!(run.failure(), Some(BuildFailure::StepFailed(1, CommandFault::ExitStatus)));
    assert_eq!(outputs, vec!["stdout_one.txt", "stderr_one.txt", "stdout_two.txt", "stderr_two.txt"]);
    assert_eq!(count(&w.log, "run one"), 1);
    assert_eq!(count(&w.log, "run two"), 1);
    assert_eq!(count(&w.log, "run three"), 0);
    assert_eq!(count(&w.log, "EnterSourceDir _ w/src"), 2);
    assert_eq!(count(&w.log, "probe z"), 0);
    assert_eq!(count(&w.log, "RemoveBuildDir"), 1);
}

#[test]
fn custom_steps_run_in_order_from_the_source_root() {
    let mut run =
        Orchestrator::new(vec![custom_library("boost", &["one", "two", "three"])], VisualStudioToolsetVersion::V142);
    let mut w = world();
    drive(&mut run, &mut w);
    assert_eq!(run.outcomes(), &vec![Outcome::Built]);
    let tail: Vec<&str> = w.log.iter().skip(6).map(|s| s.as_str()).collect();
    assert_eq!(
        tail,
        vec![
            "EnterSourceDir _ w/src",
            "run one for boost",
            "EnterSourceDir _ w/src",
            "run two for boost",
            "EnterSourceDir _ w/src",
            "run three for boost",
            "ReturnToTop _ ",
            "sleep 100",
            "RemoveBuildDir _ ",
        ]
    );
}

#[test]
fn removal_is_tried_once_more_after_a_long_pause() {
    let mut run = Orchestrator::new(vec![cmake_library("a", None)], VisualStudioToolsetVersion::V142);
    let mut w = world();
    w.failing_removals = 1;
    drive(&mut run, &mut w);
    assert_eq!(run.failure(), None);
    assert_eq!(run.outcomes(), &vec![Outcome::Built]);
    let n = w.log.len();
    assert_eq!(
        w.log[n - 5..].to_vec(),
        vec!["sleep 100", "RemoveBuildDir _ ", "ReportCurrentDir _ ", "sleep 60000", "RemoveBuildDir _ "]
    );
}

#[test]
fn a_second_failed_removal_ends_the_run() {
    let mut run =
        Orchestrator::new(vec![cmake_library("a", None), cmake_library("b", None)], VisualStudioToolsetVersion::V142);
    let mut w = world();
    w.failing_removals = 2;
    drive(&mut run, &mut w);
    assert_eq!(run.failure(), Some(BuildFailure::CleanupFailure(CleanupFault::RemoveDir)));
    assert_eq!(run.index(), 0);
    assert_eq!(count(&w.log, "RemoveBuildDir"), 2);
    assert_eq!(count(&w.log, "probe b"), 0);
}

#[test]
fn a_run_that_cannot_return_to_the_top_ends() {
    let mut run = Orchestrator::new(vec![custom_library("a", &[])], VisualStudioToolsetVersion::V142);
    run.advance(Event::Installed { path: String::from("art/a"), exists: false });
    run.advance(Event::Completed(true));
    run.advance(Event::Completed(true));
    run.advance(Event::Completed(true));
    run.advance(Event::Ran(CommandOutcome::Exited(true)));
    run.advance(Event::Listed(vec![SourceEntry { path: String::from("w/src"), is_dir: true }]));
    assert_eq!(run.phase(), Phase::ReturnToTop);
    run.advance(Event::Completed(false));
    assert_eq!(run.failure(), Some(BuildFailure::CleanupFailure(CleanupFault::ReturnToTop)));
}

#[test]
fn a_program_whose_output_cannot_be_kept_fails_the_build() {
    let outcomes = [
        (CommandOutcome::NotStarted, CommandFault::NotStarted),
        (CommandOutcome::StdoutNotWritten, CommandFault::StdoutNotWritten),
        (CommandOutcome::StderrNotWritten, CommandFault::StderrNotWritten),
        (CommandOutcome::Exited(false), CommandFault::ExitStatus),
    ];
    for (outcome, fault) in outcomes {
        let mut run = Orchestrator::new(vec![custom_library("a", &["one"])], VisualStudioToolsetVersion::V142);
        let mut w = world();
        while !run.is_stopped() {
            let action = run.action();
            let event = match &action {
                Action::Run(c) if c.program == "one" => Event::Ran(outcome),
                _ => perform(&mut w, "a", &action),
            };
            run.advance(event);
        }
        assert_eq!(run.failure(), Some(BuildFailure::StepFailed(0, fault)));
    }
}

fn library_of(log: &Vec<String>) -> String {
    match log.iter().rev().find(|l| l.starts_with("probe ")) {
        Some(line) => line[6..].to_string(),
        None => String::new(),
    }
}

#[test]
fn a_whole_run_builds_every_library_in_catalog_order() {
    let w = RefCell::new(world());
    w.borrow_mut().installed.push(String::from("b"));
    let catalog = vec![cmake_library("a", None), cmake_library("b", None), custom_library("c", &["one", "two"])];
    let done = run(catalog, VisualStudioToolsetVersion::V142, |action: &Action| {
        let mut w = w.borrow_mut();
        let current = match action {
            Action::Probe { library } => library.clone(),
            _ => library_of(&w.log),
        };
        perform(&mut w, &current, action)
    });
    assert!(done.is_stopped());
    assert_eq!(done.failure(), None);
    assert_eq!(done.index(), 3);
    assert_eq!(done.outcomes(), &vec![Outcome::Built, Outcome::Skipped, Outcome::Built]);
    let w = w.borrow();
    let probes: Vec<&String> = w.log.iter().filter(|l| l.starts_with("probe ")).collect();
    assert_eq!(probes, vec!["probe a", "probe b", "probe c"]);
    assert_eq!(count(&w.log, "run cmake for a"), 2);
    assert_eq!(count(&w.log, "run cmake for b"), 0);
    assert_eq!(count(&w.log, "run one for c"), 1);
    assert_eq!(count(&w.log, "run two for c"), 1);
    assert_eq!(count(&w.log, "RemoveBuildDir"), 2);
}

#[test]
fn a_whole_run_stops_at_the_first_failure() {
    let w = RefCell::new(world());
    w.borrow_mut().failing_programs.push(String::from("b:-G"));
    let catalog = vec![cmake_library("a", None), cmake_library("b", Some(vec!["x"])), cmake_library("c", None)];
    let done = run(catalog, VisualStudioToolsetVersion::V140, |action: &Action| {
        let mut w = w.borrow_mut();
        let current = match action {
            Action::Probe { library } => library.clone(),
            _ => library_of(&w.log),
        };
        perform(&mut w, &current, action)
    });
    assert!(done.is_stopped());
    assert_eq!(done.failure(), Some(BuildFailure::ConfigureFailed(CommandFault::ExitStatus)));
    assert_eq!(done.index(), 1);
    assert_eq!(done.outcomes(), &vec![Outcome::Built]);
    let w = w.borrow();
    assert_eq!(w.installed, vec!["a"]);
    assert_eq!(count(&w.log, "probe c"), 0);
    assert_eq!(count(&w.log, "run cmake for b"), 1);
    assert_eq!(w.log.last().unwrap(), "RemoveBuildDir _ ");
}

#[test]
fn a_whole_run_over_installed_libraries_only_looks() {
    let w = RefCell::new(world());
    w.borrow_mut().installed = vec![String::from("a"), String::from("b")];
    let catalog = vec![cmake_library("a", None), custom_library("b", &["one"])];
    let done = run(catalog, VisualStudioToolsetVersion::V141, |action: &Action| {
        let mut w = w.borrow_mut();
        perform(&mut w, "", action)
    });
    assert_eq!(done.failure(), None);
    assert_eq!(done.outcomes(), &vec![Outcome::Skipped, Outcome::Skipped]);
    assert_eq!(w.borrow().log, vec!["probe a", "probe b"]);
}

#[test]
fn one_library_is_built_and_installed() {
    let w = RefCell::new(world());
    let result = build_and_install(cmake_library("a", None), VisualStudioToolsetVersion::V142, |action: &Action| {
        perform(&mut w.borrow_mut(), "a", action)
    });
    assert!(result.is_ok());
    assert_eq!(w.borrow().installed, vec!["a"]);
    assert_eq!(w.borrow().log.len(), 13);
    let again = build_and_install(cmake_library("a", None), VisualStudioToolsetVersion::V142, |action: &Action| {
        perform(&mut w.borrow_mut(), "a", action)
    });
    assert!(again.is_ok());
    assert_eq!(w.borrow().log.len(), 14);
    assert_eq!(w.borrow().log.last().unwrap(), "probe a");
}

#[test]
fn one_library_that_fails_reports_its_message() {
    let w = RefCell::new(world());
    w.borrow_mut().failing_programs.push(String::from("a:--build"));
    let result = build_and_install(cmake_library("a", None), VisualStudioToolsetVersion::V142, |action: &Action| {
        perform(&mut w.borrow_mut(), "a", action)
    });
    match result {
        Ok(_) => panic!("the build tool failed"),
        Err(e) => assert_eq!(e.message, "Cmake build reported an error"),
    }
    assert!(w.borrow().installed.is_empty());
    let w = RefCell::new(world());
    w.borrow_mut().entries.clear();
    let result = build_and_install(custom_library("a", &["one"]), VisualStudioToolsetVersion::V142, |action: &Action| {
        perform(&mut w.borrow_mut(), "a", action)
    });
    match result {
        Ok(_) => panic!("no source directory was found"),
        Err(e) => assert_eq!(e.message, "Failed to find extracted source directory"),
    }
    assert_eq!(count(&w.borrow().log, "RemoveBuildDir"), 0);
    assert_eq!(count(&w.borrow().log, "run one"), 0);
}
