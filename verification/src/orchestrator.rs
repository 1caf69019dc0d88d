//! The run as a state machine.
//!
//! The caller owns processes and the file system. It asks the [`Orchestrator`]
//! for the next [`Action`], performs it, and reports what happened as an
//! [`Event`]. The orchestrator decides everything else: which library is next,
//! whether it is skipped, when its workspace is removed, and when the run stops.

use vstd::prelude::*;
use vstd::string::*;
use crate::error::{BuildFailure, CleanupFault, CommandFault, SetupFault};
use crate::strategy::{
    Command, CommandModel, build_command, build_model, configure_command, configure_model,
    extract_command, extract_model, step_command, step_model,
};
use crate::types::{
    BuildType, LibraryDetails, LibraryModel, StrategyModel, VisualStudioToolsetVersion,
    library_models,
};
use crate::workspace::{
    EntryModel, SourceEntry, build_dir_name, build_dir_of, entry_models, generate_build_tag,
    has_only_dir, is_build_tag, only_dir, only_dir_index,
};

verus! {

/// The pause before a workspace is removed, in milliseconds.
pub const SETTLE_MILLIS: u64 = 100;

/// The pause before a workspace is removed a second time, in milliseconds.
pub const RETRY_MILLIS: u64 = 60000;

/// What the orchestrator waits for.
#[derive(Clone, Copy, Debug, PartialEq, Eq, Structural)]
pub enum Phase {
    CheckInstalled,
    CreateBuildDir,
    CopyArchive,
    EnterBuildDir,
    ExtractArchive,
    ListBuildDir,
    CreateInnerDir,
    EnterInnerDir,
    Configure,
    Build,
    /// Entering the source directory before the custom step at this position.
    EnterSourceDir(usize),
    /// Running the custom step at this position.
    RunStep(usize),
    ReturnToTop,
    Settle,
    RemoveBuildDir,
    ReportCurrentDir,
    Wait,
    RemoveAgain,
    /// The run is over.
    Stopped,
}

/// How a library came to be installed.
#[derive(Clone, Copy, Debug, PartialEq, Eq, Structural)]
pub enum Outcome {
    /// Its install directory was already there.
    Skipped,
    /// It was built in this run.
    Built,
}

/// How the run of an external program went.
#[derive(Clone, Copy, Debug, PartialEq, Eq, Structural)]
pub enum CommandOutcome {
    NotStarted,
    StdoutNotWritten,
    StderrNotWritten,
    /// The program ran to its end, with success or not.
    Exited(bool),
}

/// What the caller reports after it performed an action.
pub enum Event {
    /// The install directory of the library, and whether it exists.
    Installed { path: String, exists: bool },
    /// A file operation or a pause is over; the flag tells whether it succeeded.
    Completed(bool),
    /// The entries of the workspace.
    Listed(Vec<SourceEntry>),
    /// A program was run.
    Ran(CommandOutcome),
}

/// What an [`Event`] holds.
pub enum EventModel {
    Installed { path: Seq<char>, exists: bool },
    Completed(bool),
    Listed(Seq<EntryModel>),
    Ran(CommandOutcome),
}

impl View for Event {
    type V = EventModel;

    open spec fn view(&self) -> EventModel {
        match self {
            Event::Installed { path, exists } => EventModel::Installed { path: path@, exists: *exists },
            Event::Completed(ok) => EventModel::Completed(*ok),
            Event::Listed(entries) => EventModel::Listed(entry_models(entries@)),
            Event::Ran(outcome) => EventModel::Ran(*outcome),
        }
    }
}

/// An operation on the file system. The workspace is the directory `dir_name`
/// below the top directory.
#[derive(Clone, Copy, Debug, PartialEq, Eq, Structural)]
pub enum FileOp {
    CreateBuildDir,
    /// Copy the archive `name` of the archive directory into the workspace.
    CopyArchive,
    EnterBuildDir,
    ListBuildDir,
    /// Create the directory `name` in the workspace.
    CreateInnerDir,
    /// Enter the directory `name` of the workspace.
    EnterInnerDir,
    /// Enter the directory with the path `name`.
    EnterSourceDir,
    ReturnToTop,
    RemoveBuildDir,
    ReportCurrentDir,
}

/// What the caller is to do next.
pub enum Action {
    /// Look whether the directory `library` exists below the artifact directory.
    Probe { library: String },
    File { op: FileOp, dir_name: String, name: String },
    Run(Command),
    Sleep { millis: u64 },
    /// Nothing: the run is over.
    Stop,
}

/// What an [`Action`] holds.
pub enum ActionModel {
    Probe { library: Seq<char> },
    File { op: FileOp, dir_name: Seq<char>, name: Seq<char> },
    Run(CommandModel),
    Sleep { millis: u64 },
    Stop,
}

impl View for Action {
    type V = ActionModel;

    open spec fn view(&self) -> ActionModel {
        match self {
            Action::Probe { library } => ActionModel::Probe { library: library@ },
            Action::File { op, dir_name, name } => ActionModel::File {
                op: *op,
                dir_name: dir_name@,
                name: name@,
            },
            Action::Run(c) => ActionModel::Run(c@),
            Action::Sleep { millis } => ActionModel::Sleep { millis: *millis },
            Action::Stop => ActionModel::Stop,
        }
    }
}

/// The state of a run.
pub struct RunModel {
    pub catalog: Seq<LibraryModel>,
    pub toolset: VisualStudioToolsetVersion,
    /// The position of the library at hand.
    pub index: nat,
    pub phase: Phase,
    pub tag: Seq<char>,
    pub install_dir: Seq<char>,
    pub source_root: Seq<char>,
    /// The failure of the strategy, kept while the workspace is removed.
    pub pending: Option<BuildFailure>,
    /// The failure that stopped the run.
    pub failure: Option<BuildFailure>,
    /// How each library before `index` came to be installed.
    pub outcomes: Seq<Outcome>,
}

/// Whether the phase belongs to the strategy of a CMake library.
pub open spec fn is_cmake_phase(p: Phase) -> bool {
    p == Phase::CreateInnerDir || p == Phase::EnterInnerDir || p == Phase::Configure || p == Phase::Build
}

/// The position of the custom step that the phase belongs to.
pub open spec fn custom_step_of(p: Phase) -> Option<usize> {
    match p {
        Phase::EnterSourceDir(k) => Some(k),
        Phase::RunStep(k) => Some(k),
        _ => None,
    }
}

/// Whether the phase belongs to the removal of the workspace.
pub open spec fn is_cleanup_phase(p: Phase) -> bool {
    p == Phase::ReturnToTop || p == Phase::Settle || p == Phase::RemoveBuildDir || p
        == Phase::ReportCurrentDir || p == Phase::Wait || p == Phase::RemoveAgain
}

/// The states that a run can be in.
pub open spec fn model_wf(m: RunModel) -> bool {
    &&& m.index <= m.catalog.len()
    &&& m.outcomes.len() == m.index
    &&& m.phase != Phase::Stopped ==> m.index < m.catalog.len() && m.failure is None
    &&& m.phase == Phase::Stopped && m.failure is None ==> m.index == m.catalog.len()
    &&& m.phase == Phase::Stopped && m.failure is Some ==> m.index < m.catalog.len()
    &&& is_cmake_phase(m.phase) ==> m.catalog[m.index as int].strategy is CMake
    &&& custom_step_of(m.phase) matches Some(k) ==> (m.catalog[m.index as int].strategy matches StrategyModel::Custom {
        steps,
    } && k < steps.len())
    &&& m.pending is Some ==> is_cleanup_phase(m.phase) || (m.phase == Phase::Stopped && m.failure is Some)
}

/// The state in which a run begins.
pub open spec fn initial_model(catalog: Seq<LibraryModel>, toolset: VisualStudioToolsetVersion) -> RunModel {
    RunModel {
        catalog,
        toolset,
        index: 0,
        phase: if catalog.len() > 0 { Phase::CheckInstalled } else { Phase::Stopped },
        tag: Seq::empty(),
        install_dir: Seq::empty(),
        source_root: Seq::empty(),
        pending: None,
        failure: None,
        outcomes: Seq::empty(),
    }
}

/// The library at hand is installed: the run goes on with the next one, or
/// ends after the last.
pub open spec fn completed(m: RunModel, outcome: Outcome) -> RunModel {
    RunModel {
        index: m.index + 1,
        phase: if m.index + 1 < m.catalog.len() { Phase::CheckInstalled } else { Phase::Stopped },
        pending: None,
        failure: None,
        outcomes: m.outcomes.push(outcome),
        ..m
    }
}

/// The run stops at the library at hand.
pub open spec fn failed(m: RunModel, failure: BuildFailure) -> RunModel {
    RunModel { phase: Phase::Stopped, failure: Some(failure), ..m }
}

/// The strategy failed: its failure is kept and the workspace is removed.
pub open spec fn released(m: RunModel, failure: BuildFailure) -> RunModel {
    RunModel { phase: Phase::ReturnToTop, pending: Some(failure), ..m }
}

/// The workspace is gone: the attempt ends as its strategy did.
pub open spec fn finished(m: RunModel) -> RunModel {
    match m.pending {
        Some(f) => failed(m, f),
        None => completed(m, Outcome::Built),
    }
}

/// The failure that stops the run when removing the workspace failed: that of
/// the strategy if it had one, else that of the removal.
pub open spec fn cleanup_failure(m: RunModel, fault: CleanupFault) -> BuildFailure {
    match m.pending {
        Some(f) => f,
        None => BuildFailure::CleanupFailure(fault),
    }
}

/// The phase in which the strategy of a library begins.
pub open spec fn first_strategy_phase(s: StrategyModel) -> Phase {
    match s {
        StrategyModel::CMake { .. } => Phase::CreateInnerDir,
        StrategyModel::Custom { steps } => if steps.len() > 0 {
            Phase::EnterSourceDir(0)
        } else {
            Phase::ReturnToTop
        },
    }
}

/// The phase that follows the custom step at position `k`, when it succeeded.
pub open spec fn phase_after_step(s: StrategyModel, k: usize) -> Phase {
    match s {
        StrategyModel::Custom { steps } => if k < usize::MAX && k + 1 < steps.len() {
            Phase::EnterSourceDir((k + 1) as usize)
        } else {
            Phase::ReturnToTop
        },
        _ => Phase::ReturnToTop,
    }
}

/// Whether the event reports a success.
pub open spec fn succeeded(ev: EventModel) -> bool {
    ev == EventModel::Completed(true)
}

/// What went wrong with the program run that the event reports, if anything did.
/// An event of another kind counts as a run that did not start.
pub open spec fn command_fault(ev: EventModel) -> Option<CommandFault> {
    match ev {
        EventModel::Ran(CommandOutcome::Exited(true)) => None,
        EventModel::Ran(CommandOutcome::Exited(false)) => Some(CommandFault::ExitStatus),
        EventModel::Ran(CommandOutcome::StdoutNotWritten) => Some(CommandFault::StdoutNotWritten),
        EventModel::Ran(CommandOutcome::StderrNotWritten) => Some(CommandFault::StderrNotWritten),
        _ => Some(CommandFault::NotStarted),
    }
}

/// The state after `ev` was reported in state `m`. A new attempt takes `tag`.
pub open spec fn next_model(m: RunModel, ev: EventModel, tag: Seq<char>) -> RunModel {
    let strategy = m.catalog[m.index as int].strategy;
    match m.phase {
        Phase::Stopped => m,
        Phase::CheckInstalled => match ev {
            EventModel::Installed { path, exists } => if exists {
                completed(m, Outcome::Skipped)
            } else {
                RunModel {
                    phase: Phase::CreateBuildDir,
                    tag,
                    install_dir: path,
                    source_root: Seq::empty(),
                    pending: None,
                    ..m
                }
            },
            _ => failed(m, BuildFailure::WorkspaceSetup(SetupFault::Probe)),
        },
        Phase::CreateBuildDir => if succeeded(ev) {
            RunModel { phase: Phase::CopyArchive, ..m }
        } else {
            failed(m, BuildFailure::WorkspaceSetup(SetupFault::CreateDir))
        },
        Phase::CopyArchive => if succeeded(ev) {
            RunModel { phase: Phase::EnterBuildDir, ..m }
        } else {
            failed(m, BuildFailure::WorkspaceSetup(SetupFault::CopyArchive))
        },
        Phase::EnterBuildDir => if succeeded(ev) {
            RunModel { phase: Phase::ExtractArchive, ..m }
        } else {
            failed(m, BuildFailure::WorkspaceSetup(SetupFault::EnterDir))
        },
        Phase::ExtractArchive => if command_fault(ev) is None {
            RunModel { phase: Phase::ListBuildDir, ..m }
        } else {
            failed(m, BuildFailure::WorkspaceSetup(SetupFault::Extract))
        },
        Phase::ListBuildDir => match ev {
            EventModel::Listed(entries) => if has_only_dir(entries) {
                RunModel {
                    phase: first_strategy_phase(strategy),
                    source_root: entries[only_dir(entries)].path,
                    ..m
                }
            } else {
                failed(m, BuildFailure::AmbiguousSourceLayout)
            },
            _ => failed(m, BuildFailure::WorkspaceSetup(SetupFault::ListContents)),
        },
        Phase::CreateInnerDir => if succeeded(ev) {
            RunModel { phase: Phase::EnterInnerDir, ..m }
        } else {
            released(m, BuildFailure::ConfigureFailed(CommandFault::WorkingDirNotCreated))
        },
        Phase::EnterInnerDir => if succeeded(ev) {
            RunModel { phase: Phase::Configure, ..m }
        } else {
            released(m, BuildFailure::ConfigureFailed(CommandFault::WorkingDirNotEntered))
        },
        Phase::Configure => match command_fault(ev) {
            None => RunModel { phase: Phase::Build, ..m },
            Some(f) => released(m, BuildFailure::ConfigureFailed(f)),
        },
        Phase::Build => match command_fault(ev) {
            None => RunModel { phase: Phase::ReturnToTop, ..m },
            Some(f) => released(m, BuildFailure::BuildFailed(f)),
        },
        Phase::EnterSourceDir(k) => if succeeded(ev) {
            RunModel { phase: Phase::RunStep(k), ..m }
        } else {
            released(m, BuildFailure::StepFailed(k, CommandFault::WorkingDirNotEntered))
        },
        Phase::RunStep(k) => match command_fault(ev) {
            None => RunModel { phase: phase_after_step(strategy, k), ..m },
            Some(f) => released(m, BuildFailure::StepFailed(k, f)),
        },
        Phase::ReturnToTop => if succeeded(ev) {
            RunModel { phase: Phase::Settle, ..m }
        } else {
            failed(m, cleanup_failure(m, CleanupFault::ReturnToTop))
        },
        Phase::Settle => RunModel { phase: Phase::RemoveBuildDir, ..m },
        Phase::RemoveBuildDir => if succeeded(ev) {
            finished(m)
        } else {
            RunModel { phase: Phase::ReportCurrentDir, ..m }
        },
        Phase::ReportCurrentDir => RunModel { phase: Phase::Wait, ..m },
        Phase::Wait => RunModel { phase: Phase::RemoveAgain, ..m },
        Phase::RemoveAgain => if succeeded(ev) {
            finished(m)
        } else {
            failed(m, cleanup_failure(m, CleanupFault::RemoveDir))
        },
    }
}

/// A file operation on the workspace of the attempt at hand.
pub open spec fn file_action(m: RunModel, op: FileOp, name: Seq<char>) -> ActionModel {
    ActionModel::File { op, dir_name: build_dir_of(m.tag), name }
}

/// What the caller is to do in state `m`.
pub open spec fn action_model(m: RunModel) -> ActionModel {
    let library = m.catalog[m.index as int];
    match m.phase {
        Phase::Stopped => ActionModel::Stop,
        Phase::CheckInstalled => ActionModel::Probe { library: library.name },
        Phase::CreateBuildDir => file_action(m, FileOp::CreateBuildDir, Seq::empty()),
        Phase::CopyArchive => file_action(m, FileOp::CopyArchive, library.file_name),
        Phase::EnterBuildDir => file_action(m, FileOp::EnterBuildDir, Seq::empty()),
        Phase::ExtractArchive => ActionModel::Run(extract_model()),
        Phase::ListBuildDir => file_action(m, FileOp::ListBuildDir, Seq::empty()),
        Phase::CreateInnerDir => file_action(m, FileOp::CreateInnerDir, "build"@),
        Phase::EnterInnerDir => file_action(m, FileOp::EnterInnerDir, "build"@),
        Phase::Configure => match library.strategy {
            StrategyModel::CMake { local_path, extra_args } => ActionModel::Run(
                configure_model(m.source_root, m.install_dir, m.toolset, local_path, extra_args),
            ),
            _ => ActionModel::Stop,
        },
        Phase::Build => ActionModel::Run(build_model()),
        Phase::EnterSourceDir(_) => file_action(m, FileOp::EnterSourceDir, m.source_root),
        Phase::RunStep(k) => match library.strategy {
            StrategyModel::Custom { steps } => if k < steps.len() {
                ActionModel::Run(step_model(steps[k as int]))
            } else {
                ActionModel::Stop
            },
            _ => ActionModel::Stop,
        },
        Phase::ReturnToTop => file_action(m, FileOp::ReturnToTop, Seq::empty()),
        Phase::Settle => ActionModel::Sleep { millis: SETTLE_MILLIS },
        Phase::RemoveBuildDir => file_action(m, FileOp::RemoveBuildDir, Seq::empty()),
        Phase::ReportCurrentDir => file_action(m, FileOp::ReportCurrentDir, Seq::empty()),
        Phase::Wait => ActionModel::Sleep { millis: RETRY_MILLIS },
        Phase::RemoveAgain => file_action(m, FileOp::RemoveBuildDir, Seq::empty()),
    }
}

/// Every step of a run leads from a well-formed state to a well-formed state.
pub proof fn lemma_next_wf(m: RunModel, ev: EventModel, tag: Seq<char>)
    requires
        model_wf(m),
    ensures
        model_wf(next_model(m, ev, tag)),
{
}

/// One run over a catalog.
pub struct Orchestrator {
    catalog: Vec<LibraryDetails>,
    toolset: VisualStudioToolsetVersion,
    index: usize,
    phase: Phase,
    tag: String,
    install_dir: String,
    source_root: String,
    pending: Option<BuildFailure>,
    failure: Option<BuildFailure>,
    outcomes: Vec<Outcome>,
}

impl View for Orchestrator {
    type V = RunModel;

    closed spec fn view(&self) -> RunModel {
        RunModel {
            catalog: library_models(self.catalog@),
            toolset: self.toolset,
            index: self.index as nat,
            phase: self.phase,
            tag: self.tag@,
            install_dir: self.install_dir@,
            source_root: self.source_root@,
            pending: self.pending,
            failure: self.failure,
            outcomes: self.outcomes@,
        }
    }
}

fn event_succeeded(event: &Event) -> (r: bool)
    ensures
        r == succeeded(event@),
{
    match event {
        Event::Completed(ok) => *ok,
        _ => false,
    }
}

fn event_fault(event: &Event) -> (r: Option<CommandFault>)
    ensures
        r == command_fault(event@),
{
    match event {
        Event::Ran(CommandOutcome::Exited(true)) => None,
        Event::Ran(CommandOutcome::Exited(false)) => Some(CommandFault::ExitStatus),
        Event::Ran(CommandOutcome::StdoutNotWritten) => Some(CommandFault::StdoutNotWritten),
        Event::Ran(CommandOutcome::StderrNotWritten) => Some(CommandFault::StderrNotWritten),
        _ => Some(CommandFault::NotStarted),
    }
}

impl Orchestrator {
    /// Whether the state is one that a run can be in.
    pub open spec fn wf(&self) -> bool {
        model_wf(self@)
    }

    /// A run over `catalog` that has not begun.
    pub fn new(catalog: Vec<LibraryDetails>, toolset: VisualStudioToolsetVersion) -> (r: Self)
        ensures
            r.wf(),
            r@ == initial_model(library_models(catalog@), toolset),
    {
        let phase = if catalog.len() > 0 { Phase::CheckInstalled } else { Phase::Stopped };
        Orchestrator {
            catalog,
            toolset,
            index: 0,
            phase,
            tag: String::new(),
            install_dir: String::new(),
            source_root: String::new(),
            pending: None,
            failure: None,
            outcomes: Vec::new(),
        }
    }

    /// The position in the catalog of the library at hand.
    pub fn index(&self) -> (r: usize)
        ensures
            r == self@.index,
    {
        self.index
    }

    /// What the orchestrator waits for.
    pub fn phase(&self) -> (r: Phase)
        ensures
            r == self@.phase,
    {
        self.phase
    }

    /// Whether the run is over.
    pub fn is_stopped(&self) -> (r: bool)
        ensures
            r == (self@.phase == Phase::Stopped),
    {
        match self.phase {
            Phase::Stopped => true,
            _ => false,
        }
    }

    /// The failure that stopped the run, if one did.
    pub fn failure(&self) -> (r: Option<BuildFailure>)
        ensures
            r == self@.failure,
    {
        self.failure
    }

    /// How each library before the one at hand came to be installed.
    pub fn outcomes(&self) -> (r: &Vec<Outcome>)
        ensures
            r@ == self@.outcomes,
    {
        &self.outcomes
    }

    /// The tag of the attempt at hand.
    pub fn build_tag(&self) -> (r: &String)
        ensures
            r@ == self@.tag,
    {
        &self.tag
    }

    /// The libraries of the run.
    pub fn catalog(&self) -> (r: &Vec<LibraryDetails>)
        ensures
            library_models(r@) == self@.catalog,
    {
        &self.catalog
    }

    fn complete(&mut self, outcome: Outcome)
        requires
            old(self).wf(),
            old(self)@.phase != Phase::Stopped,
        ensures
            final(self)@ == completed(old(self)@, outcome),
    {
        let count: usize = self.catalog.len();
        let next: usize = self.index + 1;
        self.outcomes.push(outcome);
        self.index = next;
        self.pending = None;
        self.failure = None;
        self.phase = if next < count { Phase::CheckInstalled } else { Phase::Stopped };
    }

    fn fail(&mut self, failure: BuildFailure)
        ensures
            final(self)@ == failed(old(self)@, failure),
    {
        self.phase = Phase::Stopped;
        self.failure = Some(failure);
    }

    fn release(&mut self, failure: BuildFailure)
        ensures
            final(self)@ == released(old(self)@, failure),
    {
        self.phase = Phase::ReturnToTop;
        self.pending = Some(failure);
    }

    fn finish(&mut self)
        requires
            old(self).wf(),
            old(self)@.phase != Phase::Stopped,
        ensures
            final(self)@ == finished(old(self)@),
    {
        match self.pending {
            Some(f) => self.fail(f),
            None => self.complete(Outcome::Built),
        }
    }

    fn cleanup_failed(&mut self, fault: CleanupFault)
        ensures
            final(self)@ == failed(old(self)@, cleanup_failure(old(self)@, fault)),
    {
        match self.pending {
            Some(f) => self.fail(f),
            None => self.fail(BuildFailure::CleanupFailure(fault)),
        }
    }

    fn go(&mut self, phase: Phase)
        ensures
            final(self)@ == (RunModel { phase, ..old(self)@ }),
    {
        self.phase = phase;
    }

    fn go_if(&mut self, ok: bool, phase: Phase, fault: SetupFault)
        ensures
            final(self)@ == if ok {
                RunModel { phase, ..old(self)@ }
            } else {
                failed(old(self)@, BuildFailure::WorkspaceSetup(fault))
            },
    {
        if ok {
            self.phase = phase;
        } else {
            self.fail(BuildFailure::WorkspaceSetup(fault));
        }
    }

    fn strategy_start(&self) -> (r: Phase)
        requires
            self.wf(),
            self@.phase != Phase::Stopped,
        ensures
            r == first_strategy_phase(self@.catalog[self@.index as int].strategy),
    {
        match &self.catalog[self.index].build_type {
            BuildType::CMake(_) => Phase::CreateInnerDir,
            BuildType::Custom(d) => if d.steps.len() > 0 {
                Phase::EnterSourceDir(0)
            } else {
                Phase::ReturnToTop
            },
        }
    }

    fn after_step(&self, k: usize) -> (r: Phase)
        requires
            self.wf(),
            self@.phase == Phase::RunStep(k),
        ensures
            r == phase_after_step(self@.catalog[self@.index as int].strategy, k),
    {
        assert(self@.catalog[self.index as int] == self.catalog@[self.index as int]@);
        match &self.catalog[self.index].build_type {
            BuildType::Custom(d) => if k < d.steps.len() - 1 {
                Phase::EnterSourceDir(k + 1)
            } else {
                Phase::ReturnToTop
            },
            _ => Phase::ReturnToTop,
        }
    }

    fn source_found(&mut self, entries: &Vec<SourceEntry>)
        requires
            old(self).wf(),
            old(self)@.phase == Phase::ListBuildDir,
        ensures
            final(self)@ == next_model(old(self)@, EventModel::Listed(entry_models(entries@)), Seq::empty()),
    {
        match only_dir_index(entries) {
            Ok(i) => {
                let phase = self.strategy_start();
                self.source_root = entries[i].path.clone();
                self.phase = phase;
            },
            Err(e) => self.fail(e),
        }
    }

    /// Takes the report of the action last performed and moves to the next
    /// state. Where a new attempt begins, it works under `tag`.
    pub fn advance_with_tag(&mut self, event: Event, tag: String)
        requires
            old(self).wf(),
        ensures
            final(self).wf(),
            final(self)@ == next_model(old(self)@, event@, tag@),
    {
        proof {
            lemma_next_wf(self@, event@, tag@);
        }
        match self.phase {
            Phase::Stopped => {},
            Phase::CheckInstalled => match event {
                Event::Installed { path, exists } => {
                    if exists {
                        self.complete(Outcome::Skipped);
                    } else {
                        self.tag = tag;
                        self.install_dir = path;
                        self.source_root = String::new();
                        self.pending = None;
                        self.phase = Phase::CreateBuildDir;
                    }
                },
                _ => self.fail(BuildFailure::WorkspaceSetup(SetupFault::Probe)),
            },
            Phase::CreateBuildDir => self.go_if(event_succeeded(&event), Phase::CopyArchive, SetupFault::CreateDir),
            Phase::CopyArchive => self.go_if(event_succeeded(&event), Phase::EnterBuildDir, SetupFault::CopyArchive),
            Phase::EnterBuildDir => self.go_if(event_succeeded(&event), Phase::ExtractArchive, SetupFault::EnterDir),
            Phase::ExtractArchive => self.go_if(event_fault(&event).is_none(), Phase::ListBuildDir, SetupFault::Extract),
            Phase::ListBuildDir => match event {
                Event::Listed(entries) => self.source_found(&entries),
                _ => self.fail(BuildFailure::WorkspaceSetup(SetupFault::ListContents)),
            },
            Phase::CreateInnerDir => if event_succeeded(&event) {
                self.go(Phase::EnterInnerDir);
            } else {
                self.release(BuildFailure::ConfigureFailed(CommandFault::WorkingDirNotCreated));
            },
            Phase::EnterInnerDir => if event_succeeded(&event) {
                self.go(Phase::Configure);
            } else {
                self.release(BuildFailure::ConfigureFailed(CommandFault::WorkingDirNotEntered));
            },
            Phase::Configure => match event_fault(&event) {
                None => self.go(Phase::Build),
                Some(f) => self.release(BuildFailure::ConfigureFailed(f)),
            },
            Phase::Build => match event_fault(&event) {
                None => self.go(Phase::ReturnToTop),
                Some(f) => self.release(BuildFailure::BuildFailed(f)),
            },
            Phase::EnterSourceDir(k) => if event_succeeded(&event) {
                self.go(Phase::RunStep(k));
            } else {
                self.release(BuildFailure::StepFailed(k, CommandFault::WorkingDirNotEntered));
            },
            Phase::RunStep(k) => match event_fault(&event) {
                None => {
                    let phase = self.after_step(k);
                    self.go(phase);
                },
                Some(f) => self.release(BuildFailure::StepFailed(k, f)),
            },
            Phase::ReturnToTop => if event_succeeded(&event) {
                self.go(Phase::Settle);
            } else {
                self.cleanup_failed(CleanupFault::ReturnToTop);
            },
            Phase::Settle => self.go(Phase::RemoveBuildDir),
            Phase::RemoveBuildDir => if event_succeeded(&event) {
                self.finish();
            } else {
                self.go(Phase::ReportCurrentDir);
            },
            Phase::ReportCurrentDir => self.go(Phase::Wait),
            Phase::Wait => self.go(Phase::RemoveAgain),
            Phase::RemoveAgain => if event_succeeded(&event) {
                self.finish();
            } else {
                self.cleanup_failed(CleanupFault::RemoveDir);
            },
        }
    }

    /// Takes the report of the action last performed and moves to the next
    /// state. Where a new attempt begins, it works under a freshly drawn tag.
    pub fn advance(&mut self, event: Event)
        requires
            old(self).wf(),
        ensures
            final(self).wf(),
            exists|tag: Seq<char>|
                (old(self)@.phase == Phase::CheckInstalled ==> is_build_tag(tag)) && final(self)@
                    == #[trigger] next_model(old(self)@, event@, tag),
    {
        let tag = match self.phase {
            Phase::CheckInstalled => generate_build_tag(),
            _ => String::new(),
        };
        self.advance_with_tag(event, tag);
    }

    fn file(&self, op: FileOp, name: String) -> (r: Action)
        ensures
            r@ == file_action(self@, op, name@),
    {
        Action::File { op, dir_name: build_dir_name(self.tag.as_str()), name }
    }

    /// What the caller is to do next.
    pub fn action(&self) -> (r: Action)
        requires
            self.wf(),
        ensures
            r@ == action_model(self@),
    {
        assert(self.index < self.catalog@.len() ==> self@.catalog[self.index as int]
            == self.catalog@[self.index as int]@);
        match self.phase {
            Phase::Stopped => Action::Stop,
            Phase::CheckInstalled => Action::Probe { library: String::from_str(self.catalog[self.index].name) },
            Phase::CreateBuildDir => self.file(FileOp::CreateBuildDir, String::new()),
            Phase::CopyArchive => self.file(FileOp::CopyArchive, String::from_str(self.catalog[self.index].file_name)),
            Phase::EnterBuildDir => self.file(FileOp::EnterBuildDir, String::new()),
            Phase::ExtractArchive => Action::Run(extract_command()),
            Phase::ListBuildDir => self.file(FileOp::ListBuildDir, String::new()),
            Phase::CreateInnerDir => self.file(FileOp::CreateInnerDir, String::from_str("build")),
            Phase::EnterInnerDir => self.file(FileOp::EnterInnerDir, String::from_str("build")),
            Phase::Configure => match &self.catalog[self.index].build_type {
                BuildType::CMake(d) => Action::Run(
                    configure_command(self.source_root.as_str(), self.install_dir.as_str(), &self.toolset, d),
                ),
                _ => Action::Stop,
            },
            Phase::Build => Action::Run(build_command()),
            Phase::EnterSourceDir(_) => self.file(FileOp::EnterSourceDir, self.source_root.clone()),
            Phase::RunStep(k) => match &self.catalog[self.index].build_type {
                BuildType::Custom(d) => if k < d.steps.len() {
                    Action::Run(step_command(&d.steps[k]))
                } else {
                    Action::Stop
                },
                _ => Action::Stop,
            },
            Phase::ReturnToTop => self.file(FileOp::ReturnToTop, String::new()),
            Phase::Settle => Action::Sleep { millis: SETTLE_MILLIS },
            Phase::RemoveBuildDir => self.file(FileOp::RemoveBuildDir, String::new()),
            Phase::ReportCurrentDir => self.file(FileOp::ReportCurrentDir, String::new()),
            Phase::Wait => Action::Sleep { millis: RETRY_MILLIS },
            Phase::RemoveAgain => self.file(FileOp::RemoveBuildDir, String::new()),
        }
    }
}

} // verus!
