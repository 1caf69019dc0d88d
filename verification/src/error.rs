//! What can go wrong while one library is built, and the message shown for it.

use vstd::prelude::*;
use vstd::string::*;

verus! {

/// The step of preparing a workspace that went wrong.
#[derive(Clone, Copy, Debug, PartialEq, Eq, Structural)]
pub enum SetupFault {
    /// The install directory could not be looked up.
    Probe,
    CreateDir,
    CopyArchive,
    EnterDir,
    Extract,
    ListContents,
}

/// What went wrong with one run of an external program.
#[derive(Clone, Copy, Debug, PartialEq, Eq, Structural)]
pub enum CommandFault {
    WorkingDirNotCreated,
    WorkingDirNotEntered,
    NotStarted,
    StdoutNotWritten,
    StderrNotWritten,
    /// The program ran and reported failure.
    ExitStatus,
}

/// The step of removing a workspace that went wrong.
#[derive(Clone, Copy, Debug, PartialEq, Eq, Structural)]
pub enum CleanupFault {
    ReturnToTop,
    RemoveDir,
}

/// Why the build of a library failed.
#[derive(Clone, Copy, Debug, PartialEq, Eq, Structural)]
pub enum BuildFailure {
    /// The workspace could not be prepared; it is left on disk.
    WorkspaceSetup(SetupFault),
    /// The archive did not unpack to exactly one directory; the workspace is left on disk.
    AmbiguousSourceLayout,
    ConfigureFailed(CommandFault),
    BuildFailed(CommandFault),
    /// The custom step with this position in the list failed.
    StepFailed(usize, CommandFault),
    CleanupFailure(CleanupFault),
}

/// The message shown for a failed program run, by what went wrong with it.
pub open spec fn command_message(
    fault: CommandFault,
    dir_created: Seq<char>,
    dir_entered: Seq<char>,
    started: Seq<char>,
    out: Seq<char>,
    err: Seq<char>,
    status: Seq<char>,
) -> Seq<char> {
    match fault {
        CommandFault::WorkingDirNotCreated => dir_created,
        CommandFault::WorkingDirNotEntered => dir_entered,
        CommandFault::NotStarted => started,
        CommandFault::StdoutNotWritten => out,
        CommandFault::StderrNotWritten => err,
        CommandFault::ExitStatus => status,
    }
}

/// The message shown for a failure.
pub open spec fn failure_message(f: BuildFailure) -> Seq<char> {
    match f {
        BuildFailure::WorkspaceSetup(SetupFault::Probe) => "Failed to look up install directory"@,
        BuildFailure::WorkspaceSetup(SetupFault::CreateDir) => "Failed to create top-level build directory"@,
        BuildFailure::WorkspaceSetup(SetupFault::CopyArchive) => "Failed to copy source tarball to build directory"@,
        BuildFailure::WorkspaceSetup(SetupFault::EnterDir) => "Failed to enter build directory"@,
        BuildFailure::WorkspaceSetup(SetupFault::Extract) => "Failed to extract source tarball"@,
        BuildFailure::WorkspaceSetup(SetupFault::ListContents) => "Failed to read contents of build directory"@,
        BuildFailure::AmbiguousSourceLayout => "Failed to find extracted source directory"@,
        BuildFailure::ConfigureFailed(c) => command_message(
            c,
            "Error creating inner build dir"@,
            "Failed to enter build dir"@,
            "Failed to run cmake configure"@,
            "Failed to write configure stdout"@,
            "Failed to write configure stderr"@,
            "Cmake configure reported an error"@,
        ),
        BuildFailure::BuildFailed(c) => command_message(
            c,
            "Error creating inner build dir"@,
            "Failed to enter build dir"@,
            "Failed to run cmake build"@,
            "Failed to write build stdout"@,
            "Failed to write build stderr"@,
            "Cmake build reported an error"@,
        ),
        BuildFailure::StepFailed(_, c) => command_message(
            c,
            "Failed to enter source dir"@,
            "Failed to enter source dir"@,
            "Failed to run build step"@,
            "Failed to write build step stdout"@,
            "Failed to write build step stderr"@,
            "Build step reported an error"@,
        ),
        BuildFailure::CleanupFailure(CleanupFault::ReturnToTop) => "Failed to enter original dir"@,
        BuildFailure::CleanupFailure(CleanupFault::RemoveDir) => "Failed to remove completed build directory"@,
    }
}

/// An error with the message to show.
pub struct MyError {
    pub message: String,
}

impl MyError {
    /// An error that carries `message`.
    pub fn new(message: &str) -> (r: Self)
        ensures
            r.message@ == message@,
    {
        MyError { message: String::from_str(message) }
    }

    /// The error that reports `failure`.
    pub fn from_failure(failure: BuildFailure) -> (r: Self)
        ensures
            r.message@ == failure_message(failure),
    {
        MyError::new(failure.message())
    }
}

fn command_text(
    fault: CommandFault,
    dir_created: &'static str,
    dir_entered: &'static str,
    started: &'static str,
    out: &'static str,
    err: &'static str,
    status: &'static str,
) -> (r: &'static str)
    ensures
        r@ == command_message(fault, dir_created@, dir_entered@, started@, out@, err@, status@),
{
    match fault {
        CommandFault::WorkingDirNotCreated => dir_created,
        CommandFault::WorkingDirNotEntered => dir_entered,
        CommandFault::NotStarted => started,
        CommandFault::StdoutNotWritten => out,
        CommandFault::StderrNotWritten => err,
        CommandFault::ExitStatus => status,
    }
}

impl BuildFailure {
    /// The message shown for this failure.
    pub fn message(&self) -> (r: &'static str)
        ensures
            r@ == failure_message(*self),
    {
        match self {
            BuildFailure::WorkspaceSetup(SetupFault::Probe) => "Failed to look up install directory",
            BuildFailure::WorkspaceSetup(SetupFault::CreateDir) => "Failed to create top-level build directory",
            BuildFailure::WorkspaceSetup(SetupFault::CopyArchive) => "Failed to copy source tarball to build directory",
            BuildFailure::WorkspaceSetup(SetupFault::EnterDir) => "Failed to enter build directory",
            BuildFailure::WorkspaceSetup(SetupFault::Extract) => "Failed to extract source tarball",
            BuildFailure::WorkspaceSetup(SetupFault::ListContents) => "Failed to read contents of build directory",
            BuildFailure::AmbiguousSourceLayout => "Failed to find extracted source directory",
            BuildFailure::ConfigureFailed(c) => command_text(
                *c,
                "Error creating inner build dir",
                "Failed to enter build dir",
                "Failed to run cmake configure",
                "Failed to write configure stdout",
                "Failed to write configure stderr",
                "Cmake configure reported an error",
            ),
            BuildFailure::BuildFailed(c) => command_text(
                *c,
                "Error creating inner build dir",
                "Failed to enter build dir",
                "Failed to run cmake build",
                "Failed to write build stdout",
                "Failed to write build stderr",
                "Cmake build reported an error",
            ),
            BuildFailure::StepFailed(_, c) => command_text(
                *c,
                "Failed to enter source dir",
                "Failed to enter source dir",
                "Failed to run build step",
                "Failed to write build step stdout",
                "Failed to write build step stderr",
                "Build step reported an error",
            ),
            BuildFailure::CleanupFailure(CleanupFault::ReturnToTop) => "Failed to enter original dir",
            BuildFailure::CleanupFailure(CleanupFault::RemoveDir) => "Failed to remove completed build directory",
        }
    }

    /// Whether the workspace of the failed attempt is left on disk for inspection.
    pub fn keeps_workspace(&self) -> (r: bool)
        ensures
            r == (*self is WorkspaceSetup || *self is AmbiguousSourceLayout),
    {
        match self {
            BuildFailure::WorkspaceSetup(_) => true,
            BuildFailure::AmbiguousSourceLayout => true,
            _ => false,
        }
    }
}

} // verus!
