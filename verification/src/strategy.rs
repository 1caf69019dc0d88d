//! The program runs of a build: what is run, with which arguments, and where
//! its output is kept.

use vstd::prelude::*;
use vstd::string::*;
use crate::text::{empty_texts, extend_texts, join3, own_names, push_text, texts};
use crate::toolset::toolset_id;
use crate::types::{CMakeDetails, CustomBuildStep, StepModel, StrategyModel, VisualStudioToolsetVersion};

verus! {

/// The number of jobs that the build tool may run at once.
pub const PARALLEL_JOBS: &'static str = "8";

/// One run of an external program.
pub struct Command {
    /// The program, by name or by path.
    pub program: String,
    /// Whether the program is looked up in the working directory of the run
    /// rather than on the program search path.
    pub in_current_dir: bool,
    /// Whether the first argument is the directory named by `source_root` and `subpath`.
    pub has_source_argument: bool,
    /// The directory that the archive unpacked to.
    pub source_root: String,
    /// The path segments that lead from `source_root` to the directory to configure.
    pub subpath: Vec<String>,
    /// The arguments that follow, in order.
    pub args: Vec<String>,
    /// Whether the output of the run is kept in the two files named below.
    pub captured: bool,
    pub stdout_file: String,
    pub stderr_file: String,
}

/// What a [`Command`] holds.
pub struct CommandModel {
    pub program: Seq<char>,
    pub in_current_dir: bool,
    pub has_source_argument: bool,
    pub source_root: Seq<char>,
    pub subpath: Seq<Seq<char>>,
    pub args: Seq<Seq<char>>,
    pub captured: bool,
    pub stdout_file: Seq<char>,
    pub stderr_file: Seq<char>,
}

impl View for Command {
    type V = CommandModel;

    open spec fn view(&self) -> CommandModel {
        CommandModel {
            program: self.program@,
            in_current_dir: self.in_current_dir,
            has_source_argument: self.has_source_argument,
            source_root: self.source_root@,
            subpath: texts(self.subpath@),
            args: texts(self.args@),
            captured: self.captured,
            stdout_file: self.stdout_file@,
            stderr_file: self.stderr_file@,
        }
    }
}

/// The name of the file that keeps the standard output of the run labelled `label`.
pub open spec fn stdout_name(label: Seq<char>) -> Seq<char> {
    "stdout_"@ + label + ".txt"@
}

/// The name of the file that keeps the standard error of the run labelled `label`.
pub open spec fn stderr_name(label: Seq<char>) -> Seq<char> {
    "stderr_"@ + label + ".txt"@
}

/// The path segments below the source root at which a CMake library is configured.
pub open spec fn subpath_of(local_path: Option<Seq<Seq<char>>>) -> Seq<Seq<char>> {
    match local_path {
        Some(p) => p,
        None => Seq::empty(),
    }
}

/// The arguments of a configure run that follow the source directory.
pub open spec fn configure_args(
    install_dir: Seq<char>,
    toolset: VisualStudioToolsetVersion,
    extra_args: Seq<Seq<char>>,
) -> Seq<Seq<char>> {
    seq![
        "-G"@,
        "Visual Studio 16 2019"@,
        "-A"@,
        "x64"@,
        "-T"@,
        toolset_id(toolset),
        "-DCMAKE_INSTALL_PREFIX="@ + install_dir,
    ] + extra_args
}

/// The run that unpacks the archive copied into the workspace.
pub open spec fn extract_model() -> CommandModel {
    CommandModel {
        program: "tar"@,
        in_current_dir: false,
        has_source_argument: false,
        source_root: Seq::empty(),
        subpath: Seq::empty(),
        args: seq!["-xf"@, "./archive.file"@],
        captured: false,
        stdout_file: Seq::empty(),
        stderr_file: Seq::empty(),
    }
}

/// The run that configures a CMake library: the source directory, the
/// generator, platform and toolset, the install prefix, then the extra arguments.
pub open spec fn configure_model(
    source_root: Seq<char>,
    install_dir: Seq<char>,
    toolset: VisualStudioToolsetVersion,
    local_path: Option<Seq<Seq<char>>>,
    extra_args: Seq<Seq<char>>,
) -> CommandModel {
    CommandModel {
        program: "cmake"@,
        in_current_dir: false,
        has_source_argument: true,
        source_root,
        subpath: subpath_of(local_path),
        args: configure_args(install_dir, toolset, extra_args),
        captured: true,
        stdout_file: stdout_name("configure"@),
        stderr_file: stderr_name("configure"@),
    }
}

/// The run that builds and installs a configured CMake library.
pub open spec fn build_model() -> CommandModel {
    CommandModel {
        program: "cmake"@,
        in_current_dir: false,
        has_source_argument: false,
        source_root: Seq::empty(),
        subpath: Seq::empty(),
        args: seq![
            "--build"@,
            "."@,
            "--target"@,
            "INSTALL"@,
            "--config"@,
            "Release"@,
            "--parallel"@,
            PARALLEL_JOBS@,
        ],
        captured: true,
        stdout_file: stdout_name("build"@),
        stderr_file: stderr_name("build"@),
    }
}

/// The run of one custom step.
pub open spec fn step_model(step: StepModel) -> CommandModel {
    CommandModel {
        program: step.command,
        in_current_dir: step.in_current_dir,
        has_source_argument: false,
        source_root: Seq::empty(),
        subpath: Seq::empty(),
        args: step.args,
        captured: true,
        stdout_file: stdout_name(step.name),
        stderr_file: stderr_name(step.name),
    }
}

fn push_word(list: &mut Vec<String>, word: &str)
    ensures
        texts(final(list)@) == texts(old(list)@).push(word@),
{
    push_text(list, String::from_str(word));
}

/// The run that unpacks the archive copied into the workspace.
pub fn extract_command() -> (r: Command)
    ensures
        r@ == extract_model(),
{
    let mut args = empty_texts();
    push_word(&mut args, "-xf");
    push_word(&mut args, "./archive.file");
    assert(texts(args@) =~= seq!["-xf"@, "./archive.file"@]);
    Command {
        program: String::from_str("tar"),
        in_current_dir: false,
        has_source_argument: false,
        source_root: String::new(),
        subpath: empty_texts(),
        args,
        captured: false,
        stdout_file: String::new(),
        stderr_file: String::new(),
    }
}

/// The path segments below the source root at which `details` is configured:
/// its local path if it has one, else none.
pub fn source_subpath(details: &CMakeDetails) -> (r: Vec<String>)
    ensures
        details@ matches StrategyModel::CMake { local_path, .. } && texts(r@) == subpath_of(local_path),
{
    match &details.cmake_local_path {
        Some(p) => own_names(p),
        None => empty_texts(),
    }
}

/// The run that configures a CMake library unpacked at `source_root`, to be
/// installed into `install_dir`.
pub fn configure_command(
    source_root: &str,
    install_dir: &str,
    toolset: &VisualStudioToolsetVersion,
    details: &CMakeDetails,
) -> (r: Command)
    ensures
        details@ matches StrategyModel::CMake { local_path, extra_args } && r@ == configure_model(
            source_root@,
            install_dir@,
            *toolset,
            local_path,
            extra_args,
        ),
{
    let mut args = empty_texts();
    push_word(&mut args, "-G");
    push_word(&mut args, "Visual Studio 16 2019");
    push_word(&mut args, "-A");
    push_word(&mut args, "x64");
    push_word(&mut args, "-T");
    push_word(&mut args, toolset.id());
    let mut prefix = String::from_str("-DCMAKE_INSTALL_PREFIX=");
    prefix.append(install_dir);
    push_text(&mut args, prefix);
    assert(texts(args@) =~= seq![
        "-G"@,
        "Visual Studio 16 2019"@,
        "-A"@,
        "x64"@,
        "-T"@,
        toolset_id(*toolset),
        "-DCMAKE_INSTALL_PREFIX="@ + install_dir@,
    ]);
    extend_texts(&mut args, &details.extra_configure_args);
    Command {
        program: String::from_str("cmake"),
        in_current_dir: false,
        has_source_argument: true,
        source_root: String::from_str(source_root),
        subpath: source_subpath(details),
        args,
        captured: true,
        stdout_file: join3("stdout_", "configure", ".txt"),
        stderr_file: join3("stderr_", "configure", ".txt"),
    }
}

/// The run that builds and installs a configured CMake library.
pub fn build_command() -> (r: Command)
    ensures
        r@ == build_model(),
{
    let mut args = empty_texts();
    push_word(&mut args, "--build");
    push_word(&mut args, ".");
    push_word(&mut args, "--target");
    push_word(&mut args, "INSTALL");
    push_word(&mut args, "--config");
    push_word(&mut args, "Release");
    push_word(&mut args, "--parallel");
    push_word(&mut args, PARALLEL_JOBS);
    assert(texts(args@) =~= build_model().args);
    Command {
        program: String::from_str("cmake"),
        in_current_dir: false,
        has_source_argument: false,
        source_root: String::new(),
        subpath: empty_texts(),
        args,
        captured: true,
        stdout_file: join3("stdout_", "build", ".txt"),
        stderr_file: join3("stderr_", "build", ".txt"),
    }
}

/// The run of one custom step.
pub fn step_command(step: &CustomBuildStep) -> (r: Command)
    ensures
        r@ == step_model(step@),
{
    let mut args = empty_texts();
    extend_texts(&mut args, &step.args);
    assert(texts(args@) =~= texts(step.args@));
    Command {
        program: String::from_str(step.command),
        in_current_dir: step.in_current_dir,
        has_source_argument: false,
        source_root: String::new(),
        subpath: empty_texts(),
        args,
        captured: true,
        stdout_file: join3("stdout_", step.name, ".txt"),
        stderr_file: join3("stderr_", step.name, ".txt"),
    }
}

} // verus!
