//! Process launcher: what is decided before and right after the child
//! process is spawned.
//!
//! The library describes the spawn as plain data; the caller performs it
//! and hands back what the system gave.

use vstd::prelude::*;
use crate::command::{outcome_view, parse_command, resolution, ParseError};
use crate::detect::{
    detect_framework, framework_of, launch_command, lemma_launch_command_empty_iff_unknown,
    manifest_of, parse_manifest, DependencyView, Framework, Manifest,
};
use crate::relay::Channel;

verus! {

/// The process creation flag that keeps a console-capable system from
/// opening a console window for the child.
pub const CREATE_NO_WINDOW: u32 = 0x0800_0000;

/// How one of the three standard streams of the child is set up.
#[derive(Clone, Copy, Debug, PartialEq, Eq, Structural)]
pub enum StdioMode {
    /// The child gets a pipe whose other end the parent holds.
    Piped,
    /// The stream is connected to nothing.
    Null,
}

/// Everything that spawning the child takes.
#[derive(Clone, Debug, PartialEq, Eq)]
pub struct LaunchPlan {
    /// The program to run.
    pub executable: String,
    /// Its arguments, handed to the system one by one as they are.
    pub args: Vec<String>,
    /// The directory in which the child starts.
    pub working_directory: String,
    /// The child's standard input.
    pub stdin: StdioMode,
    /// The child's standard output.
    pub stdout: StdioMode,
    /// The child's standard error.
    pub stderr: StdioMode,
    /// The creation flags to pass on a console-capable system, if any.
    pub creation_flags: Option<u32>,
}

/// The model of a `LaunchPlan`.
pub ghost struct LaunchPlanView {
    pub executable: Seq<char>,
    pub args: Seq<Seq<char>>,
    pub working_directory: Seq<char>,
    pub stdin: StdioMode,
    pub stdout: StdioMode,
    pub stderr: StdioMode,
    pub creation_flags: Option<u32>,
}

impl View for LaunchPlan {
    type V = LaunchPlanView;

    open spec fn view(&self) -> LaunchPlanView {
        LaunchPlanView {
            executable: self.executable@,
            args: self.args.deep_view(),
            working_directory: self.working_directory@,
            stdin: self.stdin,
            stdout: self.stdout,
            stderr: self.stderr,
            creation_flags: self.creation_flags,
        }
    }
}

/// Why a start produced no handle.
#[derive(Clone, Debug, PartialEq, Eq)]
pub enum StartError {
    /// The manifest of the project could not be read; the text says why.
    Manifest(String),
    /// No launch command is known for the project.
    UnsupportedFramework,
    /// The launch command could not be split into words.
    Parse(ParseError),
    /// The system did not create the process; the text is the system's own.
    Spawn(String),
    /// The system created the process without the pipe of this channel.
    StreamCapture(Channel),
}

impl StartError {
    /// The text shown to the caller of a failed start.
    pub fn message(&self) -> (text: String)
        ensures
            text@ == (match *self {
                StartError::Manifest(reason) => reason@,
                StartError::UnsupportedFramework => "Unsupported framework"@,
                StartError::Parse(_) => "Failed to parse command"@,
                StartError::Spawn(detail) => detail@,
                StartError::StreamCapture(Channel::Stdout) => "Failed to capture stdout"@,
                StartError::StreamCapture(Channel::Stderr) => "Failed to capture stderr"@,
            }),
    {
        match self {
            StartError::Manifest(reason) => reason.clone(),
            StartError::UnsupportedFramework => "Unsupported framework".to_owned(),
            StartError::Parse(e) => e.message(),
            StartError::Spawn(detail) => detail.clone(),
            StartError::StreamCapture(Channel::Stdout) => "Failed to capture stdout".to_owned(),
            StartError::StreamCapture(Channel::Stderr) => "Failed to capture stderr".to_owned(),
        }
    }
}

/// The plan for a resolved command: both output streams are piped to the
/// parent, standard input is connected to nothing, and the console window
/// is suppressed where the system would open one.
pub open spec fn plan_of(
    executable: Seq<char>,
    args: Seq<Seq<char>>,
    working_directory: Seq<char>,
    console_capable: bool,
) -> LaunchPlanView {
    LaunchPlanView {
        executable,
        args,
        working_directory,
        stdin: StdioMode::Null,
        stdout: StdioMode::Piped,
        stderr: StdioMode::Piped,
        creation_flags: if console_capable {
            Some(CREATE_NO_WINDOW)
        } else {
            None
        },
    }
}

/// What `plan_start` decides for a launch command.
pub open spec fn start_decision(
    command: Seq<char>,
    working_directory: Seq<char>,
    console_capable: bool,
) -> Result<LaunchPlanView, StartError> {
    if command.len() == 0 {
        Err(StartError::UnsupportedFramework)
    } else {
        match resolution(command) {
            Ok((executable, args)) => Ok(
                plan_of(executable, args, working_directory, console_capable),
            ),
            Err(e) => Err(StartError::Parse(e)),
        }
    }
}

/// The model of the result of `plan_start`.
pub open spec fn decision_view(r: Result<LaunchPlan, StartError>) -> Result<
    LaunchPlanView,
    StartError,
> {
    match r {
        Ok(plan) => Ok(plan@),
        Err(e) => Err(e),
    }
}

/// Decides how the development server of a project is spawned.
///
/// `command` is the launch command of the project's framework; a project
/// without a known framework has the empty command and is refused. The
/// command is split into words once, here, and never shown to a shell.
/// `console_capable` says whether the system opens console windows for
/// child processes.
pub fn plan_start(command: &str, working_directory: &str, console_capable: bool) -> (r: Result<
    LaunchPlan,
    StartError,
>)
    ensures
        decision_view(r) == start_decision(command@, working_directory@, console_capable),
{
    if command.is_empty() {
        return Err(StartError::UnsupportedFramework);
    }
    let resolved = parse_command(command);
    match resolved {
        Err(e) => Err(StartError::Parse(e)),
        Ok((executable, args)) => Ok(
            LaunchPlan {
                executable,
                args,
                working_directory: working_directory.to_owned(),
                stdin: StdioMode::Null,
                stdout: StdioMode::Piped,
                stderr: StdioMode::Piped,
                creation_flags: if console_capable {
                    Some(CREATE_NO_WINDOW)
                } else {
                    None
                },
            },
        ),
    }
}

/// What the attempt to spawn the child gave: the child, or the start error
/// that carries the system's own words for its refusal.
pub fn spawn_outcome<C>(spawned: Result<C, String>) -> (r: Result<C, StartError>)
    ensures
        r == (match spawned {
            Ok(child) => Ok::<C, StartError>(child),
            Err(detail) => Err(StartError::Spawn(detail)),
        }),
{
    match spawned {
        Ok(child) => Ok(child),
        Err(detail) => Err(StartError::Spawn(detail)),
    }
}

/// Checks that the spawned child came with both pipes and hands them on,
/// standard output first. A missing pipe of standard output is reported
/// before a missing pipe of standard error.
pub fn capture_streams<A, B>(stdout: Option<A>, stderr: Option<B>) -> (r: Result<(A, B), StartError>)
    ensures
        r == (match (stdout, stderr) {
            (None, _) => Err::<(A, B), StartError>(StartError::StreamCapture(Channel::Stdout)),
            (Some(_), None) => Err(StartError::StreamCapture(Channel::Stderr)),
            (Some(out), Some(err)) => Ok((out, err)),
        }),
{
    match stdout {
        None => Err(StartError::StreamCapture(Channel::Stdout)),
        Some(out) => match stderr {
            None => Err(StartError::StreamCapture(Channel::Stderr)),
            Some(err) => Ok((out, err)),
        },
    }
}

/// What is decided for a project with the given dependencies: a project
/// of unknown framework is refused, and every other goes by the launch
/// command of its framework.
pub open spec fn project_start_decision(
    dependencies: Seq<DependencyView>,
    project_path: Seq<char>,
    windows: bool,
) -> Result<LaunchPlanView, StartError> {
    let framework = framework_of(dependencies);
    if framework == Framework::Unknown {
        Err(StartError::UnsupportedFramework)
    } else {
        start_decision(launch_command(framework, project_path, windows), project_path, windows)
    }
}

/// Decides how the development server of a project with the given
/// manifest is started: the framework is read from the dependencies, its
/// launch command is resolved, and the child is planned to run in the
/// project's directory. `windows` says whether the system is Windows.
pub fn start_with_manifest(manifest: &Manifest, project_path: &str, windows: bool) -> (r: Result<
    LaunchPlan,
    StartError,
>)
    ensures
        decision_view(r) == project_start_decision(
            manifest.dependencies.deep_view(),
            project_path@,
            windows,
        ),
{
    let (_framework, command) = detect_framework(manifest, project_path, windows);
    proof {
        lemma_launch_command_empty_iff_unknown(
            framework_of(manifest.dependencies.deep_view()),
            project_path@,
            windows,
        );
    }
    plan_start(command.as_str(), project_path, windows)
}

/// Decides how the development server of the project at `project_path` is
/// started, from the text of the project's manifest. Nothing is planned
/// for a manifest that cannot be read, for a project of unknown framework,
/// or for a launch command that does not resolve.
pub fn start_project(package_json: &str, project_path: &str, windows: bool) -> (r: Result<
    LaunchPlan,
    StartError,
>)
    ensures
        match manifest_of(package_json@) {
            Ok(manifest) => decision_view(r) == project_start_decision(
                manifest.dependencies,
                project_path@,
                windows,
            ),
            Err(reason) => r matches Err(StartError::Manifest(text)) && text@ == reason,
        },
{
    match parse_manifest(package_json) {
        Ok(manifest) => start_with_manifest(&manifest, project_path, windows),
        Err(reason) => Err(StartError::Manifest(reason)),
    }
}

} // verus!
