//! Running the Ruby interpreter, or a tool that ships with it.
//!
//! Launching a process is the caller's part. This module decides what is
//! launched, with which changes to the environment and in which way, and what
//! follows from the way the launch ended.

use crate::environment::assemble;
use crate::environment::assembled;
use crate::environment::change_views;
use crate::environment::EnvChange;
use crate::environment::EnvironmentPlan;
use vstd::prelude::*;
use vstd::std_specs::convert::FromSpecImpl;
use vstd::string::StringExecFns;

verus! {

/// Why a command could not be run.
#[derive(Debug)]
pub enum Error {
    /// No installed Ruby satisfies the request.
    NoMatchingRuby,
    /// The configuration could not be read; the text is that of its error.
    ConfigError(String),
    /// The process could not be launched.
    ExecError(std::io::Error),
    /// The missing Ruby could not be installed; the text is that of the
    /// installer's error.
    InstallError(String),
}

impl From<std::io::Error> for Error {
    fn from(error: std::io::Error) -> (r: Error) {
        Error::ExecError(error)
    }
}

impl FromSpecImpl<std::io::Error> for Error {
    open spec fn obeys_from_spec() -> bool {
        true
    }

    open spec fn from_spec(error: std::io::Error) -> Error {
        Error::ExecError(error)
    }
}

/// The text of the operating system's error, which `std::io::Error` formats
/// by its `Display`. The text depends on the system and its locale, so nothing
/// is claimed of it.
#[verifier::external_body]
fn io_error_message(error: &std::io::Error) -> (text: String) {
    error.to_string()
}

impl Error {
    /// The message of the error. A wrapped error speaks for itself.
    pub fn message(&self) -> (text: String)
        ensures
            self is NoMatchingRuby ==> text@ == "no matching ruby version found"@,
            self matches Error::ConfigError(inner) ==> text@ == inner@,
            self matches Error::InstallError(inner) ==> text@ == inner@,
    {
        match self {
            Error::NoMatchingRuby => String::from_str("no matching ruby version found"),
            Error::ConfigError(inner) => inner.clone(),
            Error::ExecError(inner) => io_error_message(inner),
            Error::InstallError(inner) => inner.clone(),
        }
    }
}

/// What becomes of the output of the launched process.
#[derive(Debug, Clone, Copy, PartialEq, Eq, Structural)]
pub enum CaptureOutput {
    /// The process shares the caller's standard streams and the caller ends
    /// with it.
    No,
    /// Both standard output and standard error are collected and handed back.
    Both,
}

impl Default for CaptureOutput {
    fn default() -> (capture: CaptureOutput)
        ensures
            capture == CaptureOutput::No,
    {
        CaptureOutput::No
    }
}

/// The program of an invocation.
#[derive(Debug, Clone, PartialEq, Eq)]
pub enum Program {
    /// The Ruby interpreter itself.
    Ruby,
    /// A tool of the Ruby installation.
    Tool {
        /// The tool's name or path.
        executable_path: String,
        /// Directories put in front of the tool's search path.
        extra_paths: Vec<String>,
    },
}

/// One command to run: the program and the variables forced on it.
#[derive(Debug, Clone, PartialEq, Eq)]
pub struct Invocation {
    /// What to run.
    pub program: Program,
    /// Variables set after all others; of two with one name the later wins.
    pub env: Vec<(&'static str, String)>,
}

impl Invocation {
    /// An invocation of the Ruby interpreter.
    pub fn ruby(env: Vec<(&'static str, String)>) -> (invocation: Self)
        ensures
            invocation.program is Ruby,
            invocation.env == env,
    {
        Self { program: Program::Ruby, env }
    }

    /// An invocation of the tool `executable`, with no extra search path.
    pub fn tool(executable: &str, env: Vec<(&'static str, String)>) -> (invocation: Self)
        ensures
            invocation.program matches Program::Tool { executable_path, extra_paths }
                && executable_path@ == executable@ && extra_paths@.len() == 0,
            invocation.env == env,
    {
        Self {
            program: Program::Tool {
                executable_path: String::from_str(executable),
                extra_paths: Vec::new(),
            },
            env,
        }
    }
}

/// How the host launches processes.
#[derive(Debug, Clone, Copy, PartialEq, Eq, Structural)]
pub enum Platform {
    /// A process can replace the image of the calling one, and the launch
    /// primitive finds a tool by its bare name.
    Unix,
    /// A process can only be started beside the calling one, and the launch
    /// primitive takes a file name as it stands.
    Windows,
}

/// The way in which a process is launched.
#[derive(Debug, Clone, Copy, PartialEq, Eq, Structural)]
pub enum LaunchMode {
    /// Start the process, collect its output, wait for it.
    Capture,
    /// Replace the calling process by the new one.
    Replace,
    /// Start the process on the caller's streams, wait for it, then end the
    /// calling process with its exit code.
    SpawnWaitExit,
}

/// The way to launch for an output policy on a platform.
pub open spec fn mode_for(capture: CaptureOutput, platform: Platform) -> LaunchMode {
    match capture {
        CaptureOutput::Both => LaunchMode::Capture,
        CaptureOutput::No => match platform {
            Platform::Unix => LaunchMode::Replace,
            Platform::Windows => LaunchMode::SpawnWaitExit,
        },
    }
}

/// The way to launch for an output policy on a platform.
pub fn launch_mode(capture: CaptureOutput, platform: Platform) -> (mode: LaunchMode)
    ensures
        mode == mode_for(capture, platform),
{
    match capture {
        CaptureOutput::Both => LaunchMode::Capture,
        CaptureOutput::No => match platform {
            Platform::Unix => LaunchMode::Replace,
            Platform::Windows => LaunchMode::SpawnWaitExit,
        },
    }
}

/// Whether the name of a tool has to be resolved to a file before launch.
pub fn resolves_tool_names(platform: Platform) -> (needed: bool)
    ensures
        needed == (platform == Platform::Windows),
{
    match platform {
        Platform::Unix => false,
        Platform::Windows => true,
    }
}

/// What is decided about a launch before it is made. The arguments and the
/// working directory go to the process as the caller has them.
#[derive(Debug, Clone, PartialEq, Eq)]
pub struct Launch {
    /// The program's path.
    pub program: String,
    /// The changes to the inherited environment, in order.
    pub changes: Vec<EnvChange>,
    /// The way to launch.
    pub mode: LaunchMode,
}

/// What a finished process leaves behind.
#[derive(Debug, Clone, PartialEq, Eq)]
pub struct Output {
    /// The exit code, or `None` where the process ended without one.
    pub status: Option<i32>,
    /// What the process wrote to standard output, if it was captured.
    pub stdout: Vec<u8>,
    /// What the process wrote to standard error, if it was captured.
    pub stderr: Vec<u8>,
}

/// How a launch ended.
#[derive(Debug)]
pub enum LaunchOutcome {
    /// The process could not be started.
    Failed(std::io::Error),
    /// The process ran and has ended.
    Finished(Output),
}

/// What the caller does once a launch has ended.
#[derive(Debug)]
pub enum Conclusion {
    /// Hand this result back and go on running.
    Return(Result<Output, Error>),
    /// End the calling process with this exit code.
    Exit(i32),
}

/// The exit code with which the caller ends for a process that ended with
/// `status`: the same code, or 1 where there is none.
pub open spec fn exit_code_for(status: Option<i32>) -> i32 {
    match status {
        Some(code) => code,
        None => 1,
    }
}

/// What follows from the way a launch ended. A failure to launch is always
/// reported. A captured run hands back what it collected. A run on the
/// caller's streams ends the caller with the process's exit code.
pub open spec fn concluded(mode: LaunchMode, outcome: LaunchOutcome) -> Conclusion {
    match outcome {
        LaunchOutcome::Failed(error) => Conclusion::Return(Err(Error::ExecError(error))),
        LaunchOutcome::Finished(output) => match mode {
            LaunchMode::Capture => Conclusion::Return(Ok(output)),
            LaunchMode::Replace => Conclusion::Exit(exit_code_for(output.status)),
            LaunchMode::SpawnWaitExit => Conclusion::Exit(exit_code_for(output.status)),
        },
    }
}

/// The Ruby to run with, or the error that says that there is none.
pub fn require_ruby<R>(current: Option<R>) -> (ruby: Result<R, Error>)
    ensures
        match current {
            Some(found) => ruby == Ok::<R, Error>(found),
            None => ruby == Err::<R, Error>(Error::NoMatchingRuby),
        },
{
    match current {
        Some(found) => Ok(found),
        None => Err(Error::NoMatchingRuby),
    }
}

/// Whether the requested Ruby is to be installed before the run: when none
/// matches and installing was not switched off.
pub fn needs_install(has_current_ruby: bool, no_install: bool) -> (install: bool)
    ensures
        install == (!has_current_ruby && !no_install),
{
    !has_current_ruby && !no_install
}

/// The launch of `program` with the environment of `plan` and the overrides
/// of the invocation on top.
pub fn prepare_launch(
    program: String,
    plan: &EnvironmentPlan,
    overrides: &Vec<(&'static str, String)>,
    capture_output: CaptureOutput,
    platform: Platform,
) -> (launch: Launch)
    ensures
        launch.program == program,
        change_views(launch.changes@) == assembled(plan@, overrides.deep_view()),
        launch.mode == mode_for(capture_output, platform),
{
    let changes = assemble(plan, overrides);
    let mode = launch_mode(capture_output, platform);
    Launch { program, changes, mode }
}

/// What the caller does once the launch has ended.
pub fn conclude(mode: LaunchMode, outcome: LaunchOutcome) -> (conclusion: Conclusion)
    ensures
        conclusion == concluded(mode, outcome),
{
    match outcome {
        LaunchOutcome::Failed(error) => Conclusion::Return(Err(Error::ExecError(error))),
        LaunchOutcome::Finished(output) => match mode {
            LaunchMode::Capture => Conclusion::Return(Ok(output)),
            LaunchMode::Replace | LaunchMode::SpawnWaitExit => {
                let code = match output.status {
                    Some(code) => code,
                    None => 1,
                };
                Conclusion::Exit(code)
            },
        },
    }
}

/// A captured run never ends the calling process, however the launch ended.
pub proof fn lemma_capture_never_exits(platform: Platform, outcome: LaunchOutcome)
    ensures
        concluded(mode_for(CaptureOutput::Both, platform), outcome) is Return,
{
}

/// A run on the caller's streams never returns once the process has run: the
/// caller ends with the process's exit code, or with 1 where it has none.
/// Only a failure to launch comes back to the caller.
pub proof fn lemma_inherit_returns_only_failures(platform: Platform, outcome: LaunchOutcome)
    ensures
        match outcome {
            LaunchOutcome::Finished(output) => concluded(
                mode_for(CaptureOutput::No, platform),
                outcome,
            ) == Conclusion::Exit(exit_code_for(output.status)),
            LaunchOutcome::Failed(error) => concluded(
                mode_for(CaptureOutput::No, platform),
                outcome,
            ) == Conclusion::Return(Err(Error::ExecError(error))),
        },
{
}

} // verus!
