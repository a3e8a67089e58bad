//! Why a run did not create a project, and how that is reported.

use vstd::prelude::*;
use vstd::string::*;

verus! {

/// The argument that an invocation lacks.
#[derive(Clone, Copy, Debug, PartialEq, Eq, Structural)]
pub enum Missing {
    /// No command was given.
    Command,
    /// `start` was given without the name of a project.
    ProjectName,
}

/// The part of the work during which the operating system refused something.
#[derive(Clone, Copy, Debug, PartialEq, Eq, Structural)]
pub enum Stage {
    /// Creating the project's directory.
    ProjectDir,
    /// Launching the build tool.
    BuildFiles,
}

/// Why a run did not create a project.
#[derive(Clone, Debug, PartialEq, Eq)]
pub enum Failure {
    /// The invocation lacks an argument.
    Usage(Missing),
    /// The command is none that is known; it is carried along.
    UnknownCommand(String),
    /// The project's directory, carried along, is there already.
    DirectoryExists(String),
    /// The operating system refused something; `detail` is its own wording.
    Io { stage: Stage, detail: String },
    /// The build tool is not installed.
    BuildToolMissing,
    /// The build tool ran and reported failure with this text, trimmed.
    BuildConfiguration(String),
}

/// A `Failure` with its texts as sequences of characters.
pub enum FailureView {
    Usage(Missing),
    UnknownCommand(Seq<char>),
    DirectoryExists(Seq<char>),
    Io { stage: Stage, detail: Seq<char> },
    BuildToolMissing,
    BuildConfiguration(Seq<char>),
}

impl View for Failure {
    type V = FailureView;

    open spec fn view(&self) -> FailureView {
        match *self {
            Failure::Usage(what) => FailureView::Usage(what),
            Failure::UnknownCommand(cmd) => FailureView::UnknownCommand(cmd@),
            Failure::DirectoryExists(dir) => FailureView::DirectoryExists(dir@),
            Failure::Io { stage, detail } => FailureView::Io { stage, detail: detail@ },
            Failure::BuildToolMissing => FailureView::BuildToolMissing,
            Failure::BuildConfiguration(text) => FailureView::BuildConfiguration(text@),
        }
    }
}

impl FailureView {
    /// The line that reports this failure.
    pub open spec fn message(self) -> Seq<char> {
        match self {
            FailureView::Usage(Missing::Command) => "Inproper use. Proper use: nerd <command>."@,
            FailureView::Usage(Missing::ProjectName) => {
                "Inproper use. Proper use: nerd start <project_name>."@
            },
            FailureView::UnknownCommand(cmd) => "Unknown command: "@ + cmd,
            FailureView::DirectoryExists(dir) => {
                "Failed to create project dir: Directory '"@ + dir + "' already exists."@
            },
            FailureView::Io { stage: Stage::ProjectDir, detail } => {
                "Failed to create project dir: "@ + detail
            },
            FailureView::Io { stage: Stage::BuildFiles, detail } => {
                "Failed to generate build files: "@ + detail
            },
            FailureView::BuildToolMissing => "Failed to generate build files: CMake not found."@,
            FailureView::BuildConfiguration(text) => {
                "Failed to generate build files: CMake error.\n"@ + text
            },
        }
    }
}

/// The status that the process ends with: 0 after a confirmation, 1 after a failure.
pub open spec fn exit_status(succeeded: bool) -> int {
    if succeeded {
        0
    } else {
        1
    }
}

/// The status that the process ends with: 0 after a confirmation, 1 after a failure.
pub fn exit_code(result: &Result<String, Failure>) -> (code: i32)
    ensures
        code == exit_status(result is Ok),
{
    match result {
        Ok(_) => 0,
        Err(_) => 1,
    }
}

impl Failure {
    /// The line that reports this failure.
    pub fn message(&self) -> (out: String)
        ensures
            out@ == self@.message(),
    {
        match self {
            Failure::Usage(Missing::Command) => {
                String::from_str("Inproper use. Proper use: nerd <command>.")
            },
            Failure::Usage(Missing::ProjectName) => {
                String::from_str("Inproper use. Proper use: nerd start <project_name>.")
            },
            Failure::UnknownCommand(cmd) => {
                String::from_str("Unknown command: ").concat(cmd.as_str())
            },
            Failure::DirectoryExists(dir) => {
                String::from_str("Failed to create project dir: Directory '").concat(
                    dir.as_str(),
                ).concat("' already exists.")
            },
            Failure::Io { stage: Stage::ProjectDir, detail } => {
                String::from_str("Failed to create project dir: ").concat(detail.as_str())
            },
            Failure::Io { stage: Stage::BuildFiles, detail } => {
                String::from_str("Failed to generate build files: ").concat(detail.as_str())
            },
            Failure::BuildToolMissing => {
                String::from_str("Failed to generate build files: CMake not found.")
            },
            Failure::BuildConfiguration(text) => {
                String::from_str("Failed to generate build files: CMake error.\n").concat(
                    text.as_str(),
                )
            },
        }
    }
}

} // verus!
