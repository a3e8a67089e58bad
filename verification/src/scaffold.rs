//! The creation of a project, one request at a time.
//!
//! A `Step` says what is to be done next. Its caller performs the request of
//! the step's phase and hands the answer to that phase's `resume`, which gives
//! the next step, until a step is `Finished`.

use crate::failure::{Failure, FailureView, Stage};
use crate::request::{
    FileReply, FileReplyView, FileRequest, FileRequestView, Place, Refusal, ToolReply,
    ToolReplyView, ToolRequest,
};
use crate::template::{descriptor_file, descriptor_text, source_file, source_text};
use crate::text::{trim, trimmed};
use vstd::prelude::*;
use vstd::string::*;

verus! {

/// What is being created while the project's files are laid out, in the
/// order in which it is created.
#[derive(Clone, Copy, Debug, PartialEq, Eq, Structural)]
pub enum FileStage {
    ProjectDir,
    SourceDir,
    BuildDir,
    SourceFile,
    Descriptor,
}

/// The project's own files are being laid out.
#[derive(Clone, Debug, PartialEq, Eq)]
pub struct FilePhase {
    pub name: String,
    pub stage: FileStage,
}

/// The build tool is to generate the build files.
#[derive(Clone, Debug, PartialEq, Eq)]
pub struct ToolPhase {
    pub name: String,
}

/// The project is being removed again, because of `failure`.
#[derive(Clone, Debug, PartialEq, Eq)]
pub struct RollbackPhase {
    pub name: String,
    pub failure: Failure,
}

/// What is to happen next.
#[derive(Debug, PartialEq, Eq)]
pub enum Step {
    Files(FilePhase),
    Tool(ToolPhase),
    Rollback(RollbackPhase),
    /// Nothing: the run has ended, with a confirmation or a failure.
    Finished(Result<String, Failure>),
}

/// A `FilePhase` with its name as a sequence of characters.
pub struct FilePhaseView {
    pub name: Seq<char>,
    pub stage: FileStage,
}

/// A `ToolPhase` with its name as a sequence of characters.
pub struct ToolPhaseView {
    pub name: Seq<char>,
}

/// A `RollbackPhase` with its texts as sequences of characters.
pub struct RollbackPhaseView {
    pub name: Seq<char>,
    pub failure: FailureView,
}

/// A `Step` with its texts as sequences of characters.
pub enum StepView {
    Files(FilePhaseView),
    Tool(ToolPhaseView),
    Rollback(RollbackPhaseView),
    Finished(Result<Seq<char>, FailureView>),
}

impl View for FilePhase {
    type V = FilePhaseView;

    open spec fn view(&self) -> FilePhaseView {
        FilePhaseView { name: self.name@, stage: self.stage }
    }
}

impl View for ToolPhase {
    type V = ToolPhaseView;

    open spec fn view(&self) -> ToolPhaseView {
        ToolPhaseView { name: self.name@ }
    }
}

impl View for RollbackPhase {
    type V = RollbackPhaseView;

    open spec fn view(&self) -> RollbackPhaseView {
        RollbackPhaseView { name: self.name@, failure: self.failure@ }
    }
}

impl View for Step {
    type V = StepView;

    open spec fn view(&self) -> StepView {
        match *self {
            Step::Files(phase) => StepView::Files(phase@),
            Step::Tool(phase) => StepView::Tool(phase@),
            Step::Rollback(phase) => StepView::Rollback(phase@),
            Step::Finished(Ok(message)) => StepView::Finished(Ok(message@)),
            Step::Finished(Err(failure)) => StepView::Finished(Err(failure@)),
        }
    }
}

/// The line that confirms the creation of the project called `name`.
pub open spec fn confirmation_text(name: Seq<char>) -> Seq<char> {
    "Project '"@ + name + "' created successfully!"@
}

impl FilePhaseView {
    /// What is to be done on the disk in this phase.
    pub open spec fn request(self) -> FileRequestView {
        match self.stage {
            FileStage::ProjectDir => FileRequestView::CreateDir(Place::Root),
            FileStage::SourceDir => FileRequestView::CreateDir(Place::SourceDir),
            FileStage::BuildDir => FileRequestView::CreateDir(Place::BuildDir),
            FileStage::SourceFile => FileRequestView::WriteFile {
                place: Place::SourceFile,
                text: source_text(),
            },
            FileStage::Descriptor => FileRequestView::WriteFile {
                place: Place::Descriptor,
                text: descriptor_text(self.name),
            },
        }
    }

    /// The step that follows the answer `reply`. Only the creation of the
    /// project's directory can fail the run; whatever is answered later, the
    /// work goes on.
    pub open spec fn resume(self, reply: FileReplyView) -> StepView {
        match self.stage {
            FileStage::ProjectDir => match reply {
                FileReplyView::Done => StepView::Files(
                    FilePhaseView { name: self.name, stage: FileStage::SourceDir },
                ),
                FileReplyView::Refused { kind: Refusal::AlreadyExists, detail } => {
                    StepView::Finished(Err(FailureView::DirectoryExists(self.name)))
                },
                FileReplyView::Refused { kind, detail } => StepView::Finished(
                    Err(FailureView::Io { stage: Stage::ProjectDir, detail }),
                ),
            },
            FileStage::SourceDir => StepView::Files(
                FilePhaseView { name: self.name, stage: FileStage::BuildDir },
            ),
            FileStage::BuildDir => StepView::Files(
                FilePhaseView { name: self.name, stage: FileStage::SourceFile },
            ),
            FileStage::SourceFile => StepView::Files(
                FilePhaseView { name: self.name, stage: FileStage::Descriptor },
            ),
            FileStage::Descriptor => StepView::Tool(ToolPhaseView { name: self.name }),
        }
    }
}

impl ToolPhaseView {
    /// How the build tool is to be invoked.
    pub open spec fn request(self) -> ToolRequest {
        ToolRequest { source: Place::Root, output: Place::BuildDir }
    }

    /// The step that follows the answer `reply`: the end of the run where the
    /// tool succeeded, and else the removal of the project.
    pub open spec fn resume(self, reply: ToolReplyView) -> StepView {
        match reply {
            ToolReplyView::Exited { success: true, stderr } => StepView::Finished(
                Ok(confirmation_text(self.name)),
            ),
            ToolReplyView::Exited { success: false, stderr } => StepView::Rollback(
                RollbackPhaseView {
                    name: self.name,
                    failure: FailureView::BuildConfiguration(trimmed(stderr)),
                },
            ),
            ToolReplyView::NotLaunched { kind: Refusal::NotFound, detail } => StepView::Rollback(
                RollbackPhaseView { name: self.name, failure: FailureView::BuildToolMissing },
            ),
            ToolReplyView::NotLaunched { kind, detail } => StepView::Rollback(
                RollbackPhaseView {
                    name: self.name,
                    failure: FailureView::Io { stage: Stage::BuildFiles, detail },
                },
            ),
        }
    }
}

impl RollbackPhaseView {
    /// What is to be done on the disk in this phase.
    pub open spec fn request(self) -> FileRequestView {
        FileRequestView::RemoveTree(Place::Root)
    }

    /// The step that follows the answer `reply`: the end of the run, with the
    /// failure that led here, whether the removal worked or not.
    pub open spec fn resume(self, reply: FileReplyView) -> StepView {
        StepView::Finished(Err(self.failure))
    }
}

impl StepView {
    /// The lines that tell the user how far the work has come, to be shown
    /// before the step is taken.
    pub open spec fn announcements(self) -> Seq<Seq<char>> {
        match self {
            StepView::Files(phase) if phase.stage == FileStage::ProjectDir => seq![
                "Generating project files..."@,
            ],
            StepView::Tool(_) => seq![
                "Project files generated successfully."@,
                "Generating build files..."@,
            ],
            StepView::Finished(Ok(_)) => seq!["Build files generated successfully."@],
            _ => seq![],
        }
    }
}

impl FilePhase {
    /// What is to be done on the disk in this phase.
    pub fn request(&self) -> (out: FileRequest)
        ensures
            out@ == self@.request(),
    {
        match self.stage {
            FileStage::ProjectDir => FileRequest::CreateDir(Place::Root),
            FileStage::SourceDir => FileRequest::CreateDir(Place::SourceDir),
            FileStage::BuildDir => FileRequest::CreateDir(Place::BuildDir),
            FileStage::SourceFile => FileRequest::WriteFile {
                place: Place::SourceFile,
                text: source_file(),
            },
            FileStage::Descriptor => FileRequest::WriteFile {
                place: Place::Descriptor,
                text: descriptor_file(self.name.as_str()),
            },
        }
    }

    /// The step that follows the answer `reply`.
    pub fn resume(self, reply: FileReply) -> (next: Step)
        ensures
            next@ == self@.resume(reply@),
    {
        match self.stage {
            FileStage::ProjectDir => match reply {
                FileReply::Done => Step::Files(
                    FilePhase { name: self.name, stage: FileStage::SourceDir },
                ),
                FileReply::Refused { kind: Refusal::AlreadyExists, detail } => Step::Finished(
                    Err(Failure::DirectoryExists(self.name)),
                ),
                FileReply::Refused { kind, detail } => Step::Finished(
                    Err(Failure::Io { stage: Stage::ProjectDir, detail }),
                ),
            },
            FileStage::SourceDir => Step::Files(
                FilePhase { name: self.name, stage: FileStage::BuildDir },
            ),
            FileStage::BuildDir => Step::Files(
                FilePhase { name: self.name, stage: FileStage::SourceFile },
            ),
            FileStage::SourceFile => Step::Files(
                FilePhase { name: self.name, stage: FileStage::Descriptor },
            ),
            FileStage::Descriptor => Step::Tool(ToolPhase { name: self.name }),
        }
    }
}

impl ToolPhase {
    /// How the build tool is to be invoked.
    pub fn request(&self) -> (out: ToolRequest)
        ensures
            out == self@.request(),
    {
        ToolRequest { source: Place::Root, output: Place::BuildDir }
    }

    /// The step that follows the answer `reply`.
    pub fn resume(self, reply: ToolReply) -> (next: Step)
        ensures
            next@ == self@.resume(reply@),
    {
        match reply {
            ToolReply::Exited { success: true, stderr } => Step::Finished(
                Ok(confirmation(self.name.as_str())),
            ),
            ToolReply::Exited { success: false, stderr } => Step::Rollback(
                RollbackPhase {
                    name: self.name,
                    failure: Failure::BuildConfiguration(trim(stderr.as_str())),
                },
            ),
            ToolReply::NotLaunched { kind: Refusal::NotFound, detail } => Step::Rollback(
                RollbackPhase { name: self.name, failure: Failure::BuildToolMissing },
            ),
            ToolReply::NotLaunched { kind, detail } => Step::Rollback(
                RollbackPhase {
                    name: self.name,
                    failure: Failure::Io { stage: Stage::BuildFiles, detail },
                },
            ),
        }
    }
}

impl RollbackPhase {
    /// What is to be done on the disk in this phase.
    pub fn request(&self) -> (out: FileRequest)
        ensures
            out@ == self@.request(),
    {
        FileRequest::RemoveTree(Place::Root)
    }

    /// The step that follows the answer `reply`.
    pub fn resume(self, reply: FileReply) -> (next: Step)
        ensures
            next@ == self@.resume(reply@),
    {
        Step::Finished(Err(self.failure))
    }
}

impl Step {
    /// The lines that tell the user how far the work has come, to be shown
    /// before the step is taken.
    pub fn announcements(&self) -> (out: Vec<String>)
        ensures
            out.deep_view() == self@.announcements(),
    {
        let mut out: Vec<String> = Vec::new();
        match self {
            Step::Files(phase) => {
                if phase.stage == FileStage::ProjectDir {
                    out.push(String::from_str("Generating project files..."));
                }
            },
            Step::Tool(_) => {
                out.push(String::from_str("Project files generated successfully."));
                out.push(String::from_str("Generating build files..."));
            },
            Step::Finished(Ok(_)) => {
                out.push(String::from_str("Build files generated successfully."));
            },
            _ => {},
        }
        assert(out.deep_view() =~= self@.announcements());
        out
    }
}

/// The line that confirms the creation of the project called `name`.
pub fn confirmation(name: &str) -> (out: String)
    ensures
        out@ == confirmation_text(name@),
{
    String::from_str("Project '").concat(name).concat("' created successfully!")
}

} // verus!
