//! What the scaffolder asks its caller to do, and what the caller answers.

use vstd::prelude::*;
use vstd::string::*;

verus! {

/// A directory or file of a project, by its role.
#[derive(Clone, Copy, Debug, PartialEq, Eq, Structural)]
pub enum Place {
    /// The project's directory itself.
    Root,
    /// The directory of the sources.
    SourceDir,
    /// The directory that the build tool writes to.
    BuildDir,
    /// The source file.
    SourceFile,
    /// The build descriptor.
    Descriptor,
}

impl Place {
    /// The names that lead from the project's directory to this place.
    pub open spec fn segments(self) -> Seq<Seq<char>> {
        match self {
            Place::Root => seq![],
            Place::SourceDir => seq!["src"@],
            Place::BuildDir => seq!["build"@],
            Place::SourceFile => seq!["src"@, "main.cpp"@],
            Place::Descriptor => seq!["CMakeLists.txt"@],
        }
    }

    /// Whether this place is a directory.
    pub open spec fn is_dir(self) -> bool {
        self == Place::Root || self == Place::SourceDir || self == Place::BuildDir
    }

    /// The directory that holds this place; the project's directory holds itself.
    pub open spec fn parent(self) -> Place {
        match self {
            Place::SourceFile => Place::SourceDir,
            _ => Place::Root,
        }
    }

    /// The names that lead from the project's directory to this place.
    pub fn path(&self) -> (out: Vec<String>)
        ensures
            out.deep_view() == self.segments(),
    {
        let mut out: Vec<String> = Vec::new();
        match self {
            Place::Root => {},
            Place::SourceDir => {
                out.push(String::from_str("src"));
            },
            Place::BuildDir => {
                out.push(String::from_str("build"));
            },
            Place::SourceFile => {
                out.push(String::from_str("src"));
                out.push(String::from_str("main.cpp"));
            },
            Place::Descriptor => {
                out.push(String::from_str("CMakeLists.txt"));
            },
        }
        assert(out.deep_view() =~= self.segments());
        out
    }
}

/// Something to do on the disk.
#[derive(Clone, Debug, PartialEq, Eq)]
pub enum FileRequest {
    /// Create this directory; its parent is there.
    CreateDir(Place),
    /// Write `text` to the file at `place`.
    WriteFile { place: Place, text: String },
    /// Remove what is at this place, with all that it holds.
    RemoveTree(Place),
}

/// A `FileRequest` with its text as a sequence of characters.
pub enum FileRequestView {
    CreateDir(Place),
    WriteFile { place: Place, text: Seq<char> },
    RemoveTree(Place),
}

impl View for FileRequest {
    type V = FileRequestView;

    open spec fn view(&self) -> FileRequestView {
        match *self {
            FileRequest::CreateDir(place) => FileRequestView::CreateDir(place),
            FileRequest::WriteFile { place, text } => FileRequestView::WriteFile {
                place,
                text: text@,
            },
            FileRequest::RemoveTree(place) => FileRequestView::RemoveTree(place),
        }
    }
}

/// The build tool's invocation: which directory holds the sources and the
/// descriptor, and which one the build files go to.
#[derive(Clone, Copy, Debug, PartialEq, Eq, Structural)]
pub struct ToolRequest {
    pub source: Place,
    pub output: Place,
}

/// The kind of an operating system's refusal, as far as anything depends on it.
#[derive(Clone, Copy, Debug, PartialEq, Eq, Structural)]
pub enum Refusal {
    /// What was to be created is there already.
    AlreadyExists,
    /// What was to be used is not there.
    NotFound,
    /// Anything else.
    Other,
}

/// The answer to a `FileRequest`.
#[derive(Clone, Debug, PartialEq, Eq)]
pub enum FileReply {
    /// It was done.
    Done,
    /// The operating system refused; `detail` is its own wording.
    Refused { kind: Refusal, detail: String },
}

/// A `FileReply` with its text as a sequence of characters.
pub enum FileReplyView {
    Done,
    Refused { kind: Refusal, detail: Seq<char> },
}

impl View for FileReply {
    type V = FileReplyView;

    open spec fn view(&self) -> FileReplyView {
        match *self {
            FileReply::Done => FileReplyView::Done,
            FileReply::Refused { kind, detail } => FileReplyView::Refused { kind, detail: detail@ },
        }
    }
}

/// The answer to a `ToolRequest`.
#[derive(Clone, Debug, PartialEq, Eq)]
pub enum ToolReply {
    /// The tool could not be launched; `detail` is the operating system's wording.
    NotLaunched { kind: Refusal, detail: String },
    /// The tool ran to its end; `stderr` is what it wrote to its error stream.
    Exited { success: bool, stderr: String },
}

/// A `ToolReply` with its texts as sequences of characters.
pub enum ToolReplyView {
    NotLaunched { kind: Refusal, detail: Seq<char> },
    Exited { success: bool, stderr: Seq<char> },
}

impl View for ToolReply {
    type V = ToolReplyView;

    open spec fn view(&self) -> ToolReplyView {
        match *self {
            ToolReply::NotLaunched { kind, detail } => ToolReplyView::NotLaunched {
                kind,
                detail: detail@,
            },
            ToolReply::Exited { success, stderr } => ToolReplyView::Exited {
                success,
                stderr: stderr@,
            },
        }
    }
}

/// The name of the build tool's program.
pub open spec fn build_tool_name() -> Seq<char> {
    "cmake"@
}

/// The argument that tells the build tool where the sources are.
pub open spec fn source_argument_text(dir: Seq<char>) -> Seq<char> {
    "-S "@ + dir
}

/// The argument that tells the build tool where to write.
pub open spec fn output_argument_text(dir: Seq<char>) -> Seq<char> {
    "-B "@ + dir
}

/// The name of the build tool's program.
pub fn build_tool() -> (out: String)
    ensures
        out@ == build_tool_name(),
{
    String::from_str("cmake")
}

/// The argument that tells the build tool that the sources are in `dir`.
pub fn source_argument(dir: &str) -> (out: String)
    ensures
        out@ == source_argument_text(dir@),
{
    String::from_str("-S ").concat(dir)
}

/// The argument that tells the build tool to write to `dir`.
pub fn output_argument(dir: &str) -> (out: String)
    ensures
        out@ == output_argument_text(dir@),
{
    String::from_str("-B ").concat(dir)
}

} // verus!
