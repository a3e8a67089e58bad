//! A model of the disk and of the build tool, and of a whole run in it.
//!
//! The scaffolder itself never touches the disk. What its requests amount to
//! is said here for a disk that does what it is asked, so that a run can be
//! followed from the first step to the last.

use crate::failure::FailureView;
use crate::request::{FileReplyView, FileRequestView, Place, Refusal, ToolReplyView};
use crate::scaffold::{FileStage, StepView};
use vstd::prelude::*;

verus! {

/// What of a project is on the disk: which of its directories, and which of
/// its files with which contents.
pub struct Disk {
    pub dirs: Set<Place>,
    pub files: Map<Place, Seq<char>>,
}

/// Whether `inner` is `outer` or lies inside it.
pub open spec fn within(inner: Place, outer: Place) -> bool {
    inner == outer || outer == Place::Root || inner.parent() == outer
}

impl Disk {
    /// The disk that holds nothing of the project.
    pub open spec fn bare() -> Disk {
        Disk { dirs: Set::empty(), files: Map::empty() }
    }

    /// Whether anything is at `place`.
    pub open spec fn holds(self, place: Place) -> bool {
        self.dirs.contains(place) || self.files.contains_key(place)
    }

    /// Whether all that is there is a directory or a file according to its
    /// place, inside a directory that is there too.
    pub open spec fn sound(self) -> bool {
        &&& forall|p: Place| #[trigger] self.dirs.contains(p) ==> p.is_dir()
        &&& forall|p: Place| #[trigger] self.files.contains_key(p) ==> !p.is_dir()
        &&& forall|p: Place| #[trigger] self.holds(p) ==> self.dirs.contains(p.parent())
    }

    /// The disk without `place` and all that it holds.
    pub open spec fn without(self, place: Place) -> Disk {
        Disk {
            dirs: self.dirs.filter(|p: Place| !within(p, place)),
            files: self.files.remove_keys(Set::new(|p: Place| within(p, place))),
        }
    }

    /// The disk after `request`, and the answer to it. A directory is
    /// created where none is yet and its parent is there; a file is written
    /// where its directory is there; a removal always works. `wording` is
    /// what the operating system says when it refuses.
    pub open spec fn perform(self, request: FileRequestView, wording: Seq<char>) -> (
        Disk,
        FileReplyView,
    ) {
        match request {
            FileRequestView::CreateDir(place) => {
                if self.holds(place) {
                    (self, FileReplyView::Refused { kind: Refusal::AlreadyExists, detail: wording })
                } else if place != Place::Root && !self.dirs.contains(place.parent()) {
                    (self, FileReplyView::Refused { kind: Refusal::NotFound, detail: wording })
                } else {
                    (Disk { dirs: self.dirs.insert(place), files: self.files }, FileReplyView::Done)
                }
            },
            FileRequestView::WriteFile { place, text } => {
                if self.dirs.contains(place.parent()) && !self.dirs.contains(place) {
                    (
                        Disk { dirs: self.dirs, files: self.files.insert(place, text) },
                        FileReplyView::Done,
                    )
                } else {
                    (self, FileReplyView::Refused { kind: Refusal::NotFound, detail: wording })
                }
            },
            FileRequestView::RemoveTree(place) => (self.without(place), FileReplyView::Done),
        }
    }
}

/// All that a run meets: the disk, what becomes of an attempt to run the build
/// tool, and what the operating system says when it refuses.
pub struct World {
    pub disk: Disk,
    pub tool: ToolReplyView,
    pub wording: Seq<char>,
}

/// How a run ends: the disk that it leaves, and its result.
pub struct Ending {
    pub disk: Disk,
    pub result: Result<Seq<char>, FailureView>,
}

/// The number of requests that are at most still to come from `step` on.
pub open spec fn distance(step: StepView) -> nat {
    match step {
        StepView::Files(phase) => match phase.stage {
            FileStage::ProjectDir => 7,
            FileStage::SourceDir => 6,
            FileStage::BuildDir => 5,
            FileStage::SourceFile => 4,
            FileStage::Descriptor => 3,
        },
        StepView::Tool(_) => 2,
        StepView::Rollback(_) => 1,
        StepView::Finished(_) => 0,
    }
}

/// The end of the run that goes on from `step` in `world`: each request is
/// performed, and its answer decides the next step.
pub open spec fn run(step: StepView, world: World) -> Ending
    decreases distance(step),
{
    match step {
        StepView::Files(phase) => {
            let (disk, reply) = world.disk.perform(phase.request(), world.wording);
            run(phase.resume(reply), World { disk, tool: world.tool, wording: world.wording })
        },
        StepView::Tool(phase) => run(phase.resume(world.tool), world),
        StepView::Rollback(phase) => {
            let (disk, reply) = world.disk.perform(phase.request(), world.wording);
            run(phase.resume(reply), World { disk, tool: world.tool, wording: world.wording })
        },
        StepView::Finished(result) => Ending { disk: world.disk, result },
    }
}

} // verus!
