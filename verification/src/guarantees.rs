//! What holds of every run, from the arguments to the disk that it leaves.

use crate::dispatch::dispatched;
use crate::failure::{exit_status, FailureView, Missing, Stage};
use crate::request::{Place, Refusal, ToolReplyView};
use crate::scaffold::{confirmation_text, FilePhaseView, FileStage, StepView, ToolPhaseView};
use crate::template::{descriptor_text, lemma_descriptor_names_project, source_text};
use crate::text::{lemma_middle_occurs, occurs_in, trimmed};
use crate::world::{run, Disk, Ending, World};
use vstd::prelude::*;

verus! {

/// Whether `args` ask for the creation of the project called `name`.
pub open spec fn asks_to_start(args: Seq<Seq<char>>, name: Seq<char>) -> bool {
    args.len() >= 2 && args[0] == "start"@ && args[1] == name
}

/// Without a command nothing is asked of the disk: the run ends at once, as
/// a failure of usage with status 1, and the disk stays as it was.
pub proof fn lemma_no_command(args: Seq<Seq<char>>, world: World)
    requires
        args.len() == 0,
    ensures
        dispatched(args) == StepView::Finished(Err(FailureView::Usage(Missing::Command))),
        run(dispatched(args), world) == (Ending {
            disk: world.disk,
            result: Err(FailureView::Usage(Missing::Command)),
        }),
        exit_status(run(dispatched(args), world).result is Ok) == 1,
{
}

/// `start` without a name asks nothing of the disk: the run ends at once, as
/// a failure of usage with status 1, and the disk stays as it was.
pub proof fn lemma_no_project_name(args: Seq<Seq<char>>, world: World)
    requires
        args.len() == 1,
        args[0] == "start"@,
    ensures
        dispatched(args) == StepView::Finished(Err(FailureView::Usage(Missing::ProjectName))),
        run(dispatched(args), world) == (Ending {
            disk: world.disk,
            result: Err(FailureView::Usage(Missing::ProjectName)),
        }),
        exit_status(run(dispatched(args), world).result is Ok) == 1,
{
}

/// A command other than `start` asks nothing of the disk: the run ends at
/// once with a failure that names the command, whatever follows it.
pub proof fn lemma_unknown_command(args: Seq<Seq<char>>, world: World)
    requires
        args.len() >= 1,
        args[0] != "start"@,
    ensures
        dispatched(args) == StepView::Finished(Err(FailureView::UnknownCommand(args[0]))),
        run(dispatched(args), world) == (Ending {
            disk: world.disk,
            result: Err(FailureView::UnknownCommand(args[0])),
        }),
        occurs_in(args[0], FailureView::UnknownCommand(args[0]).message()),
        exit_status(run(dispatched(args), world).result is Ok) == 1,
{
    lemma_middle_occurs("Unknown command: "@, args[0], Seq::empty());
    assert("Unknown command: "@ + args[0] + Seq::<char>::empty() =~= "Unknown command: "@
        + args[0]);
}

/// Where something is at the project's place already, the run fails with
/// that and the disk stays as it was.
pub proof fn lemma_existing_directory_untouched(
    args: Seq<Seq<char>>,
    name: Seq<char>,
    world: World,
)
    requires
        asks_to_start(args, name),
        world.disk.holds(Place::Root),
    ensures
        run(dispatched(args), world) == (Ending {
            disk: world.disk,
            result: Err(FailureView::DirectoryExists(name)),
        }),
        exit_status(run(dispatched(args), world).result is Ok) == 1,
{
    reveal_with_fuel(run, 2);
}

/// Where the build tool is not installed, the run fails with that, and
/// nothing of the project is left on the disk.
pub proof fn lemma_missing_tool_rolls_back(
    args: Seq<Seq<char>>,
    name: Seq<char>,
    world: World,
    detail: Seq<char>,
)
    requires
        asks_to_start(args, name),
        !world.disk.holds(Place::Root),
        world.tool == (ToolReplyView::NotLaunched { kind: Refusal::NotFound, detail }),
    ensures
        run(dispatched(args), world).result == Err::<Seq<char>, FailureView>(
            FailureView::BuildToolMissing,
        ),
        forall|p: Place| !run(dispatched(args), world).disk.holds(p),
        exit_status(run(dispatched(args), world).result is Ok) == 1,
{
    reveal_with_fuel(run, 8);
}

/// Where the build tool cannot be launched for another reason, the run fails
/// with the operating system's wording, and nothing of the project is left on
/// the disk.
pub proof fn lemma_failed_launch_rolls_back(
    args: Seq<Seq<char>>,
    name: Seq<char>,
    world: World,
    kind: Refusal,
    detail: Seq<char>,
)
    requires
        asks_to_start(args, name),
        !world.disk.holds(Place::Root),
        world.tool == (ToolReplyView::NotLaunched { kind, detail }),
        kind != Refusal::NotFound,
    ensures
        run(dispatched(args), world).result == Err::<Seq<char>, FailureView>(
            FailureView::Io { stage: Stage::BuildFiles, detail },
        ),
        forall|p: Place| !run(dispatched(args), world).disk.holds(p),
        exit_status(run(dispatched(args), world).result is Ok) == 1,
{
    reveal_with_fuel(run, 8);
}

/// Where the build tool runs and reports failure, the run fails with what the
/// tool wrote to its error stream, trimmed, and the failure's message holds
/// that text; nothing of the project is left on the disk.
pub proof fn lemma_tool_failure_rolls_back(
    args: Seq<Seq<char>>,
    name: Seq<char>,
    world: World,
    stderr: Seq<char>,
)
    requires
        asks_to_start(args, name),
        !world.disk.holds(Place::Root),
        world.tool == (ToolReplyView::Exited { success: false, stderr }),
    ensures
        run(dispatched(args), world).result == Err::<Seq<char>, FailureView>(
            FailureView::BuildConfiguration(trimmed(stderr)),
        ),
        occurs_in(trimmed(stderr), FailureView::BuildConfiguration(trimmed(stderr)).message()),
        forall|p: Place| !run(dispatched(args), world).disk.holds(p),
        exit_status(run(dispatched(args), world).result is Ok) == 1,
{
    reveal_with_fuel(run, 8);
    let head = "Failed to generate build files: CMake error.\n"@;
    lemma_middle_occurs(head, trimmed(stderr), Seq::empty());
    assert(head + trimmed(stderr) + Seq::<char>::empty() =~= head + trimmed(stderr));
}

/// Where nothing of the project is there yet and the build tool succeeds, the
/// run leaves the project's directory with its two directories, the source
/// file with the fixed program and the descriptor, which names the project;
/// the confirmation names the project too, and the status is 0.
pub proof fn lemma_success_lays_out_project(
    args: Seq<Seq<char>>,
    name: Seq<char>,
    world: World,
    stderr: Seq<char>,
)
    requires
        asks_to_start(args, name),
        world.disk.sound(),
        !world.disk.holds(Place::Root),
        world.tool == (ToolReplyView::Exited { success: true, stderr }),
    ensures
        run(dispatched(args), world).result == Ok::<Seq<char>, FailureView>(
            confirmation_text(name),
        ),
        occurs_in(name, confirmation_text(name)),
        run(dispatched(args), world).disk.dirs =~= set![
            Place::Root,
            Place::SourceDir,
            Place::BuildDir,
        ],
        run(dispatched(args), world).disk.files =~= map![
            Place::SourceFile => source_text(),
            Place::Descriptor => descriptor_text(name),
        ],
        occurs_in(name, descriptor_text(name)),
        run(dispatched(args), world).disk.sound(),
        exit_status(run(dispatched(args), world).result is Ok) == 0,
{
    lemma_descriptor_names_project(name);
    lemma_middle_occurs("Project '"@, name, "' created successfully!"@);
    assert forall|p: Place| !world.disk.holds(p) by {
        if world.disk.holds(p) {
            assert(world.disk.dirs.contains(p.parent()));
            assert(world.disk.holds(p.parent()));
            assert(world.disk.dirs.contains(p.parent().parent()));
        }
    }
    let tool = world.tool;
    let wording = world.wording;
    let at = |stage: FileStage| StepView::Files(FilePhaseView { name, stage });
    let d0 = world.disk;
    let d1 = Disk { dirs: d0.dirs.insert(Place::Root), files: d0.files };
    let d2 = Disk { dirs: d1.dirs.insert(Place::SourceDir), files: d1.files };
    let d3 = Disk { dirs: d2.dirs.insert(Place::BuildDir), files: d2.files };
    let d4 = Disk { dirs: d3.dirs, files: d3.files.insert(Place::SourceFile, source_text()) };
    let d5 = Disk {
        dirs: d4.dirs,
        files: d4.files.insert(Place::Descriptor, descriptor_text(name)),
    };
    let w1 = World { disk: d1, tool, wording };
    let w2 = World { disk: d2, tool, wording };
    let w3 = World { disk: d3, tool, wording };
    let w4 = World { disk: d4, tool, wording };
    let w5 = World { disk: d5, tool, wording };
    assert(!d0.holds(Place::SourceDir) && !d0.holds(Place::BuildDir));
    assert(!d0.holds(Place::SourceFile) && !d0.holds(Place::Descriptor));
    assert(dispatched(args) == at(FileStage::ProjectDir));
    assert(run(at(FileStage::ProjectDir), world) == run(at(FileStage::SourceDir), w1));
    assert(run(at(FileStage::SourceDir), w1) == run(at(FileStage::BuildDir), w2));
    assert(run(at(FileStage::BuildDir), w2) == run(at(FileStage::SourceFile), w3));
    assert(run(at(FileStage::SourceFile), w3) == run(at(FileStage::Descriptor), w4));
    assert(run(at(FileStage::Descriptor), w4) == run(
        StepView::Tool(ToolPhaseView { name }),
        w5,
    ));
    assert(run(StepView::Tool(ToolPhaseView { name }), w5) == run(
        StepView::Finished(Ok(confirmation_text(name))),
        w5,
    ));
    assert(d5.dirs =~= set![Place::Root, Place::SourceDir, Place::BuildDir]);
    assert(d5.files =~= map![
        Place::SourceFile => source_text(),
        Place::Descriptor => descriptor_text(name),
    ]);
}

/// A second run for the same project, after one that succeeded, fails because
/// the directory exists, and leaves on the disk what the first one made.
pub proof fn lemma_second_start_refused(
    args: Seq<Seq<char>>,
    name: Seq<char>,
    world: World,
    stderr: Seq<char>,
    later: World,
)
    requires
        asks_to_start(args, name),
        world.disk.sound(),
        !world.disk.holds(Place::Root),
        world.tool == (ToolReplyView::Exited { success: true, stderr }),
        later.disk == run(dispatched(args), world).disk,
    ensures
        run(dispatched(args), world).result is Ok,
        run(dispatched(args), later) == (Ending {
            disk: later.disk,
            result: Err(FailureView::DirectoryExists(name)),
        }),
{
    lemma_success_lays_out_project(args, name, world, stderr);
    assert(later.disk.dirs.contains(Place::Root));
    lemma_existing_directory_untouched(args, name, later);
}

} // verus!
