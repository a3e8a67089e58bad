use nerd::dispatch::dispatch;
use nerd::failure::{exit_code, Failure, Stage};
use nerd::request::{FileReply, FileRequest, Place, Refusal, ToolReply};
use nerd::scaffold::Step;
use std::collections::BTreeMap;

#[derive(Clone, Debug, PartialEq)]
enum Entry {
    Dir,
    File(String),
}

#[derive(Clone, Debug, PartialEq)]
struct Disk {
    entries: BTreeMap<String, Entry>,
}

fn located(name: &str, place: Place) -> String {
    let mut path = name.to_string();
    for part in place.path() {
        path.push('/');
        path.push_str(&part);
    }
    path
}

fn parent(path: &str) -> Option<&str> {
    path.rfind('/').map(|at| &path[..at])
}

impl Disk {
    fn empty() -> Disk {
        Disk { entries: BTreeMap::new() }
    }

    fn perform(&mut self, name: &str, request: FileRequest) -> FileReply {
        match request {
            FileRequest::CreateDir(place) => {
                let path = located(name, place);
                if self.entries.contains_key(&path) {
                    return FileReply::Refused {
                        kind: Refusal::AlreadyExists,
                        detail: "File exists (os error 17)".to_string(),
                    };
                }
                if let Some(up) = parent(&path) {
                    if self.entries.get(up) != Some(&Entry::Dir) {
                        return FileReply::Refused {
                            kind: Refusal::NotFound,
                            detail: "No such file or directory (os error 2)".to_string(),
                        };
                    }
                }
                self.entries.insert(path, Entry::Dir);
                FileReply::Done
            }
            FileRequest::WriteFile { place, text } => {
                let path = located(name, place);
                match parent(&path) {
                    Some(up) if self.entries.get(up) == Some(&Entry::Dir) => {
                        self.entries.insert(path, Entry::File(text));
                        FileReply::Done
                    }
                    _ => FileReply::Refused {
                        kind: Refusal::NotFound,
                        detail: "No such file or directory (os error 2)".to_string(),
                    },
                }
            }
            FileRequest::RemoveTree(place) => {
                let path = located(name, place);
                let below = format!("{}/", path);
                self.entries.retain(|key, _| key != &path && !key.starts_with(&below));
                FileReply::Done
            }
        }
    }
}

struct Run {
    result: Result<String, Failure>,
    shown: Vec<String>,
    requests: usize,
}

fn run(args: &[&str], disk: &mut Disk, tool: ToolReply) -> Run {
    let args: Vec<String> = args.iter().map(|s| s.to_string()).collect();
    let mut step = dispatch(&args);
    let mut shown = Vec::new();
    let mut requests = 0;
    loop {
        shown.extend(step.announcements());
        step = match step {
            Step::Files(phase) => {
                requests += 1;
                let reply = disk.perform(&phase.name, phase.request());
                phase.resume(reply)
            }
            Step::Tool(phase) => {
                requests += 1;
                assert_eq!(phase.request().source, Place::Root);
                assert_eq!(phase.request().output, Place::BuildDir);
                phase.resume(tool.clone())
            }
            Step::Rollback(phase) => {
                requests += 1;
                let reply = disk.perform(&phase.name, phase.request());
                phase.resume(reply)
            }
            Step::Finished(result) => return Run { result, shown, requests },
        };
    }
}

fn tool_succeeds() -> ToolReply {
    ToolReply::Exited { success: true, stderr: String::new() }
}

#[test]
fn successful_run_lays_out_the_project() {
    let mut disk = Disk::empty();
    let run = run(&["start", "demo"], &mut disk, tool_succeeds());
    assert_eq!(run.result, Ok("Project 'demo' created successfully!".to_string()));
    assert_eq!(exit_code(&run.result), 0);
    assert_eq!(run.requests, 6);
    assert_eq!(
        run.shown,
        vec![
            "Generating project files...",
            "Project files generated successfully.",
            "Generating build files...",
            "Build files generated successfully.",
        ]
    );
    assert_eq!(disk.entries.len(), 5);
    assert_eq!(disk.entries.get("demo"), Some(&Entry::Dir));
    assert_eq!(disk.entries.get("demo/src"), Some(&Entry::Dir));
    assert_eq!(disk.entries.get("demo/build"), Some(&Entry::Dir));
    assert_eq!(
        disk.entries.get("demo/src/main.cpp"),
        Some(&Entry::File(
            "#include <iostream>\n\nint main() {\n\tstd::cout << \"Hello, World!\" << std::endl;\n}"
                .to_string()
        ))
    );
    match disk.entries.get("demo/CMakeLists.txt") {
        Some(Entry::File(text)) => assert!(text.contains("project(demo VERSION 0.1)")),
        other => panic!("{:?}", other),
    }
}

#[test]
fn second_run_is_refused_and_changes_nothing() {
    let mut disk = Disk::empty();
    let first = run(&["start", "demo"], &mut disk, tool_succeeds());
    assert!(first.result.is_ok());
    let after_first = disk.clone();
    let second = run(&["start", "demo"], &mut disk, tool_succeeds());
    assert_eq!(second.result, Err(Failure::DirectoryExists("demo".to_string())));
    assert_eq!(exit_code(&second.result), 1);
    assert_eq!(second.requests, 1);
    assert_eq!(disk, after_first);
}

#[test]
fn existing_directory_is_left_untouched() {
    let mut disk = Disk::empty();
    disk.entries.insert("demo".to_string(), Entry::Dir);
    disk.entries.insert("demo/notes.txt".to_string(), Entry::File("mine".to_string()));
    let before = disk.clone();
    let run = run(&["start", "demo"], &mut disk, tool_succeeds());
    assert_eq!(run.result, Err(Failure::DirectoryExists("demo".to_string())));
    assert_eq!(run.shown, vec!["Generating project files..."]);
    assert_eq!(disk, before);
}

#[test]
fn missing_tool_leaves_nothing_behind() {
    let mut disk = Disk::empty();
    let tool = ToolReply::NotLaunched {
        kind: Refusal::NotFound,
        detail: "No such file or directory (os error 2)".to_string(),
    };
    let run = run(&["start", "demo"], &mut disk, tool);
    assert_eq!(run.result, Err(Failure::BuildToolMissing));
    assert_eq!(run.requests, 7);
    assert!(disk.entries.is_empty());
    assert_eq!(
        run.shown,
        vec![
            "Generating project files...",
            "Project files generated successfully.",
            "Generating build files...",
        ]
    );
}

#[test]
fn failing_tool_leaves_nothing_behind_and_reports_stderr() {
    let mut disk = Disk::empty();
    disk.entries.insert("other".to_string(), Entry::Dir);
    let tool = ToolReply::Exited {
        success: false,
        stderr: "  CMake Error at CMakeLists.txt:7 (project)\n\n".to_string(),
    };
    let run = run(&["start", "demo"], &mut disk, tool);
    assert_eq!(
        run.result,
        Err(Failure::BuildConfiguration("CMake Error at CMakeLists.txt:7 (project)".to_string()))
    );
    let message = run.result.unwrap_err().message();
    assert!(message.contains("CMake Error at CMakeLists.txt:7 (project)"));
    assert_eq!(disk.entries.len(), 1);
    assert_eq!(disk.entries.get("other"), Some(&Entry::Dir));
}

#[test]
fn unlaunchable_tool_leaves_nothing_behind() {
    let mut disk = Disk::empty();
    let tool = ToolReply::NotLaunched {
        kind: Refusal::Other,
        detail: "Permission denied (os error 13)".to_string(),
    };
    let run = run(&["start", "demo"], &mut disk, tool);
    assert_eq!(
        run.result,
        Err(Failure::Io {
            stage: Stage::BuildFiles,
            detail: "Permission denied (os error 13)".to_string()
        })
    );
    assert!(disk.entries.is_empty());
}

#[test]
fn missing_parent_is_an_io_failure_and_creates_nothing() {
    let mut disk = Disk::empty();
    let run = run(&["start", "nowhere/demo"], &mut disk, tool_succeeds());
    assert_eq!(
        run.result,
        Err(Failure::Io {
            stage: Stage::ProjectDir,
            detail: "No such file or directory (os error 2)".to_string()
        })
    );
    assert_eq!(run.requests, 1);
    assert!(disk.entries.is_empty());
}

#[test]
fn runs_without_a_project_ask_nothing_of_the_disk() {
    for args in [&[][..], &["start"][..], &["remove", "demo"][..]] {
        let mut disk = Disk::empty();
        let run = run(args, &mut disk, tool_succeeds());
        assert!(run.result.is_err());
        assert_eq!(exit_code(&run.result), 1);
        assert_eq!(run.requests, 0);
        assert!(run.shown.is_empty());
        assert!(disk.entries.is_empty());
    }
}
