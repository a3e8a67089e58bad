use nerd::dispatch::{dispatch, execute_cmd, parse_config, start_project, Config};
use nerd::failure::{exit_code, Failure, Missing};
use nerd::scaffold::{FilePhase, FileStage, Step};

fn words(items: &[&str]) -> Vec<String> {
    items.iter().map(|s| s.to_string()).collect()
}

#[test]
fn new_config_is_empty() {
    let config = Config::new();
    assert_eq!(config.cmd, "");
    assert!(config.params.is_empty());
}

#[test]
fn no_arguments_is_a_usage_failure() {
    let args = words(&[]);
    assert_eq!(parse_config(&args), Err(Failure::Usage(Missing::Command)));
    let step = dispatch(&args);
    assert_eq!(step, Step::Finished(Err(Failure::Usage(Missing::Command))));
    assert!(step.announcements().is_empty());
    match step {
        Step::Finished(result) => assert_eq!(exit_code(&result), 1),
        _ => unreachable!(),
    }
}

#[test]
fn first_argument_is_the_command() {
    let config = parse_config(&words(&["start"])).unwrap();
    assert_eq!(config.cmd, "start");
    assert!(config.params.is_empty());
}

#[test]
fn parameters_are_kept_as_given() {
    let config = parse_config(&words(&["start", "demo", " two  words ", "", "-x"])).unwrap();
    assert_eq!(config.cmd, "start");
    assert_eq!(config.params, words(&["demo", " two  words ", "", "-x"]));
}

#[test]
fn start_without_name_is_a_usage_failure() {
    let step = dispatch(&words(&["start"]));
    assert_eq!(step, Step::Finished(Err(Failure::Usage(Missing::ProjectName))));
    assert_eq!(
        start_project(&words(&[])),
        Step::Finished(Err(Failure::Usage(Missing::ProjectName)))
    );
}

#[test]
fn unknown_command_is_named() {
    let step = dispatch(&words(&["build", "demo"]));
    assert_eq!(step, Step::Finished(Err(Failure::UnknownCommand("build".to_string()))));
    let config = Config { cmd: "Start".to_string(), params: words(&["demo"]) };
    assert_eq!(
        execute_cmd(&config),
        Step::Finished(Err(Failure::UnknownCommand("Start".to_string())))
    );
    assert_eq!(
        Failure::UnknownCommand("build".to_string()).message(),
        "Unknown command: build"
    );
}

#[test]
fn empty_command_is_unknown() {
    let step = dispatch(&words(&[""]));
    assert_eq!(step, Step::Finished(Err(Failure::UnknownCommand(String::new()))));
}

#[test]
fn start_begins_with_the_project_directory() {
    let step = dispatch(&words(&["start", "demo"]));
    assert_eq!(
        step,
        Step::Files(FilePhase { name: "demo".to_string(), stage: FileStage::ProjectDir })
    );
    assert_eq!(step.announcements(), words(&["Generating project files..."]));
}

#[test]
fn start_takes_the_first_parameter_only() {
    let step = start_project(&words(&["one", "two"]));
    assert_eq!(
        step,
        Step::Files(FilePhase { name: "one".to_string(), stage: FileStage::ProjectDir })
    );
}

#[test]
fn exit_code_tells_success_from_failure() {
    assert_eq!(exit_code(&Ok("fine".to_string())), 0);
    assert_eq!(exit_code(&Err(Failure::BuildToolMissing)), 1);
    assert_eq!(exit_code(&Err(Failure::Usage(Missing::Command))), 1);
}
