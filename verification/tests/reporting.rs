use nerd::failure::Failure;
use nerd::report::report;

#[test]
fn report_colours_by_outcome() {
    colored::control::set_override(true);
    let good = report(&Ok("Project 'demo' created successfully!".to_string()));
    assert_eq!(good.line, "\u{1b}[92mProject 'demo' created successfully!\u{1b}[0m");
    assert!(!good.is_error);
    assert_eq!(good.code, 0);
    let bad = report(&Err(Failure::BuildToolMissing));
    assert_eq!(
        bad.line,
        "\u{1b}[31mFailed to generate build files: CMake not found.\u{1b}[0m"
    );
    assert!(bad.is_error);
    assert_eq!(bad.code, 1);

    colored::control::set_override(false);
    let good = report(&Ok("Project 'demo' created successfully!".to_string()));
    assert_eq!(good.line, "Project 'demo' created successfully!");
    assert!(!good.is_error);
    assert_eq!(good.code, 0);
    let bad = report(&Err(Failure::UnknownCommand("build".to_string())));
    assert_eq!(bad.line, "Unknown command: build");
    assert!(bad.is_error);
    assert_eq!(bad.code, 1);
    colored::control::unset_override();
}
