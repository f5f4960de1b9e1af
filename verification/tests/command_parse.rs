use augustinus::FocusCommand;
use augustinus::command::parse_focus_command;

#[test]
fn parses_focus_start_and_stop() {
    assert_eq!(parse_focus_command("focus start"), FocusCommand::Start);
    assert_eq!(parse_focus_command("focus stop"), FocusCommand::Stop);
    assert_eq!(parse_focus_command("  focus   start  "), FocusCommand::Start);
}

#[test]
fn anything_else_is_unknown() {
    assert_eq!(parse_focus_command(""), FocusCommand::Unknown);
    assert_eq!(parse_focus_command("focus"), FocusCommand::Unknown);
    assert_eq!(parse_focus_command("focus restart"), FocusCommand::Unknown);
    assert_eq!(parse_focus_command("pause"), FocusCommand::Unknown);
}
