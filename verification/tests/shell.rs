use r2wraith::shell::{parse_command, ShellCommand};

#[test]
fn help_has_two_spellings() {
    assert_eq!(parse_command("help"), Some(ShellCommand::Help));
    assert_eq!(parse_command("?"), Some(ShellCommand::Help));
}

#[test]
fn plain_commands_are_recognised() {
    assert_eq!(parse_command("version"), Some(ShellCommand::Version));
    assert_eq!(parse_command("stopwraith"), Some(ShellCommand::StopWraith));
    assert_eq!(parse_command("stopall"), Some(ShellCommand::StopAll));
    assert_eq!(parse_command("restartall"), Some(ShellCommand::RestartAll));
    assert_eq!(parse_command("reload"), Some(ShellCommand::Reload));
    assert_eq!(parse_command("stopold"), Some(ShellCommand::StopOld));
}

#[test]
fn white_space_round_a_line_does_not_count() {
    assert_eq!(parse_command("  stopall\n"), Some(ShellCommand::StopAll));
    assert_eq!(parse_command("\tversion \r\n"), Some(ShellCommand::Version));
}

#[test]
fn restart_takes_the_id_of_a_server() {
    assert_eq!(parse_command("restart a"), Some(ShellCommand::Restart("a".to_string())));
    assert_eq!(
        parse_command("restart   my server  \n"),
        Some(ShellCommand::Restart("my server".to_string()))
    );
}

#[test]
fn restart_without_an_id_is_no_command() {
    // the line is trimmed first, so that the space behind `restart` is gone
    assert_eq!(parse_command("restart "), None);
    assert_eq!(parse_command("restart"), None);
}

#[test]
fn reload_may_be_followed_by_anything() {
    assert_eq!(parse_command("reload now"), Some(ShellCommand::Reload));
    assert_eq!(parse_command("reloaded"), Some(ShellCommand::Reload));
}

#[test]
fn unknown_lines_ask_for_nothing() {
    assert_eq!(parse_command(""), None);
    assert_eq!(parse_command("stop"), None);
    assert_eq!(parse_command("helpme"), None);
    assert_eq!(parse_command("Stopall"), None);
    assert_eq!(parse_command("restartallx"), None);
}
