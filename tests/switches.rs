use shellspeed::switches::{SwitchError, Switches};

fn tokens(list: &[&str]) -> Vec<String> {
    list.iter().map(|s| s.to_string()).collect()
}

fn parse(list: &[&str]) -> Result<Switches, SwitchError> {
    Switches::new(&tokens(list))
}

#[test]
fn inline_shell_value_keeps_next_token() {
    let sw = parse(&["-sbash", "-d"]).ok().unwrap();
    assert_eq!(sw.shell, "bash");
    assert!(sw.default);
    assert!(!sw.cmd_switch);
    assert_eq!(sw.command, "");
}

#[test]
fn inline_shell_value_as_last_token() {
    let sw = parse(&["-sion"]).ok().unwrap();
    assert_eq!(sw.shell, "ion");
}

#[test]
fn separate_shell_value_takes_next_token() {
    let sw = parse(&["-s", "bash", "extra"]).ok().unwrap();
    assert_eq!(sw.shell, "bash");
}

#[test]
fn separate_shell_value_taken_verbatim() {
    let sw = parse(&["-s", "-d"]).ok().unwrap();
    assert_eq!(sw.shell, "-d");
    assert!(sw.default);
}

#[test]
fn first_shell_switch_wins() {
    let sw = parse(&["-snu", "-sion"]).ok().unwrap();
    assert_eq!(sw.shell, "nu");
}

#[test]
fn help_short_switch_wins() {
    assert_eq!(parse(&["-s", "bash", "-h"]).err(), Some(SwitchError::HelpRequested));
}

#[test]
fn help_prefix_switch_wins() {
    assert_eq!(parse(&["-help", "-s"]).err(), Some(SwitchError::HelpRequested));
}

#[test]
fn help_long_switch_wins() {
    assert_eq!(parse(&["--help", "-s", "bash", "-c", "ls"]).err(), Some(SwitchError::HelpRequested));
}

#[test]
fn long_help_needs_exact_token() {
    let sw = parse(&["--helpme", "-s", "bash"]).ok().unwrap();
    assert_eq!(sw.shell, "bash");
}

#[test]
fn no_shell_switch_gives_empty_shell() {
    let sw = parse(&["-c", "ls"]).ok().unwrap();
    assert_eq!(sw.shell, "");
    assert!(sw.cmd_switch);
    assert_eq!(sw.command, "ls");
}

#[test]
fn no_arguments_give_empty_configuration() {
    let sw = parse(&[]).ok().unwrap();
    assert_eq!(sw.shell, "");
    assert!(!sw.cmd_switch);
    assert_eq!(sw.command, "");
    assert!(!sw.default);
}

#[test]
fn shell_switch_without_value_is_an_error() {
    assert_eq!(parse(&["-d", "-s"]).err(), Some(SwitchError::MissingShellValue));
}

#[test]
fn command_switch_without_value_is_an_error() {
    assert_eq!(parse(&["-s", "bash", "-c"]).err(), Some(SwitchError::MissingCommandValue));
}

#[test]
fn command_value_inline_and_separate() {
    let a = parse(&["-s", "bash", "-cecho hi"]).ok().unwrap();
    assert_eq!(a.command, "echo hi");
    let b = parse(&["-c", "echo hi", "-s", "bash"]).ok().unwrap();
    assert_eq!(b.command, "echo hi");
    assert!(b.cmd_switch);
}

#[test]
fn switches_match_by_prefix() {
    let sw = parse(&["-sbash", "-data.txt"]).ok().unwrap();
    assert!(sw.default);
    let sw = parse(&["-shelly"]).ok().unwrap();
    assert_eq!(sw.shell, "helly");
}

#[test]
fn non_ascii_inline_value() {
    let sw = parse(&["-sé", "-cλx"]).ok().unwrap();
    assert_eq!(sw.shell, "é");
    assert_eq!(sw.command, "λx");
}

#[test]
fn other_tokens_are_ignored() {
    let sw = parse(&["foo", "-x", "-s", "nu", "bar"]).ok().unwrap();
    assert_eq!(sw.shell, "nu");
    assert!(!sw.default);
    assert!(!sw.cmd_switch);
}
