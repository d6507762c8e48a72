use cooee::daemon::action_picker::{choose_action, picker_command, shell_words, PickError};
use cooee::notification::Action;

fn make_actions(pairs: &[(&str, &str)]) -> Vec<Action> {
    pairs.iter().map(|(k, l)| Action { key: k.to_string(), label: l.to_string() }).collect()
}

#[test]
fn test_pick_action_empty_actions_errors() {
    let result = picker_command("cat", &[]);
    assert!(result.is_err());
    assert!(result.unwrap_err().message().contains("no actions"));
}

#[test]
fn test_pick_action_selects_correct_action() {
    // The picker `echo Open` ignores stdin and outputs its argument
    let actions = make_actions(&[("default", "Open"), ("snooze", "Snooze")]);
    let (program, args) = picker_command("echo Open", &actions).unwrap();
    assert_eq!(program, "echo");
    assert_eq!(args, vec!["Open".to_string()]);
    let result = choose_action(&actions, true, "exit status: 0".to_string(), "Open\n");
    assert!(result.is_ok());
    assert_eq!(result.unwrap().key, "default");
}

#[test]
fn test_pick_action_non_zero_exit_is_cancel() {
    // `false` always exits with code 1
    let actions = make_actions(&[("default", "Open")]);
    let result = choose_action(&actions, false, "exit status: 1".to_string(), "");
    assert!(result.is_err());
    assert!(result.unwrap_err().message().contains("cancelled"));
}

#[test]
fn test_shell_words_simple() {
    assert_eq!(shell_words("rofi -dmenu"), vec!["rofi", "-dmenu"]);
}

#[test]
fn test_shell_words_single_quoted() {
    assert_eq!(
        shell_words("rofi -dmenu -p 'Action:'"),
        vec!["rofi", "-dmenu", "-p", "Action:"]
    );
}

#[test]
fn test_shell_words_empty() {
    assert!(shell_words("").is_empty());
}

#[test]
fn test_shell_words_double_quoted() {
    assert_eq!(
        shell_words(r#"wofi --prompt "Select action:""#),
        vec!["wofi", "--prompt", "Select action:"]
    );
}

#[test]
fn test_shell_words_double_quoted_with_spaces() {
    assert_eq!(
        shell_words(r#"rofi -dmenu -p "Pick an action:""#),
        vec!["rofi", "-dmenu", "-p", "Pick an action:"]
    );
}

#[test]
fn shell_words_quotes_inside_other_quotes_are_kept() {
    assert_eq!(shell_words(r#"a "it's" 'say "hi"'"#), vec!["a", "it's", "say \"hi\""]);
    assert_eq!(shell_words("  many   spaces  "), vec!["many", "spaces"]);
    assert_eq!(shell_words("''"), Vec::<String>::new());
}

#[test]
fn picker_command_empty_picker() {
    let actions = make_actions(&[("default", "Open")]);
    let err = picker_command("   ", &actions).unwrap_err();
    assert!(matches!(err, PickError::EmptyPicker));
    assert_eq!(err.message(), "picker command is empty");
}

#[test]
fn choose_action_unknown_label() {
    let actions = make_actions(&[("default", "Open")]);
    let err = choose_action(&actions, true, "exit status: 0".to_string(), "  Close \n").unwrap_err();
    assert_eq!(err.message(), "picker returned unknown label: 'Close'");
}

#[test]
fn choose_action_first_of_equal_labels() {
    let actions = make_actions(&[("a", "Same"), ("b", "Same")]);
    let picked = choose_action(&actions, true, "exit status: 0".to_string(), "Same").unwrap();
    assert_eq!(picked.key, "a");
}

#[test]
fn pick_error_messages() {
    assert_eq!(PickError::NoActions.message(), "last notification has no actions");
    let e = PickError::LaunchFailed { program: "rofi".into(), reason: "not found".into() };
    assert_eq!(e.message(), "failed to launch picker 'rofi': not found");
    let e = PickError::Cancelled { status: "exit status: 1".into() };
    assert_eq!(e.message(), "picker cancelled (exit code exit status: 1)");
    let e = PickError::Io { reason: "broken pipe".into() };
    assert_eq!(e.message(), "broken pipe");
}
