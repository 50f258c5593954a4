use rsh::builtins::{cd_outcome, get_builtins, lsh_cd, lsh_help, str_eq, Builtin};
use rsh::dispatch::{error_message, rsh_execute, Action, DispatchError};
use rsh::launch::{
    classify_status, command_not_found_message, ChildProcessOutcome, CHILD_LAUNCH_FAILURE_CODE,
};
use rsh::tokenizer::tokenize;

fn strings(words: &[&str]) -> Vec<String> {
    words.iter().map(|w| w.to_string()).collect()
}

#[test]
fn tokenize_splits_on_whitespace_runs() {
    assert_eq!(tokenize("  ls   -la  "), strings(&["ls", "-la"]));
}

#[test]
fn tokenize_empty_line_has_no_tokens() {
    assert_eq!(tokenize(""), strings(&[]));
}

#[test]
fn tokenize_whitespace_only_has_no_tokens() {
    assert_eq!(tokenize("   \t\r\n  "), strings(&[]));
}

#[test]
fn tokenize_single_word() {
    assert_eq!(tokenize("ls"), strings(&["ls"]));
}

#[test]
fn tokenize_mixed_separators() {
    assert_eq!(tokenize("a\tb\nc d"), strings(&["a", "b", "c", "d"]));
}

#[test]
fn tokenize_preserves_order_and_content() {
    assert_eq!(
        tokenize("cd /some/path extra"),
        strings(&["cd", "/some/path", "extra"])
    );
}

#[test]
fn str_eq_matches_string_equality() {
    assert!(str_eq("cd", "cd"));
    assert!(!str_eq("cd", "cD"));
    assert!(!str_eq("cd", "cdd"));
    assert!(!str_eq("", "a"));
    assert!(str_eq("", ""));
}

#[test]
fn resolve_finds_every_builtin() {
    let table = get_builtins();
    assert_eq!(table.resolve("cd"), Some(Builtin::Cd));
    assert_eq!(table.resolve("help"), Some(Builtin::Help));
    assert_eq!(table.resolve("exit"), Some(Builtin::Exit));
}

#[test]
fn resolve_is_exact_and_case_sensitive() {
    let table = get_builtins();
    assert_eq!(table.resolve("CD"), None);
    assert_eq!(table.resolve("cd "), None);
    assert_eq!(table.resolve("c"), None);
    assert_eq!(table.resolve("exits"), None);
    assert_eq!(table.resolve(""), None);
    assert_eq!(table.resolve("ls"), None);
}

#[test]
fn execute_no_tokens_is_no_op() {
    assert_eq!(rsh_execute(Vec::new()), Ok(Action::NoOp));
}

#[test]
fn execute_cd_with_one_argument_changes_directory() {
    assert_eq!(
        rsh_execute(strings(&["cd", "/tmp"])),
        Ok(Action::ChangeDir("/tmp".to_string()))
    );
}

#[test]
fn execute_cd_without_argument_is_invalid_input() {
    assert_eq!(
        rsh_execute(strings(&["cd"])),
        Err(DispatchError::InvalidInput)
    );
}

#[test]
fn execute_cd_with_two_arguments_is_invalid_input() {
    assert_eq!(
        rsh_execute(strings(&["cd", "a", "b"])),
        Err(DispatchError::InvalidInput)
    );
}

#[test]
fn lsh_cd_hands_back_the_path() {
    assert_eq!(
        lsh_cd(&strings(&["cd", "/usr/share"])),
        Ok("/usr/share".to_string())
    );
    assert_eq!(lsh_cd(&strings(&["cd"])), Err(DispatchError::InvalidInput));
}

#[test]
fn execute_help_succeeds_with_any_arguments() {
    assert_eq!(rsh_execute(strings(&["help"])), Ok(Action::PrintHelp));
    assert_eq!(
        rsh_execute(strings(&["help", "me", "now"])),
        Ok(Action::PrintHelp)
    );
}

#[test]
fn help_output_names_every_builtin() {
    let text = lsh_help(&Vec::new());
    assert!(text.contains("cd"));
    assert!(text.contains("help"));
    assert!(text.contains("exit"));
}

#[test]
fn execute_exit_ignores_trailing_arguments() {
    assert_eq!(rsh_execute(strings(&["exit"])), Ok(Action::Exit));
    assert_eq!(
        rsh_execute(strings(&["exit", "1", "2", "3"])),
        Ok(Action::Exit)
    );
}

#[test]
fn execute_unknown_name_launches_without_error() {
    let args = strings(&["no_such_program_xyz", "--flag"]);
    assert_eq!(rsh_execute(args.clone()), Ok(Action::Launch(args)));
}

#[test]
fn launch_keeps_full_token_list_as_argv() {
    let args = strings(&["ls", "-l", "-a"]);
    assert_eq!(rsh_execute(args.clone()), Ok(Action::Launch(args)));
}

#[test]
fn cd_outcome_maps_failure_to_change_directory_error() {
    assert_eq!(
        cd_outcome(false),
        Err(DispatchError::ChangeDirectoryError)
    );
    assert_eq!(cd_outcome(true), Ok(()));
}

#[test]
fn error_messages_are_fixed() {
    assert_eq!(error_message(&DispatchError::InvalidInput), "Invalid input");
    assert_eq!(
        error_message(&DispatchError::ChangeDirectoryError),
        "Failed to change directory"
    );
}

#[test]
fn classify_normal_exit_with_code_zero() {
    assert_eq!(
        classify_status(0),
        Some(ChildProcessOutcome::ExitedNormally(0))
    );
}

#[test]
fn classify_normal_exit_carries_exit_code() {
    assert_eq!(
        classify_status(1 << 8),
        Some(ChildProcessOutcome::ExitedNormally(1))
    );
    assert_eq!(
        classify_status(42 << 8),
        Some(ChildProcessOutcome::ExitedNormally(42))
    );
}

#[test]
fn classify_termination_by_signal() {
    assert_eq!(
        classify_status(9),
        Some(ChildProcessOutcome::TerminatedBySignal(9))
    );
    assert_eq!(
        classify_status(139),
        Some(ChildProcessOutcome::TerminatedBySignal(11))
    );
}

#[test]
fn classify_stopped_child_keeps_waiting() {
    assert_eq!(classify_status(0x057f), None);
    assert_eq!(classify_status(0x137f), None);
}

#[test]
fn command_not_found_names_the_program() {
    assert_eq!(
        command_not_found_message("no_such_program_xyz"),
        "Command not found: no_such_program_xyz"
    );
}

#[test]
fn child_launch_failure_code_is_distinguished_nonzero() {
    assert_eq!(CHILD_LAUNCH_FAILURE_CODE, 1);
}
