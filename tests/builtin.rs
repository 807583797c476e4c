use gptsh::classify::{is_shell_builtin, should_execute_command};

#[test]
fn test_is_shell_builtin() {
    assert!(is_shell_builtin("cd"));
    assert!(is_shell_builtin("cd /home"));
    assert!(is_shell_builtin("export PATH=/usr/bin"));
    assert!(is_shell_builtin("alias ll='ls -la'"));
    assert!(!is_shell_builtin("ls -la"));
    assert!(!is_shell_builtin("grep 'test' file.txt"));
    assert!(!is_shell_builtin(""));
    assert!(!is_shell_builtin(" "));
}

#[test]
fn test_should_execute_command() {
    // Commands that should not be executed
    assert!(should_execute_command("cd /home").is_err());
    assert!(should_execute_command("export VAR=value").is_err());
    assert!(should_execute_command("alias ll='ls -la'").is_err());

    // Commands that should be executed
    assert!(should_execute_command("ls -la").is_ok());
    assert!(should_execute_command("grep 'test' file.txt").is_ok());
}

#[test]
fn builtins_named_in_the_gate_rules() {
    assert!(is_shell_builtin("cd /tmp"));
    assert!(is_shell_builtin("export X=1"));
    assert!(is_shell_builtin("alias ll=ls"));
    assert!(is_shell_builtin("source ~/.bashrc"));
    assert!(is_shell_builtin("unset X"));
    assert!(!is_shell_builtin("ls -la"));
    assert!(!is_shell_builtin(""));
}

#[test]
fn builtin_is_matched_on_the_first_word_only() {
    assert!(is_shell_builtin("  \tcd\t/tmp  "));
    assert!(!is_shell_builtin("cdx /tmp"));
    assert!(!is_shell_builtin("echo cd"));
    assert!(!is_shell_builtin("CD /tmp"));
    assert!(is_shell_builtin("\u{3000}unset\u{a0}X"));
}

#[test]
fn builtin_note_repeats_the_trimmed_command() {
    let note = should_execute_command("  cd /tmp \n").unwrap_err();
    assert_eq!(
        note,
        "Note: The command 'cd /tmp' affects the shell's state and cannot be executed directly by this program.\nPlease run the following command in your terminal:\ncd /tmp"
    );
}
