use gptsh::oneshot::{command_of_response_text, prompt_request};
use gptsh::session::{
    display_prompt, handle_input, is_mode_switch_command, mode_name, switch_mode, trim_mode_prefix,
    Dispatch, LineOutcome, Mode, ShellState,
};

#[test]
fn toggling_twice_restores_the_mode() {
    let mut s = ShellState::new();
    assert_eq!(s.mode, Mode::LlmSuggestion);
    assert!(matches!(s.take_line("youdu", false), LineOutcome::Switched(ref h, None) if h == "youdu"));
    assert_eq!(s.mode, Mode::DirectCommand);
    assert!(matches!(s.take_line("YouDu", false), LineOutcome::Switched(_, None)));
    assert_eq!(s.mode, Mode::LlmSuggestion);
}

#[test]
fn direct_mode_runs_without_the_model() {
    let mut s = ShellState::new();
    s.take_line("youdu", false);
    match s.take_line("ls", false) {
        LineOutcome::Run(h, Dispatch::Direct(c)) => {
            assert_eq!(h, "ls");
            assert_eq!(c, "ls");
        }
        _ => panic!("expected a direct command"),
    }
}

#[test]
fn model_mode_sends_lines_to_the_model() {
    let mut s = ShellState::new();
    match s.take_line("  list files  ", true) {
        LineOutcome::Run(h, Dispatch::Prompt(p, no_execute)) => {
            assert_eq!(h, "list files");
            assert_eq!(p, "list files");
            assert!(no_execute);
        }
        _ => panic!("expected a prompt"),
    }
}

#[test]
fn exit_and_blank_lines() {
    let mut s = ShellState::new();
    assert!(matches!(s.take_line(" EXIT ", false), LineOutcome::Quit));
    assert!(matches!(s.take_line("   ", false), LineOutcome::Blank));
    assert_eq!(s.mode, Mode::LlmSuggestion);
}

#[test]
fn switch_runs_the_remainder_in_the_new_mode() {
    let mut s = ShellState::new();
    assert!(matches!(switch_mode(&mut s, "youdu ls -la", false), Some(Dispatch::Direct(ref c)) if c == "ls -la"));
    assert_eq!(s.mode, Mode::DirectCommand);
    assert!(switch_mode(&mut s, "YOUDU", false).is_none());
    assert_eq!(s.mode, Mode::LlmSuggestion);
    assert!(matches!(switch_mode(&mut s, "youdu u-ls", false), Some(Dispatch::Direct(ref c)) if c == "ls"));
    assert!(switch_mode(&mut s, "youdu   ", false).is_none());
    assert!(switch_mode(&mut s, "youdu youdu ls", false).is_none());
}

#[test]
fn toggle_with_trailing_text_in_a_line() {
    let mut s = ShellState::new();
    match s.take_line("  youdu  ls  ", true) {
        LineOutcome::Switched(h, Some(Dispatch::Direct(c))) => {
            assert_eq!(h, "youdu  ls");
            assert_eq!(c, "ls");
        }
        _ => panic!("expected a toggle with a command"),
    }
    assert_eq!(s.mode, Mode::DirectCommand);
    match s.take_line("YouDu list files", true) {
        LineOutcome::Switched(_, Some(Dispatch::Prompt(p, no_execute))) => {
            assert_eq!(p, "list files");
            assert!(no_execute);
        }
        _ => panic!("expected a toggle with a prompt"),
    }
    assert_eq!(s.mode, Mode::LlmSuggestion);
    assert!(matches!(s.take_line("youdus", false), LineOutcome::Run(_, Dispatch::Prompt(_, _))));
}

#[test]
fn mode_prefix_and_switch_word() {
    assert_eq!(trim_mode_prefix("u-ls"), "ls");
    assert_eq!(trim_mode_prefix("ls"), "ls");
    assert!(is_mode_switch_command("youdu"));
    assert!(is_mode_switch_command("YOUDU"));
    assert!(is_mode_switch_command("youdu ls"));
    assert!(!is_mode_switch_command("youdus"));
    assert!(!is_mode_switch_command("ls youdu"));
}

#[test]
fn handle_input_follows_the_mode() {
    let s = ShellState { mode: Mode::DirectCommand };
    assert!(matches!(handle_input("ls", &s, false), Dispatch::Direct(_)));
    let s = ShellState { mode: Mode::LlmSuggestion };
    assert!(matches!(handle_input("ls", &s, false), Dispatch::Prompt(_, false)));
    assert_eq!(mode_name(Mode::DirectCommand), "Direct Command Mode");
}

#[test]
fn prompt_shows_mode_user_and_directory() {
    let p = display_prompt(&Mode::DirectCommand, "ann", "~/src");
    assert!(p.starts_with('['));
    assert!(p.contains("you"));
    assert!(p.contains(" (CMD)]:"));
    assert!(p.contains("ann"));
    assert!(p.ends_with("$ "));
    let p = display_prompt(&Mode::LlmSuggestion, "ann", "/tmp");
    assert!(p.contains("gptsh") && p.contains("(LLM)"));
}

#[test]
fn one_shot_request_and_command() {
    let r = prompt_request("list files", "");
    assert_eq!(r.messages.len(), 1);
    assert_eq!(
        r.messages[0].content.as_deref(),
        Some("Translate the following prompt into a bash command without explanation:\nlist files")
    );
    assert!(!r.offer_functions);
    let r = prompt_request("list files", "use zsh");
    assert_eq!(r.messages.len(), 2);
    assert_eq!(r.messages[0].content.as_deref(), Some("use zsh"));
    let body = r#"{"choices":[{"message":{"role":"assistant","content":" ```bash\nls -la\n``` "}}]}"#;
    assert_eq!(command_of_response_text(body).ok(), Some("```bash\nls -la\n```".to_string()));
    assert!(command_of_response_text(r#"{"choices":[]}"#).is_err());
    assert!(command_of_response_text("<html>").is_err());
}
