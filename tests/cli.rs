use gptsh::cli::{help_text, join_words, parse_arguments, run_mode, RunMode, NO_PROMPT_ERROR};

fn args(list: &[&str]) -> Vec<String> {
    list.iter().map(|a| a.to_string()).collect()
}

#[test]
fn test_help() {
    let inv = parse_arguments(&args(&["gptsh", "--help"]));
    assert!(matches!(run_mode(&inv), RunMode::Help));
    assert!(help_text().contains("Usage: gptsh [OPTIONS] [PROMPT]"));
}

#[test]
fn test_no_prompt() {
    let inv = parse_arguments(&args(&["gptsh"]));
    assert!(matches!(run_mode(&inv), RunMode::NoPrompt));
    assert!(NO_PROMPT_ERROR.contains("Error: No prompt provided."));
}

#[test]
fn flags_and_prompt_words() {
    let inv = parse_arguments(&args(&["gptsh", "list", "--no-execute", "all", "files"]));
    assert!(inv.no_execute && !inv.shell && !inv.chat && !inv.help);
    assert_eq!(inv.prompt_args, args(&["list", "all", "files"]));
    match run_mode(&inv) {
        RunMode::Prompt(p, no_execute) => {
            assert_eq!(p, "list all files");
            assert!(no_execute);
        }
        _ => panic!("expected a prompt"),
    }
}

#[test]
fn mode_precedence() {
    assert!(matches!(run_mode(&parse_arguments(&args(&["gptsh", "--shell", "--chat"]))), RunMode::Chat));
    assert!(matches!(run_mode(&parse_arguments(&args(&["gptsh", "--shell", "x"]))), RunMode::Shell));
    assert!(matches!(run_mode(&parse_arguments(&args(&["gptsh", "-h", "--chat"]))), RunMode::Help));
    assert!(matches!(run_mode(&parse_arguments(&args(&[]))), RunMode::NoPrompt));
}

#[test]
fn words_are_joined_with_spaces() {
    assert_eq!(join_words(&args(&[])), "");
    assert_eq!(join_words(&args(&["a"])), "a");
    assert_eq!(join_words(&args(&["a", "b c", "d"])), "a b c d");
}
