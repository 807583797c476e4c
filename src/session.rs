//! The interactive session: a mode that routes each line either to the model
//! backend or straight to the command filter, toggled by a reserved word, and
//! the prompt that shows which mode is active.

use vstd::prelude::*;
use crate::style::{paint, painted, Hue};
use crate::text::{
    after_first_word, eq_ignore_ascii_case, eq_ignoring_ascii_case, first_word, first_word_of,
    has_prefix, rest_after_first_word, starts_with, trim_str, trimmed,
};

verus! {

/// Which way operator lines go.
#[derive(PartialEq, Eq, Structural, Clone, Copy, Debug)]
pub enum Mode {
    /// Lines are prompts for the model, which suggests a command.
    LlmSuggestion,
    /// Lines are commands for the command filter.
    DirectCommand,
}

/// The state of the interactive session.
pub struct ShellState {
    pub mode: Mode,
}

/// Where a line is sent.
pub enum Dispatch {
    /// Ask the model for a command; the flag switches execution off.
    Prompt(String, bool),
    /// Put the text through the command filter as a command.
    Direct(String),
}

/// What a line read in the session leads to.
pub enum LineOutcome {
    /// The operator asked to leave.
    Quit,
    /// Nothing to do.
    Blank,
    /// The mode was toggled, with the history entry and the remainder to dispatch, if any.
    Switched(String, Option<Dispatch>),
    /// The history entry and where the line goes.
    Run(String, Dispatch),
}

/// The reserved word that toggles the mode.
pub open spec fn is_switch_word(t: Seq<char>) -> bool {
    eq_ignoring_ascii_case(t, "youdu"@)
}

/// A line that toggles the mode: its first word is the reserved word, alone
/// or followed by whitespace and more text.
pub open spec fn is_switch_line(t: Seq<char>) -> bool {
    is_switch_word(first_word(t))
}

pub open spec fn toggled(m: Mode) -> Mode {
    match m {
        Mode::LlmSuggestion => Mode::DirectCommand,
        Mode::DirectCommand => Mode::LlmSuggestion,
    }
}

/// `d` sends `input` where `mode` routes it.
pub open spec fn dispatches(d: Dispatch, mode: Mode, input: Seq<char>, no_execute: bool) -> bool {
    match mode {
        Mode::LlmSuggestion => d matches Dispatch::Prompt(t, ne) && t@ == input && ne == no_execute,
        Mode::DirectCommand => d matches Dispatch::Direct(t) && t@ == input,
    }
}

/// `input` without a leading `u-`.
pub open spec fn without_mode_prefix(input: Seq<char>) -> Seq<char> {
    if has_prefix(input, "u-"@) {
        input.skip(2)
    } else {
        input
    }
}

/// What is left to run after a toggle: the text after the reserved word,
/// trimmed and without a `u-` prefix, unless that is empty or itself a toggle.
pub open spec fn switch_remainder(input: Seq<char>) -> Option<Seq<char>> {
    let rest = without_mode_prefix(trimmed(after_first_word(input)));
    if rest.len() > 0 && !is_switch_line(rest) {
        Some(rest)
    } else {
        None
    }
}

/// The mode after a line: toggled by a line that starts with the reserved
/// word, else unchanged.
pub open spec fn mode_after(mode: Mode, line: Seq<char>) -> Mode {
    if is_switch_line(trimmed(line)) {
        toggled(mode)
    } else {
        mode
    }
}

/// What a line leads to in `mode`.
pub open spec fn line_outcome(mode: Mode, line: Seq<char>, no_execute: bool, out: LineOutcome) -> bool {
    let t = trimmed(line);
    if t.len() == 0 {
        out is Blank
    } else if is_switch_line(t) {
        out matches LineOutcome::Switched(h, d) && h@ == t && match switch_remainder(t) {
            Some(rest) => d matches Some(dd) && dispatches(dd, toggled(mode), rest, no_execute),
            None => d is None,
        }
    } else if eq_ignoring_ascii_case(t, "exit"@) {
        out is Quit
    } else {
        out matches LineOutcome::Run(h, d) && h@ == t && dispatches(d, mode, t, no_execute)
    }
}

impl ShellState {
    /// A session that starts in model-suggestion mode.
    pub fn new() -> (r: ShellState)
        ensures
            r.mode == Mode::LlmSuggestion,
    {
        ShellState { mode: Mode::LlmSuggestion }
    }

    /// Takes one line read in the session.
    pub fn take_line(&mut self, line: &str, no_execute: bool) -> (r: LineOutcome)
        ensures
            final(self).mode == mode_after(old(self).mode, line@),
            line_outcome(old(self).mode, line@, no_execute, r),
    {
        let t = trim_str(line);
        if t.unicode_len() == 0 {
            proof {
                reveal_strlit("youdu");
                assert(first_word(t@).len() == 0);
            }
            return LineOutcome::Blank;
        }
        if is_mode_switch_command(t) {
            let d = switch_mode(self, t, no_execute);
            LineOutcome::Switched(String::from_str(t), d)
        } else if eq_ignore_ascii_case(t, "exit") {
            LineOutcome::Quit
        } else {
            LineOutcome::Run(String::from_str(t), handle_input(t, self, no_execute))
        }
    }
}

/// Whether the line starts with the reserved word that toggles the mode.
pub fn is_mode_switch_command(input: &str) -> (r: bool)
    ensures
        r == is_switch_line(input@),
{
    eq_ignore_ascii_case(first_word_of(input), "youdu")
}

/// Toggles the mode; the text after the reserved word (trimmed, without a
/// `u-` prefix), unless empty or itself a toggle, is dispatched at once in
/// the new mode.
pub fn switch_mode(state: &mut ShellState, input: &str, no_execute: bool) -> (r: Option<Dispatch>)
    ensures
        final(state).mode == toggled(old(state).mode),
        match switch_remainder(input@) {
            Some(rest) => r matches Some(d) && dispatches(d, final(state).mode, rest, no_execute),
            None => r is None,
        },
{
    state.mode = match state.mode {
        Mode::LlmSuggestion => Mode::DirectCommand,
        Mode::DirectCommand => Mode::LlmSuggestion,
    };
    let rest = trim_mode_prefix(trim_str(rest_after_first_word(input)));
    if rest.unicode_len() > 0 && !is_mode_switch_command(rest) {
        Some(handle_input(rest, state, no_execute))
    } else {
        None
    }
}

/// Routes the input by the mode: to the model, or straight to the command filter.
pub fn handle_input(input: &str, state: &ShellState, no_execute: bool) -> (r: Dispatch)
    ensures
        dispatches(r, state.mode, input@, no_execute),
{
    match state.mode {
        Mode::LlmSuggestion => process_llm_suggestion(input, no_execute),
        Mode::DirectCommand => execute_direct_command(input),
    }
}

/// Removes a leading `u-` from the input.
pub fn trim_mode_prefix(input: &str) -> (r: &str)
    ensures
        r@ == without_mode_prefix(input@),
{
    if starts_with(input, "u-") {
        proof {
            reveal_strlit("u-");
        }
        input.substring_char(2, input.unicode_len())
    } else {
        input
    }
}

/// Sends the input to the model for a suggested command.
pub fn process_llm_suggestion(input: &str, no_execute: bool) -> (r: Dispatch)
    ensures
        r matches Dispatch::Prompt(t, ne) && t@ == input@ && ne == no_execute,
{
    Dispatch::Prompt(String::from_str(input), no_execute)
}

/// Sends the input straight to the command filter as a command.
pub fn execute_direct_command(input: &str) -> (r: Dispatch)
    ensures
        r matches Dispatch::Direct(t) && t@ == input@,
{
    Dispatch::Direct(String::from_str(input))
}

/// The mode's name, as announced when it changes.
pub fn mode_name(mode: Mode) -> (r: &'static str)
    ensures
        r@ == (match mode {
            Mode::LlmSuggestion => "LLM Suggestion Mode"@,
            Mode::DirectCommand => "Direct Command Mode"@,
        }),
{
    match mode {
        Mode::LlmSuggestion => "LLM Suggestion Mode",
        Mode::DirectCommand => "Direct Command Mode",
    }
}

/// The prompt's label and mode indicator.
pub open spec fn prompt_parts(mode: Mode) -> (Seq<char>, Seq<char>) {
    match mode {
        Mode::LlmSuggestion => ("gptsh"@, "(LLM)"@),
        Mode::DirectCommand => ("you"@, "(CMD)"@),
    }
}

/// The layout of the prompt: `[label indicator]:user:directory$ `.
pub open spec fn prompt_layout(label: Seq<char>, indicator: Seq<char>, user: Seq<char>, dir: Seq<char>) -> Seq<char> {
    "["@ + label + " "@ + indicator + "]:"@ + user + ":"@ + dir + "$ "@
}

/// Lays out the prompt from its parts.
pub fn compose_prompt(label: &str, indicator: &str, user: &str, dir: &str) -> (r: String)
    ensures
        r@ == prompt_layout(label@, indicator@, user@, dir@),
{
    let mut r = String::from_str("[");
    r.append(label);
    r.append(" ");
    r.append(indicator);
    r.append("]:");
    r.append(user);
    r.append(":");
    r.append(dir);
    r.append("$ ");
    r
}

/// The session prompt for the mode: the label (red for the model, yellow
/// for commands), the mode indicator, the user name in green and the working
/// directory in blue.
pub fn display_prompt(mode: &Mode, username: &str, working_directory: &str) -> (r: String)
    ensures
        !username@.contains('\x1b') && !working_directory@.contains('\x1b') ==> exists|
            label: Seq<char>,
            user: Seq<char>,
            dir: Seq<char>,
        |
            painted(label, prompt_parts(*mode).0) && painted(user, username@) && painted(
                dir,
                working_directory@,
            ) && r@ == prompt_layout(label, prompt_parts(*mode).1, user, dir),
{
    let (text, hue, indicator) = match mode {
        Mode::LlmSuggestion => ("gptsh", Hue::Red, "(LLM)"),
        Mode::DirectCommand => ("you", Hue::Yellow, "(CMD)"),
    };
    proof {
        reveal_strlit("gptsh");
        reveal_strlit("you");
    }
    assert(!text@.contains('\x1b')) by {
        assert(forall|i: int| 0 <= i < text@.len() ==> text@[i] != '\x1b');
    }
    let label = paint(text, hue);
    let user = paint(username, Hue::Green);
    let dir = paint(working_directory, Hue::Blue);
    let r = compose_prompt(label.as_str(), indicator, user.as_str(), dir.as_str());
    proof {
        if !username@.contains('\x1b') && !working_directory@.contains('\x1b') {
            assert(painted(label@, prompt_parts(*mode).0) && painted(user@, username@) && painted(
                dir@,
                working_directory@,
            ) && r@ == prompt_layout(label@, prompt_parts(*mode).1, user@, dir@));
        }
    }
    r
}

/// Toggling twice restores the mode.
pub proof fn lemma_toggle_twice(m: Mode)
    ensures
        toggled(toggled(m)) == m,
{
}

/// Two lines that start with the reserved word leave the mode as it was;
/// after one such line in model-suggestion mode, any ordinary line goes
/// straight to the command filter and never to the model.
pub proof fn lemma_toggle_round_trip(m: Mode, switch_line: Seq<char>, line: Seq<char>, no_execute: bool, out: LineOutcome)
    requires
        is_switch_line(trimmed(switch_line)),
        trimmed(line).len() > 0,
        !eq_ignoring_ascii_case(trimmed(line), "exit"@),
        !is_switch_line(trimmed(line)),
        line_outcome(mode_after(Mode::LlmSuggestion, switch_line), line, no_execute, out),
    ensures
        mode_after(mode_after(m, switch_line), switch_line) == m,
        mode_after(Mode::LlmSuggestion, switch_line) == Mode::DirectCommand,
        out matches LineOutcome::Run(_, d) && (d matches Dispatch::Direct(t) && t@ == trimmed(line)),
{
}

} // verus!
