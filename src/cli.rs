//! The command line: flags, the words of the prompt, and which mode runs.

use vstd::prelude::*;
use crate::gate::entries;
use crate::text::str_equal;

verus! {

/// The flags the program recognises.
pub open spec fn is_flag(a: Seq<char>) -> bool {
    a == "--no-execute"@ || a == "--shell"@ || a == "--chat"@ || a == "--help"@ || a == "-h"@
}

/// The arguments that are not flags, in order.
pub open spec fn non_flags(args: Seq<Seq<char>>) -> Seq<Seq<char>>
    decreases args.len(),
{
    if args.len() == 0 {
        Seq::empty()
    } else {
        let init = non_flags(args.drop_last());
        if is_flag(args.last()) {
            init
        } else {
            init.push(args.last())
        }
    }
}

/// Whether an argument after the program name equals `a`.
pub open spec fn has_arg(args: Seq<String>, a: Seq<char>) -> bool {
    exists|i: int| 1 <= i < args.len() && #[trigger] args[i]@ == a
}

/// The words joined by single spaces.
pub open spec fn joined(words: Seq<Seq<char>>) -> Seq<char>
    decreases words.len(),
{
    if words.len() == 0 {
        Seq::empty()
    } else if words.len() == 1 {
        words[0]
    } else {
        joined(words.drop_last()) + " "@ + words.last()
    }
}

/// The arguments after the program name.
pub open spec fn after_program(args: Seq<String>) -> Seq<String> {
    if args.len() > 0 {
        args.skip(1)
    } else {
        Seq::empty()
    }
}

/// What the command line asks for.
pub struct Invocation {
    pub help: bool,
    pub shell: bool,
    pub chat: bool,
    pub no_execute: bool,
    /// The arguments after the program name that are not flags.
    pub prompt_args: Vec<String>,
}

fn has_flag(args: &Vec<String>, flag: &str) -> (r: bool)
    ensures
        r == has_arg(args@, flag@),
{
    let mut i: usize = 1;
    while i < args.len()
        invariant
            1 <= i,
            forall|k: int| 1 <= k < i && k < args@.len() ==> args@[k]@ != flag@,
        decreases args@.len() - i,
    {
        if str_equal(args[i].as_str(), flag) {
            return true;
        }
        i = i + 1;
    }
    false
}

fn is_flag_arg(a: &str) -> (r: bool)
    ensures
        r == is_flag(a@),
{
    str_equal(a, "--no-execute") || str_equal(a, "--shell") || str_equal(a, "--chat") || str_equal(
        a,
        "--help",
    ) || str_equal(a, "-h")
}

/// Reads the command line; the first argument is the program's name.
pub fn parse_arguments(args: &Vec<String>) -> (r: Invocation)
    ensures
        r.help == (has_arg(args@, "--help"@) || has_arg(args@, "-h"@)),
        r.shell == has_arg(args@, "--shell"@),
        r.chat == has_arg(args@, "--chat"@),
        r.no_execute == has_arg(args@, "--no-execute"@),
        entries(r.prompt_args@) == non_flags(entries(after_program(args@))),
{
    let mut words: Vec<String> = Vec::new();
    let mut i: usize = 1;
    if args.len() > 0 {
        assert(entries(args@.skip(1)).take(0) =~= Seq::<Seq<char>>::empty());
        assert(entries(words@) =~= Seq::<Seq<char>>::empty());
        while i < args.len()
            invariant
                1 <= i <= args@.len(),
                entries(words@) == non_flags(entries(args@.skip(1)).take(i - 1)),
            decreases args@.len() - i,
        {
            let ghost all = entries(args@.skip(1));
            assert(all.take(i as int).drop_last() =~= all.take(i - 1));
            assert(all.take(i as int).last() == args@[i as int]@);
            if !is_flag_arg(args[i].as_str()) {
                words.push(args[i].clone());
                assert(entries(words@) =~= non_flags(all.take(i - 1)).push(args@[i as int]@));
            }
            i = i + 1;
        }
        assert(entries(args@.skip(1)).take(i - 1) =~= entries(args@.skip(1)));
    } else {
        assert(entries(after_program(args@)) =~= Seq::<Seq<char>>::empty());
        assert(entries(words@) =~= Seq::<Seq<char>>::empty());
    }
    Invocation {
        help: has_flag(args, "--help") || has_flag(args, "-h"),
        shell: has_flag(args, "--shell"),
        chat: has_flag(args, "--chat"),
        no_execute: has_flag(args, "--no-execute"),
        prompt_args: words,
    }
}

/// Joins the words of the prompt with single spaces.
pub fn join_words(words: &Vec<String>) -> (r: String)
    ensures
        r@ == joined(entries(words@)),
{
    let mut r = String::new();
    let mut i: usize = 0;
    while i < words.len()
        invariant
            i <= words@.len(),
            r@ == joined(entries(words@).take(i as int)),
        decreases words@.len() - i,
    {
        let ghost ws = entries(words@);
        assert(ws.take(i + 1).drop_last() =~= ws.take(i as int));
        if i > 0 {
            r.append(" ");
        } else {
            assert(ws.take(1)[0] == words@[0]@);
        }
        r.append(words[i].as_str());
        i = i + 1;
    }
    assert(entries(words@).take(i as int) =~= entries(words@));
    r
}

/// Which mode runs.
pub enum RunMode {
    /// Print the usage text.
    Help,
    /// The chat with function calling.
    Chat,
    /// The interactive session.
    Shell,
    /// A single prompt, with execution switched off where the flag says so.
    Prompt(String, bool),
    /// No prompt was given: an error, with the usage text.
    NoPrompt,
}

/// Decides the mode: help first, then chat, then the interactive session,
/// then a single prompt made of the remaining words.
pub fn run_mode(inv: &Invocation) -> (r: RunMode)
    ensures
        inv.help ==> r is Help,
        !inv.help && inv.chat ==> r is Chat,
        !inv.help && !inv.chat && inv.shell ==> r is Shell,
        !inv.help && !inv.chat && !inv.shell && inv.prompt_args@.len() > 0 ==> (r matches RunMode::Prompt(p, ne) && p@ == joined(entries(inv.prompt_args@)) && ne == inv.no_execute),
        !inv.help && !inv.chat && !inv.shell && inv.prompt_args@.len() == 0 ==> r is NoPrompt,
{
    if inv.help {
        RunMode::Help
    } else if inv.chat {
        RunMode::Chat
    } else if inv.shell {
        RunMode::Shell
    } else if inv.prompt_args.len() > 0 {
        RunMode::Prompt(join_words(&inv.prompt_args), inv.no_execute)
    } else {
        RunMode::NoPrompt
    }
}

/// The usage text.
pub fn help_text() -> (r: &'static str)
    ensures
        r@ == HELP_TEXT@,
{
    HELP_TEXT
}

/// What is reported when no prompt was given.
pub const NO_PROMPT_ERROR: &'static str = "Error: No prompt provided.\n";

/// The usage text.
pub const HELP_TEXT: &'static str = "Usage: gptsh [OPTIONS] [PROMPT]\nOptions:\n  --help, -h        Show this help message\n  --shell           Run in continuous shell mode\n  --chat            Run in chat mode with GPT-4\n  --no-execute      Output the generated command without executing it";

} // verus!
