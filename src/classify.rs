//! Recognition of shell builtins: commands that change the state of the
//! operator's own shell and so cannot be delegated to a child process.

use vstd::prelude::*;
use crate::text::{first_word, first_word_of, str_equal, trimmed, trim_str};

verus! {

/// The builtins that mutate shell state: directory, environment, aliases.
pub open spec fn is_builtin_word(w: Seq<char>) -> bool {
    w == "cd"@ || w == "export"@ || w == "alias"@ || w == "source"@ || w == "unset"@
}

/// A command whose first whitespace-delimited word is a builtin.
pub open spec fn is_builtin_command(c: Seq<char>) -> bool {
    is_builtin_word(first_word(c))
}

/// The note shown instead of running a builtin `t` (already trimmed).
pub open spec fn builtin_note(t: Seq<char>) -> Seq<char> {
    "Note: The command '"@ + t
        + "' affects the shell's state and cannot be executed directly by this program.\nPlease run the following command in your terminal:\n"@
        + t
}

/// Whether the first word of `command` is one of `cd`, `export`, `alias`,
/// `source` or `unset`.
pub fn is_shell_builtin(command: &str) -> (r: bool)
    ensures
        r == is_builtin_command(command@),
{
    let w = first_word_of(command);
    str_equal(w, "cd") || str_equal(w, "export") || str_equal(w, "alias") || str_equal(w, "source")
        || str_equal(w, "unset")
}

/// `Ok` when the command may run in a child process; for a builtin, the note
/// that asks the operator to run it in their own shell.
pub fn should_execute_command(command: &str) -> (r: Result<(), String>)
    ensures
        r is Err <==> is_builtin_command(command@),
        r matches Err(m) ==> m@ == builtin_note(trimmed(command@)),
{
    if is_shell_builtin(command) {
        let t = trim_str(command);
        let mut m = String::from_str("Note: The command '");
        m.append(t);
        m.append(
            "' affects the shell's state and cannot be executed directly by this program.\nPlease run the following command in your terminal:\n",
        );
        m.append(t);
        Err(m)
    } else {
        Ok(())
    }
}

} // verus!
