//! The command filter (the safety gate): every command candidate passes through it exactly once
//! before it may reach a shell. It strips a code fence, consults the allow-list
//! and the deny-list, asks the operator where neither decides, and refuses to
//! spawn shell builtins.

use vstd::prelude::*;
use crate::classify::{builtin_note, is_builtin_command, should_execute_command};
use crate::text::{
    eq_ignore_ascii_case, eq_ignoring_ascii_case, ends_with, has_prefix, has_suffix, starts_with,
    trim_str, trimmed,
};

verus! {

/// `t` (already trimmed) without a surrounding bash code fence; `None` where
/// it opens like a fence but the fence markers do not sit on lines of their own.
pub open spec fn unfenced(t: Seq<char>) -> Option<Seq<char>> {
    if has_prefix(t, "```bash"@) && has_suffix(t, "```"@) {
        let body = t.skip(8);
        if has_prefix(t, "```bash\n"@) && has_suffix(body, "\n```"@) {
            Some(body.subrange(0, body.len() - 4))
        } else {
            None
        }
    } else {
        Some(t)
    }
}

/// The command that a model reply stands for: the fenced body where the fence
/// matches exactly, else the reply itself, trimmed.
pub open spec fn normalized(reply: Seq<char>) -> Seq<char> {
    let t = trimmed(reply);
    match unfenced(t) {
        Some(c) => trimmed(c),
        None => t,
    }
}

/// The views of a list of strings.
pub open spec fn entries(list: Seq<String>) -> Seq<Seq<char>> {
    list.map_values(|s: String| s@)
}

/// What the command filter decides for a command, or what the operator's answer led to.
pub enum Disposition {
    /// Run the command in a child shell.
    Spawn(String),
    /// A shell builtin: the note tells the operator to run it themselves.
    RunYourself(String),
    /// Execution is switched off: only show the command.
    Print(String),
    /// The command is on the deny-list.
    Banned(String),
    /// Neither list decides: the operator must be asked.
    Confirm(String),
    /// The operator declined.
    Declined,
    /// The operator's answer was not understood; nothing runs.
    Unrecognised,
    /// The operator banned the command; the line holds the deny-list file's new line.
    BanRecorded(String),
}

/// What running `c` amounts to: a spawn, or the note for a builtin.
pub open spec fn execution_spec(c: Seq<char>, d: Disposition) -> bool {
    if is_builtin_command(c) {
        d matches Disposition::RunYourself(n) && n@ == builtin_note(trimmed(c))
    } else {
        d matches Disposition::Spawn(s) && s@ == c
    }
}

/// An operator's reply to the confirmation prompt.
#[derive(PartialEq, Eq, Structural, Clone, Copy, Debug)]
pub enum Answer {
    Yes,
    No,
    Ban,
    Other,
}

/// Empty input and `y`/`yes` accept, `n`/`no` decline, `b`/`ban` ban; ASCII
/// letters in any case, surrounding whitespace ignored.
pub open spec fn answer_of(input: Seq<char>) -> Answer {
    let t = trimmed(input);
    if t.len() == 0 || eq_ignoring_ascii_case(t, "y"@) || eq_ignoring_ascii_case(t, "yes"@) {
        Answer::Yes
    } else if eq_ignoring_ascii_case(t, "n"@) || eq_ignoring_ascii_case(t, "no"@) {
        Answer::No
    } else if eq_ignoring_ascii_case(t, "b"@) || eq_ignoring_ascii_case(t, "ban"@) {
        Answer::Ban
    } else {
        Answer::Other
    }
}

/// Reads the operator's reply to the confirmation prompt.
pub fn read_answer(input: &str) -> (r: Answer)
    ensures
        r == answer_of(input@),
{
    let t = trim_str(input);
    if t.unicode_len() == 0 || eq_ignore_ascii_case(t, "y") || eq_ignore_ascii_case(t, "yes") {
        Answer::Yes
    } else if eq_ignore_ascii_case(t, "n") || eq_ignore_ascii_case(t, "no") {
        Answer::No
    } else if eq_ignore_ascii_case(t, "b") || eq_ignore_ascii_case(t, "ban") {
        Answer::Ban
    } else {
        Answer::Other
    }
}

/// Extracts the command from a reply wrapped in a bash code fence
/// ("```bash\nls -la\n```" gives `ls -la`); a reply without a fence is
/// returned trimmed, and `None` comes where the fence does not match exactly.
pub fn extract_command(input: &str) -> (r: Option<&str>)
    ensures
        r matches Some(c) <==> unfenced(trimmed(input@)) is Some,
        r matches Some(c) ==> c@ == unfenced(trimmed(input@))->Some_0,
{
    let t = trim_str(input);
    if starts_with(t, "```bash") && ends_with(t, "```") {
        if starts_with(t, "```bash\n") {
            let n = t.unicode_len();
            proof {
                reveal_strlit("```bash\n");
            }
            let body = t.substring_char(8, n);
            assert(body@ == t@.skip(8));
            if ends_with(body, "\n```") {
                proof {
                    reveal_strlit("\n```");
                }
                Some(body.substring_char(0, n - 8 - 4))
            } else {
                None
            }
        } else {
            None
        }
    } else {
        Some(t)
    }
}

/// The command that a model reply stands for, trimmed and without its code fence.
pub fn normalize_candidate(reply: &str) -> (r: String)
    ensures
        r@ == normalized(reply@),
{
    let t = trim_str(reply);
    proof {
        let tt = trimmed(reply@);
        crate::text::lemma_trimmed_idempotent(reply@);
        assert(trimmed(tt) == tt);
    }
    match extract_command(t) {
        Some(c) => String::from_str(trim_str(c)),
        None => String::from_str(t),
    }
}

/// What running the command amounts to: a spawn, or, for a shell builtin,
/// the note that asks the operator to run it themselves.
pub fn execution_of(command: &str) -> (r: Disposition)
    ensures
        execution_spec(command@, r),
{
    match should_execute_command(command) {
        Ok(()) => Disposition::Spawn(String::from_str(command)),
        Err(note) => Disposition::RunYourself(note),
    }
}

/// The allow-list and the deny-list, each a list of trimmed, non-empty commands.
pub struct ListStore {
    pub allowed: Vec<String>,
    pub banned: Vec<String>,
}

/// An entry that a list may hold: trimmed and not empty.
pub open spec fn is_entry(e: Seq<char>) -> bool {
    e.len() > 0 && trimmed(e) == e
}

/// The decision of the command filter on a reply, before any operator answer.
pub open spec fn screen_spec(allowed: Seq<Seq<char>>, banned: Seq<Seq<char>>, reply: Seq<char>, no_execute: bool, d: Disposition) -> bool {
    let c = normalized(reply);
    if allowed.contains(c) {
        if no_execute {
            d matches Disposition::Print(s) && s@ == c
        } else {
            execution_spec(c, d)
        }
    } else if banned.contains(c) {
        d matches Disposition::Banned(s) && s@ == c
    } else if no_execute {
        d matches Disposition::Print(s) && s@ == c
    } else {
        d matches Disposition::Confirm(s) && s@ == c
    }
}

/// What the operator's answer leads to for a command awaiting confirmation.
pub open spec fn answer_spec(command: Seq<char>, a: Answer, d: Disposition) -> bool {
    match a {
        Answer::Yes => execution_spec(command, d),
        Answer::No => d is Declined,
        Answer::Ban => d matches Disposition::BanRecorded(l) && l@ == trimmed(command) + "\n"@,
        Answer::Other => d is Unrecognised,
    }
}

/// The deny-list after a ban of `command`: its trimmed text appended, unless empty.
pub open spec fn banned_after(banned: Seq<Seq<char>>, command: Seq<char>) -> Seq<Seq<char>> {
    if trimmed(command).len() > 0 {
        banned.push(trimmed(command))
    } else {
        banned
    }
}

impl ListStore {
    pub open spec fn allowed_view(&self) -> Seq<Seq<char>> {
        entries(self.allowed@)
    }

    pub open spec fn banned_view(&self) -> Seq<Seq<char>> {
        entries(self.banned@)
    }

    /// An empty store.
    pub fn new() -> (r: ListStore)
        ensures
            r.allowed_view() == Seq::<Seq<char>>::empty(),
            r.banned_view() == Seq::<Seq<char>>::empty(),
            r.wf(),
    {
        let r = ListStore { allowed: Vec::new(), banned: Vec::new() };
        assert(r.allowed_view() =~= Seq::<Seq<char>>::empty());
        assert(r.banned_view() =~= Seq::<Seq<char>>::empty());
        r
    }

    /// Whether `command` is on the allow-list.
    pub fn is_allowed(&self, command: &str) -> (r: bool)
        ensures
            r == self.allowed_view().contains(command@),
    {
        contains_entry(&self.allowed, command)
    }

    /// Whether `command` is on the deny-list.
    pub fn is_banned(&self, command: &str) -> (r: bool)
        ensures
            r == self.banned_view().contains(command@),
    {
        contains_entry(&self.banned, command)
    }

    /// Records a ban: appends the trimmed command to the deny-list (duplicates
    /// are kept) and returns the line to append to the deny-list file.
    pub fn add_banned_command(&mut self, command: &str) -> (r: String)
        requires
            old(self).wf(),
        ensures
            final(self).wf(),
            final(self).allowed_view() == old(self).allowed_view(),
            final(self).banned_view() == banned_after(old(self).banned_view(), command@),
            r@ == trimmed(command@) + "\n"@,
    {
        let t = trim_str(command);
        proof {
            crate::text::lemma_trimmed_idempotent(command@);
        }
        if t.unicode_len() > 0 {
            self.banned.push(String::from_str(t));
            assert(entries(self.banned@) =~= entries(old(self).banned@).push(t@));
        }
        let mut line = String::from_str(t);
        line.append("\n");
        line
    }

    /// The command filter's decision on a model reply: an allow-listed command runs (or
    /// is shown) without a prompt, the allow-list taking precedence over the
    /// deny-list; a deny-listed one is refused; any other is shown, or put to
    /// the operator.
    pub fn screen(&self, reply: &str, no_execute: bool) -> (r: Disposition)
        ensures
            screen_spec(self.allowed_view(), self.banned_view(), reply@, no_execute, r),
    {
        let c = normalize_candidate(reply);
        if self.is_allowed(c.as_str()) {
            if no_execute {
                Disposition::Print(c)
            } else {
                execution_of(c.as_str())
            }
        } else if self.is_banned(c.as_str()) {
            Disposition::Banned(c)
        } else if no_execute {
            Disposition::Print(c)
        } else {
            Disposition::Confirm(c)
        }
    }

    /// Acts on the operator's answer for a command that awaited confirmation:
    /// runs it, declines it, or bans it.
    pub fn resolve(&mut self, command: &str, answer: &str) -> (r: Disposition)
        requires
            old(self).wf(),
        ensures
            final(self).wf(),
            answer_spec(command@, answer_of(answer@), r),
            final(self).allowed_view() == old(self).allowed_view(),
            answer_of(answer@) == Answer::Ban ==> final(self).banned_view() == banned_after(
                old(self).banned_view(),
                command@,
            ),
            answer_of(answer@) != Answer::Ban ==> final(self).banned_view() == old(
                self,
            ).banned_view(),
    {
        match read_answer(answer) {
            Answer::Yes => execution_of(command),
            Answer::No => Disposition::Declined,
            Answer::Ban => Disposition::BanRecorded(self.add_banned_command(command)),
            Answer::Other => Disposition::Unrecognised,
        }
    }
}

/// Whether some string of `list` equals `command`.
pub fn contains_entry(list: &Vec<String>, command: &str) -> (r: bool)
    ensures
        r == entries(list@).contains(command@),
{
    let mut i: usize = 0;
    while i < list.len()
        invariant
            i <= list@.len(),
            forall|k: int| 0 <= k < i ==> list@[k]@ != command@,
        decreases list@.len() - i,
    {
        if crate::text::str_equal(list[i].as_str(), command) {
            assert(entries(list@)[i as int] == command@);
            return true;
        }
        i = i + 1;
    }
    proof {
        if entries(list@).contains(command@) {
            let k = choose|k: int| 0 <= k < entries(list@).len() && entries(list@)[k] == command@;
            assert(list@[k]@ == command@);
        }
    }
    false
}

/// The lines of `s` from `start` on, where `s[start..i]` holds no line feed:
/// the pieces between line feeds.
pub open spec fn lines_from(s: Seq<char>, start: int, i: int) -> Seq<Seq<char>>
    decreases s.len() - i,
{
    if i >= s.len() {
        seq![s.subrange(start, s.len() as int)]
    } else if s[i] == '\n' {
        seq![s.subrange(start, i)] + lines_from(s, i + 1, i + 1)
    } else {
        lines_from(s, start, i + 1)
    }
}

/// The lines of `s`, split at each line feed.
pub open spec fn lines(s: Seq<char>) -> Seq<Seq<char>> {
    lines_from(s, 0, 0)
}

/// Each line trimmed, blank ones left out.
pub open spec fn kept(ls: Seq<Seq<char>>) -> Seq<Seq<char>>
    decreases ls.len(),
{
    if ls.len() == 0 {
        Seq::empty()
    } else {
        let t = trimmed(ls[0]);
        let rest = kept(ls.drop_first());
        if t.len() > 0 {
            seq![t] + rest
        } else {
            rest
        }
    }
}

/// The entries of a list file: its lines, trimmed, without the blank ones.
pub open spec fn list_entries(text: Seq<char>) -> Seq<Seq<char>> {
    kept(lines(text))
}

proof fn lemma_kept_cons(x: Seq<char>, rest: Seq<Seq<char>>)
    ensures
        kept(seq![x] + rest) == (if trimmed(x).len() > 0 {
            seq![trimmed(x)] + kept(rest)
        } else {
            kept(rest)
        }),
{
    assert((seq![x] + rest).drop_first() =~= rest);
}

/// Appends the trimmed `piece` to `out` unless it is blank.
fn keep_line(out: &mut Vec<String>, piece: &str)
    ensures
        entries(final(out)@) == entries(old(out)@) + kept(seq![piece@]),
        final(out)@.len() >= old(out)@.len(),
        forall|k: int| 0 <= k < old(out)@.len() ==> final(out)@[k] == old(out)@[k],
        forall|k: int|
            old(out)@.len() <= k < final(out)@.len() ==> is_entry(#[trigger] final(out)@[k]@),
{
    let t = trim_str(piece);
    proof {
        lemma_kept_cons(piece@, Seq::empty());
        assert(seq![piece@] + Seq::<Seq<char>>::empty() =~= seq![piece@]);
        crate::text::lemma_trimmed_idempotent(piece@);
        assert(kept(Seq::<Seq<char>>::empty()) =~= Seq::<Seq<char>>::empty());
    }
    if t.unicode_len() > 0 {
        out.push(String::from_str(t));
        assert(entries(out@) =~= entries(old(out)@) + seq![t@]);
    } else {
        assert(entries(out@) =~= entries(old(out)@) + Seq::<Seq<char>>::empty());
    }
}

/// Reads the entries of a list file: one command per line, trimmed, blank
/// lines skipped, duplicates kept.
pub fn parse_command_list(text: &str) -> (r: Vec<String>)
    ensures
        entries(r@) == list_entries(text@),
        forall|k: int| 0 <= k < r@.len() ==> is_entry(#[trigger] r@[k]@),
{
    let n = text.unicode_len();
    let mut out: Vec<String> = Vec::new();
    let mut start: usize = 0;
    let mut i: usize = 0;
    assert(entries(out@) =~= Seq::<Seq<char>>::empty());
    while i < n
        invariant
            n == text@.len(),
            start <= i <= n,
            entries(out@) + kept(lines_from(text@, start as int, i as int)) == list_entries(text@),
            forall|k: int| 0 <= k < out@.len() ==> is_entry(#[trigger] out@[k]@),
        decreases n - i,
    {
        if text.get_char(i) == '\n' {
            let piece = text.substring_char(start, i);
            let ghost before = entries(out@);
            keep_line(&mut out, piece);
            proof {
                let rest = lines_from(text@, i + 1, i + 1);
                lemma_kept_cons(piece@, rest);
                lemma_kept_cons(piece@, Seq::empty());
                assert(seq![piece@] + Seq::<Seq<char>>::empty() =~= seq![piece@]);
                assert(kept(Seq::<Seq<char>>::empty()) =~= Seq::<Seq<char>>::empty());
                assert(kept(seq![piece@] + rest) == kept(seq![piece@]) + kept(rest));
                assert(before + kept(seq![piece@] + rest) =~= entries(out@) + kept(rest));
            }
            start = i + 1;
        }
        i = i + 1;
    }
    let piece = text.substring_char(start, n);
    keep_line(&mut out, piece);
    proof {
        assert(lines_from(text@, start as int, n as int) == seq![piece@]);
    }
    out
}

impl ListStore {
    /// A store holding the entries of the two list files' contents.
    pub fn from_texts(allowed_text: &str, banned_text: &str) -> (r: ListStore)
        ensures
            r.allowed_view() == list_entries(allowed_text@),
            r.banned_view() == list_entries(banned_text@),
            r.wf(),
    {
        ListStore { allowed: parse_command_list(allowed_text), banned: parse_command_list(banned_text) }
    }

    /// Every entry of both lists is trimmed and not empty.
    pub open spec fn wf(&self) -> bool {
        &&& forall|k: int| 0 <= k < self.allowed@.len() ==> is_entry(#[trigger] self.allowed@[k]@)
        &&& forall|k: int| 0 <= k < self.banned@.len() ==> is_entry(#[trigger] self.banned@[k]@)
    }

    /// Replaces the allow-list with the entries of the allow-list file's contents.
    pub fn load_allowed_commands(&mut self, text: &str)
        requires
            old(self).wf(),
        ensures
            final(self).allowed_view() == list_entries(text@),
            final(self).banned_view() == old(self).banned_view(),
            final(self).wf(),
    {
        self.allowed = parse_command_list(text);
    }

    /// Replaces the deny-list with the entries of the deny-list file's contents.
    pub fn load_banned_commands(&mut self, text: &str)
        requires
            old(self).wf(),
        ensures
            final(self).banned_view() == list_entries(text@),
            final(self).allowed_view() == old(self).allowed_view(),
            final(self).wf(),
    {
        self.banned = parse_command_list(text);
    }
}

/// The text handed back to the model for a command's disposition: the
/// captured output where it ran, else what stopped it.
pub open spec fn payload_of(d: Disposition, output: Seq<char>) -> Seq<char> {
    match d {
        Disposition::Spawn(_) => output,
        Disposition::RunYourself(note) => note@,
        Disposition::Print(c) => c@,
        Disposition::Banned(_) => "Error: the command is banned and was not executed."@,
        Disposition::Confirm(_) => "Error: the command awaits the operator's confirmation."@,
        Disposition::Declined => "Error: User denied permission to execute the command."@,
        Disposition::Unrecognised => "Error: Invalid input. Command execution cancelled."@,
        Disposition::BanRecorded(_) => "Error: the user banned the command."@,
    }
}

/// The text handed back to the model for a command's disposition; `output`
/// is what the command printed, where it ran.
pub fn function_payload(d: &Disposition, output: &str) -> (r: String)
    ensures
        r@ == payload_of(*d, output@),
{
    match d {
        Disposition::Spawn(_) => String::from_str(output),
        Disposition::RunYourself(note) => note.clone(),
        Disposition::Print(c) => c.clone(),
        Disposition::Banned(_) => String::from_str("Error: the command is banned and was not executed."),
        Disposition::Confirm(_) => String::from_str("Error: the command awaits the operator's confirmation."),
        Disposition::Declined => String::from_str("Error: User denied permission to execute the command."),
        Disposition::Unrecognised => String::from_str("Error: Invalid input. Command execution cancelled."),
        Disposition::BanRecorded(_) => String::from_str("Error: the user banned the command."),
    }
}

/// An allow-listed command is never put to the operator: it runs (or, for a
/// shell builtin, is handed back as a note), whatever the deny-list holds.
pub proof fn lemma_allowed_runs_unprompted(allowed: Seq<Seq<char>>, banned: Seq<Seq<char>>, reply: Seq<char>, d: Disposition)
    requires
        allowed.contains(normalized(reply)),
        screen_spec(allowed, banned, reply, false, d),
    ensures
        execution_spec(normalized(reply), d),
        !(d is Confirm),
        !(d is Banned),
        d is Spawn || d is RunYourself,
{
}

/// A deny-listed command that is not allow-listed is never spawned: the command filter
/// reports it as banned.
pub proof fn lemma_banned_never_spawns(allowed: Seq<Seq<char>>, banned: Seq<Seq<char>>, reply: Seq<char>, no_execute: bool, d: Disposition)
    requires
        banned.contains(normalized(reply)),
        !allowed.contains(normalized(reply)),
        screen_spec(allowed, banned, reply, no_execute, d),
    ensures
        !(d is Spawn),
        d matches Disposition::Banned(c) && c@ == normalized(reply),
{
}

/// Banning the same command twice keeps both entries, and the command stays
/// denied with either of them alone.
pub proof fn lemma_ban_twice(allowed: Seq<Seq<char>>, banned: Seq<Seq<char>>, command: Seq<char>, reply: Seq<char>, no_execute: bool, d: Disposition)
    requires
        trimmed(command).len() > 0,
        normalized(reply) == trimmed(command),
        !allowed.contains(trimmed(command)),
        screen_spec(allowed, banned_after(banned_after(banned, command), command), reply, no_execute, d),
    ensures
        banned_after(banned_after(banned, command), command) == banned.push(trimmed(command)).push(
            trimmed(command),
        ),
        banned_after(banned, command).contains(trimmed(command)),
        d matches Disposition::Banned(c) && c@ == trimmed(command),
{
    let t = trimmed(command);
    let once = banned.push(t);
    let twice = once.push(t);
    assert(once[once.len() - 1] == t);
    assert(twice[twice.len() - 1] == t);
}

/// A shell builtin is never spawned: neither the first decision on it nor
/// any answer of the operator leads to a child process.
pub proof fn lemma_builtin_never_spawns(allowed: Seq<Seq<char>>, banned: Seq<Seq<char>>, reply: Seq<char>, no_execute: bool, d: Disposition, a: Answer, e: Disposition)
    requires
        is_builtin_command(normalized(reply)),
        screen_spec(allowed, banned, reply, no_execute, d),
        answer_spec(normalized(reply), a, e),
    ensures
        !(d is Spawn),
        !(e is Spawn),
{
}

/// The deny-list file.
pub const BANNED_COMMANDS_FILE: &'static str = ".gptsh_banned";

/// The allow-list file.
pub const ALLOWED_COMMANDS_FILE: &'static str = ".gptsh_allowed";

/// The configuration file, which holds the saved context.
pub const CONFIG_FILE: &'static str = ".gptsh_config";

/// The files that must exist before a session starts (created empty where
/// missing): the deny-list, the allow-list and the configuration.
pub fn initialize_files() -> (r: Vec<&'static str>)
    ensures
        r@.len() == 3,
        r@[0]@ == BANNED_COMMANDS_FILE@,
        r@[1]@ == ALLOWED_COMMANDS_FILE@,
        r@[2]@ == CONFIG_FILE@,
{
    vec![BANNED_COMMANDS_FILE, ALLOWED_COMMANDS_FILE, CONFIG_FILE]
}

} // verus!
