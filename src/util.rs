//! The working directory as the prompt shows it, the user name, and the
//! saved configuration.

use vstd::prelude::*;
use crate::text::{has_prefix, starts_with};

verus! {

/// `current` with a leading `home` shown as `~`.
pub open spec fn with_tilde(current: Seq<char>, home: Seq<char>) -> Seq<char> {
    if has_prefix(current, home) {
        "~"@ + current.skip(home.len() as int)
    } else {
        current
    }
}

/// The working directory with the home directory at its start replaced by `~`.
pub fn get_current_dir_with_tilde(current_dir: &str, home_dir: &str) -> (r: String)
    ensures
        r@ == with_tilde(current_dir@, home_dir@),
{
    if starts_with(current_dir, home_dir) {
        let mut r = String::from_str("~");
        r.append(current_dir.substring_char(home_dir.unicode_len(), current_dir.unicode_len()));
        r
    } else {
        String::from_str(current_dir)
    }
}

/// The user name from the environment's value, or `Unknown User` where it has none.
pub fn get_username(user_var: Option<String>) -> (r: String)
    ensures
        r@ == (match user_var {
            Some(u) => u@,
            None => "Unknown User"@,
        }),
{
    match user_var {
        Some(u) => u,
        None => String::from_str("Unknown User"),
    }
}

/// The saved configuration.
pub struct Config {
    /// Additional context provided to the model to tailor command generation.
    pub context: Option<String>,
}

impl Default for Config {
    fn default() -> (r: Config)
        ensures
            r.context is None,
    {
        Config { context: None }
    }
}

impl Config {
    /// The context text; empty where none is set.
    pub fn context_text(&self) -> (r: String)
        ensures
            r@ == (match self.context {
                Some(c) => c@,
                None => Seq::<char>::empty(),
            }),
    {
        match &self.context {
            Some(c) => c.clone(),
            None => String::new(),
        }
    }
}

} // verus!
