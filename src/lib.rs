//! Command mediation between an operator, a language-model backend and a shell:
//! the command filter, the conversation engine and the interactive session, with
//! the decisions they take stated and proved.

pub mod text;
pub mod classify;
pub mod gate;
pub mod json;
pub mod chat;
pub mod wire;
pub mod style;
pub mod session;
pub mod oneshot;
pub mod progress;
pub mod util;
pub mod cli;
