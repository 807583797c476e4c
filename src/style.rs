//! Terminal colours, through the `colored` crate.

use vstd::prelude::*;
use colored::Colorize;

verus! {

/// The colours the terminal output uses.
#[derive(PartialEq, Eq, Structural, Clone, Copy, Debug)]
pub enum Hue {
    Red,
    Yellow,
    Green,
    Blue,
    Cyan,
}

/// The escape sequence that ends a coloured span.
pub open spec fn reset_sequence() -> Seq<char> {
    seq!['\x1b', '[', '0', 'm']
}

/// `out` shows `text` coloured or plain: the text itself, or the text after a
/// style sequence and before the reset sequence.
pub open spec fn painted(out: Seq<char>, text: Seq<char>) -> bool {
    out == text || exists|style: Seq<char>| out == style + text + reset_sequence()
}

/// Relies on colored's `Colorize::color` and the `Display` of its
/// `ColoredString`: a text without escape characters comes out unchanged where
/// colouring is off (by the environment or the terminal), else between the
/// colour's style sequence and the reset sequence.
#[verifier::external_body]
pub(crate) fn paint(text: &str, hue: Hue) -> (r: String)
    ensures
        !text@.contains('\x1b') ==> painted(r@, text@),
{
    let color = match hue {
        Hue::Red => colored::Color::Red,
        Hue::Yellow => colored::Color::Yellow,
        Hue::Green => colored::Color::Green,
        Hue::Blue => colored::Color::Blue,
        Hue::Cyan => colored::Color::Cyan,
    };
    text.color(color).to_string()
}

} // verus!
