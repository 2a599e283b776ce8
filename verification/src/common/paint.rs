//! Terminal colours: the escape sequences that wrap a painted text.

use crate::common::text::decimal;
use vstd::prelude::*;
use vstd::string::*;

verus! {

/// A foreground colour that the command-line output uses.
#[derive(Debug, PartialEq, Eq, Clone, Copy, Structural)]
pub enum Tint {
    Blue,
    Cyan,
    Rgb(u8, u8, u8),
}

/// The sequence that switches every style off again.
pub open spec fn reset_code() -> Seq<char> {
    seq!['\u{1b}', '[', '0', 'm']
}

impl Tint {
    /// The colour's number in a select-graphic-rendition sequence.
    pub open spec fn code(self) -> Seq<char> {
        match self {
            Tint::Blue => seq!['3', '4'],
            Tint::Cyan => seq!['3', '6'],
            Tint::Rgb(r, g, b) => seq!['3', '8', ';', '2', ';'] + decimal(r as nat) + seq![';']
                + decimal(g as nat) + seq![';'] + decimal(b as nat),
        }
    }

    /// The sequence that switches the colour on.
    pub open spec fn prefix(self) -> Seq<char> {
        seq!['\u{1b}', '['] + self.code() + seq!['m']
    }

    /// `text` between the colour's prefix and the reset sequence.
    pub open spec fn painted(self, text: Seq<char>) -> Seq<char> {
        self.prefix() + text + reset_code()
    }

    /// Wraps `text` in the escape sequences of this colour.
    ///
    /// Trusted: calls `ansi_term::Colour::paint` and renders the painted
    /// string.  The contract repeats what that crate writes for a style with a
    /// foreground colour and nothing else: `ESC [`, the colour's code (`34`,
    /// `36`, or `38;2;r;g;b` with decimal components), `m`, the text, and the
    /// reset sequence `ESC [ 0 m`.
    #[verifier::external_body]
    pub(crate) fn paint(self, text: &str) -> (out: String)
        ensures
            out@ == self.painted(text@),
    {
        let colour = match self {
            Tint::Blue => ansi_term::Colour::Blue,
            Tint::Cyan => ansi_term::Colour::Cyan,
            Tint::Rgb(r, g, b) => ansi_term::Colour::RGB(r, g, b),
        };
        colour.paint(text).to_string()
    }
}

} // verus!
