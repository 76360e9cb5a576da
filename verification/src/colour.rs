//! The colour palette: logical pixel colours and the terminal colours that
//! they are painted with.

use vstd::prelude::*;

verus! {

/// The colour of a pixel as peers exchange it: the neutral `Clear`, seven
/// hues in a bright and a dark shade each, and `Black`.
#[derive(Clone, Copy, Debug, PartialEq, Eq, Structural, Hash)]
pub enum PixelColour {
    Clear,
    White,
    DarkRed,
    Red,
    DarkBlue,
    Blue,
    DarkGreen,
    Green,
    DarkYellow,
    Yellow,
    DarkMagenta,
    Magenta,
    DarkGrey,
    Grey,
    Black,
}

/// A colour of the terminal: its default, `Reset`, and the sixteen named
/// colours.
#[derive(Clone, Copy, Debug, PartialEq, Eq, Structural, Hash)]
pub enum TerminalColour {
    Reset,
    Black,
    DarkGrey,
    Red,
    DarkRed,
    Green,
    DarkGreen,
    Yellow,
    DarkYellow,
    Blue,
    DarkBlue,
    Magenta,
    DarkMagenta,
    Cyan,
    DarkCyan,
    White,
    Grey,
}

/// The terminal colour that a pixel colour is painted with.
pub open spec fn palette(colour: PixelColour) -> TerminalColour {
    match colour {
        PixelColour::Clear => TerminalColour::Reset,
        PixelColour::White => TerminalColour::White,
        PixelColour::DarkRed => TerminalColour::DarkRed,
        PixelColour::Red => TerminalColour::Red,
        PixelColour::DarkBlue => TerminalColour::DarkBlue,
        PixelColour::Blue => TerminalColour::Blue,
        PixelColour::DarkGreen => TerminalColour::DarkGreen,
        PixelColour::Green => TerminalColour::Green,
        PixelColour::DarkYellow => TerminalColour::DarkYellow,
        PixelColour::Yellow => TerminalColour::Yellow,
        PixelColour::DarkMagenta => TerminalColour::DarkMagenta,
        PixelColour::Magenta => TerminalColour::Magenta,
        PixelColour::DarkGrey => TerminalColour::DarkGrey,
        PixelColour::Grey => TerminalColour::Grey,
        PixelColour::Black => TerminalColour::Black,
    }
}

/// Resolves a pixel colour to the terminal colour of the palette.
pub fn resolve_colour(colour: &PixelColour) -> (resolved: TerminalColour)
    ensures
        resolved == palette(*colour),
{
    match colour {
        PixelColour::Clear => TerminalColour::Reset,
        PixelColour::White => TerminalColour::White,
        PixelColour::DarkRed => TerminalColour::DarkRed,
        PixelColour::Red => TerminalColour::Red,
        PixelColour::DarkBlue => TerminalColour::DarkBlue,
        PixelColour::Blue => TerminalColour::Blue,
        PixelColour::DarkGreen => TerminalColour::DarkGreen,
        PixelColour::Green => TerminalColour::Green,
        PixelColour::DarkYellow => TerminalColour::DarkYellow,
        PixelColour::Yellow => TerminalColour::Yellow,
        PixelColour::DarkMagenta => TerminalColour::DarkMagenta,
        PixelColour::Magenta => TerminalColour::Magenta,
        PixelColour::DarkGrey => TerminalColour::DarkGrey,
        PixelColour::Grey => TerminalColour::Grey,
        PixelColour::Black => TerminalColour::Black,
    }
}

/// The palette is injective: two pixel colours that resolve to the same
/// terminal colour are the same pixel colour.
pub proof fn palette_is_injective(a: PixelColour, b: PixelColour)
    requires
        palette(a) == palette(b),
    ensures
        a == b,
{
}

} // verus!
