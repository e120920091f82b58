//! Colours and cell styles.

use vstd::prelude::*;

verus! {

/// The eight hues of the classic terminal palette.
#[derive(Clone, Copy, Debug, PartialEq, Eq, Structural)]
pub enum Hue {
    Black,
    Red,
    Green,
    Yellow,
    Blue,
    Magenta,
    Cyan,
    White,
}

/// A terminal colour.
#[derive(Clone, Copy, Debug, PartialEq, Eq, Structural)]
pub enum Colour {
    /// The terminal's own default.
    Reset,
    /// A hue at normal intensity. Plain white is the light gray of most
    /// terminals.
    Plain(Hue),
    /// A hue at high intensity. Bright black is dark gray.
    Bright(Hue),
    /// An entry of the 256-colour palette.
    Indexed(u8),
    /// Red, green and blue components.
    Rgb(u8, u8, u8),
}

/// A foreground and a background colour.
#[derive(Clone, Copy, Debug, PartialEq, Eq, Structural)]
pub struct Style {
    pub fg: Colour,
    pub bg: Colour,
}

impl Default for Style {
    /// Both colours left to the terminal.
    fn default() -> (style: Style)
        ensures
            style == (Style { fg: Colour::Reset, bg: Colour::Reset }),
    {
        Style { fg: Colour::Reset, bg: Colour::Reset }
    }
}

impl Style {
    /// The same style with another foreground.
    pub fn fg(self, color: Colour) -> (style: Style)
        ensures
            style == (Style { fg: color, bg: self.bg }),
    {
        Style { fg: color, bg: self.bg }
    }

    /// The same style with another background.
    pub fn bg(self, color: Colour) -> (style: Style)
        ensures
            style == (Style { fg: self.fg, bg: color }),
    {
        Style { fg: self.fg, bg: color }
    }
}

} // verus!
