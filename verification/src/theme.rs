//! Color theme for the display: a fixed enumeration of named terminal colors
//! and a foreground/background pair with a default of white on black.

use vstd::prelude::*;

verus! {

/// A named terminal color, the closed set the command line may pick from.
#[derive(Clone, Copy, Debug, PartialEq, Eq, Structural)]
pub enum Color {
    Black,
    Red,
    Green,
    Yellow,
    Blue,
    Magenta,
    Cyan,
    Gray,
    DarkGray,
    LightRed,
    LightGreen,
    LightYellow,
    LightBlue,
    LightMagenta,
    LightCyan,
    White,
}

/// A foreground/background color pair used when a frame is painted.
#[derive(Clone, Copy, Debug, PartialEq, Eq, Structural)]
pub struct Theme {
    pub fg: Color,
    pub bg: Color,
}

/// The theme used when the command line names no colors.
pub open spec fn default_theme() -> Theme {
    Theme { fg: Color::White, bg: Color::Black }
}

impl Default for Theme {
    /// Light foreground on dark background.
    fn default() -> (r: Theme)
        ensures
            r == default_theme(),
    {
        Theme { fg: Color::White, bg: Color::Black }
    }
}

/// Per-frame state handed to the renderer alongside the stopwatch fields.
#[derive(Clone, Copy, Debug, PartialEq, Eq, Structural)]
pub struct TimersState {
    pub theme: Theme,
}

} // verus!
