use vstd::prelude::*;

verus! {

/// A terminal color, independent of any output backend.
#[derive(Clone, Copy, Debug, PartialEq, Eq, Structural)]
pub enum Color {
    Black,
    Blue,
    Green,
    Red,
    Cyan,
    Magenta,
    Yellow,
    White,
    /// A color from the 256-color palette.
    Ansi256(u8),
    /// A 24-bit color.
    Rgb(u8, u8, u8),
}

/// A color and decoration description, independent of any output backend.
#[derive(Clone, Copy, Debug, PartialEq, Eq, Structural)]
pub struct Style {
    /// The foreground color, if any.
    pub fg: Option<Color>,
    /// The background color, if any.
    pub bg: Option<Color>,
    /// Whether the text is bold.
    pub bold: bool,
    /// Whether the colors use their intense variant.
    pub intense: bool,
    /// Whether the text is underlined.
    pub underline: bool,
}

/// The style with no color and no decoration.
pub open spec fn plain() -> Style {
    Style { fg: None, bg: None, bold: false, intense: false, underline: false }
}

impl Style {
    /// A style with no color and no decoration.
    pub fn new() -> (r: Style)
        ensures
            r == plain(),
    {
        Style { fg: None, bg: None, bold: false, intense: false, underline: false }
    }

    /// This style with the foreground color replaced.
    pub fn with_fg(self, fg: Option<Color>) -> (r: Style)
        ensures
            r == (Style { fg, ..self }),
    {
        Style { fg, ..self }
    }

    /// This style with the background color replaced.
    pub fn with_bg(self, bg: Option<Color>) -> (r: Style)
        ensures
            r == (Style { bg, ..self }),
    {
        Style { bg, ..self }
    }

    /// This style with boldness set.
    pub fn with_bold(self, bold: bool) -> (r: Style)
        ensures
            r == (Style { bold, ..self }),
    {
        Style { bold, ..self }
    }

    /// This style with intensity set.
    pub fn with_intense(self, intense: bool) -> (r: Style)
        ensures
            r == (Style { intense, ..self }),
    {
        Style { intense, ..self }
    }

    /// This style with underlining set.
    pub fn with_underline(self, underline: bool) -> (r: Style)
        ensures
            r == (Style { underline, ..self }),
    {
        Style { underline, ..self }
    }
}

impl Default for Style {
    fn default() -> (r: Style)
        ensures
            r == plain(),
    {
        Style::new()
    }
}

} // verus!
