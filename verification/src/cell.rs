//! Screen cells: colours, attribute flags and the cell itself.

use vstd::prelude::*;

verus! {

/// A colour as the emulator stores it: the terminal default, one of the 16
/// named ANSI colours, or a direct 24-bit triple. 256-palette indices are
/// mapped to one of these forms on arrival (see [`ansi_to_color`]).
#[derive(Debug, Clone, Copy, PartialEq, Eq, Structural)]
pub enum Color {
    Reset,
    Black,
    Red,
    Green,
    Yellow,
    Blue,
    Magenta,
    Cyan,
    White,
    DarkGray,
    LightRed,
    LightGreen,
    LightYellow,
    LightBlue,
    LightMagenta,
    LightCyan,
    Gray,
    Rgb(u8, u8, u8),
}

/// The attribute flags a cell can carry.
#[derive(Debug, Clone, Copy, PartialEq, Eq, Structural)]
pub struct CellAttributes {
    pub bold: bool,
    pub italic: bool,
    pub underline: bool,
    pub blink: bool,
    pub reverse: bool,
    pub hidden: bool,
    pub strikethrough: bool,
}

impl CellAttributes {
    /// All flags off.
    pub open spec fn none_spec() -> CellAttributes {
        CellAttributes {
            bold: false,
            italic: false,
            underline: false,
            blink: false,
            reverse: false,
            hidden: false,
            strikethrough: false,
        }
    }

    /// All flags off.
    pub fn none() -> (r: CellAttributes)
        ensures
            r == CellAttributes::none_spec(),
    {
        CellAttributes {
            bold: false,
            italic: false,
            underline: false,
            blink: false,
            reverse: false,
            hidden: false,
            strikethrough: false,
        }
    }
}

/// A single screen position: a code point plus the pen state it was written
/// with.
#[derive(Debug, Clone, Copy, PartialEq, Eq, Structural)]
pub struct Cell {
    pub character: char,
    pub fg: Color,
    pub bg: Color,
    pub attrs: CellAttributes,
}

impl Cell {
    /// The blank cell: a space with default colours and no attributes.
    pub open spec fn blank_spec() -> Cell {
        Cell {
            character: ' ',
            fg: Color::Reset,
            bg: Color::Reset,
            attrs: CellAttributes::none_spec(),
        }
    }

    /// The blank cell: a space with default colours and no attributes.
    pub fn blank() -> (r: Cell)
        ensures
            r == Cell::blank_spec(),
    {
        Cell { character: ' ', fg: Color::Reset, bg: Color::Reset, attrs: CellAttributes::none() }
    }

    /// A cell holding `c` with default colours and no attributes.
    pub fn new(c: char) -> (r: Cell)
        ensures
            r == (Cell { character: c, ..Cell::blank_spec() }),
    {
        Cell { character: c, fg: Color::Reset, bg: Color::Reset, attrs: CellAttributes::none() }
    }

    /// A cell holding `c` with the given pen state.
    pub fn with_style(c: char, fg: Color, bg: Color, attrs: CellAttributes) -> (r: Cell)
        ensures
            r == (Cell { character: c, fg, bg, attrs }),
    {
        Cell { character: c, fg, bg, attrs }
    }
}

/// What [`ansi_to_color`] returns: the 16 named colours for 0..=15, the
/// 6x6x6 colour cube at step 51 for 16..=231, the 24-step grayscale ramp
/// `(n-232)*10+8` for 232..=255, and the default colour for anything else.
pub open spec fn ansi_color_spec(code: u16) -> Color {
    if code == 0 {
        Color::Black
    } else if code == 1 {
        Color::Red
    } else if code == 2 {
        Color::Green
    } else if code == 3 {
        Color::Yellow
    } else if code == 4 {
        Color::Blue
    } else if code == 5 {
        Color::Magenta
    } else if code == 6 {
        Color::Cyan
    } else if code == 7 {
        Color::White
    } else if code == 8 {
        Color::DarkGray
    } else if code == 9 {
        Color::LightRed
    } else if code == 10 {
        Color::LightGreen
    } else if code == 11 {
        Color::LightYellow
    } else if code == 12 {
        Color::LightBlue
    } else if code == 13 {
        Color::LightMagenta
    } else if code == 14 {
        Color::LightCyan
    } else if code == 15 {
        Color::Gray
    } else if 16 <= code && code <= 231 {
        Color::Rgb(
            ((((code - 16) / 36) * 51) as u8),
            (((((code - 16) / 6) % 6) * 51) as u8),
            ((((code - 16) % 6) * 51) as u8),
        )
    } else if 232 <= code && code <= 255 {
        Color::Rgb(
            (((code - 232) * 10 + 8) as u8),
            (((code - 232) * 10 + 8) as u8),
            (((code - 232) * 10 + 8) as u8),
        )
    } else {
        Color::Reset
    }
}

/// Map an ANSI palette index to a colour value.
pub fn ansi_to_color(code: u16) -> (r: Color)
    ensures
        r == ansi_color_spec(code),
{
    if code == 0 {
        Color::Black
    } else if code == 1 {
        Color::Red
    } else if code == 2 {
        Color::Green
    } else if code == 3 {
        Color::Yellow
    } else if code == 4 {
        Color::Blue
    } else if code == 5 {
        Color::Magenta
    } else if code == 6 {
        Color::Cyan
    } else if code == 7 {
        Color::White
    } else if code == 8 {
        Color::DarkGray
    } else if code == 9 {
        Color::LightRed
    } else if code == 10 {
        Color::LightGreen
    } else if code == 11 {
        Color::LightYellow
    } else if code == 12 {
        Color::LightBlue
    } else if code == 13 {
        Color::LightMagenta
    } else if code == 14 {
        Color::LightCyan
    } else if code == 15 {
        Color::Gray
    } else if 16 <= code && code <= 231 {
        let c = code - 16;
        let r = (c / 36) * 51;
        let g = ((c / 6) % 6) * 51;
        let b = (c % 6) * 51;
        Color::Rgb(r as u8, g as u8, b as u8)
    } else if 232 <= code && code <= 255 {
        let gray = (code - 232) * 10 + 8;
        Color::Rgb(gray as u8, gray as u8, gray as u8)
    } else {
        Color::Reset
    }
}

} // verus!
