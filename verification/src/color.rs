//! Colors of text on the screen.

use vstd::prelude::*;

verus! {

/// Represents generic flower colors, based off of VGA's color set.
#[derive(Clone, Copy, PartialEq, Eq, Structural, Debug)]
pub enum Color {
    Black,
    Blue,
    Green,
    Cyan,
    Red,
    Magenta,
    Brown,
    LightGray,
    DarkGray,
    LightBlue,
    LightGreen,
    LightCyan,
    LightRed,
    Pink,
    Yellow,
    White,
}

impl Color {
    pub open spec fn spec_value(self) -> u8 {
        match self {
            Color::Black => 0,
            Color::Blue => 1,
            Color::Green => 2,
            Color::Cyan => 3,
            Color::Red => 4,
            Color::Magenta => 5,
            Color::Brown => 6,
            Color::LightGray => 7,
            Color::DarkGray => 8,
            Color::LightBlue => 9,
            Color::LightGreen => 10,
            Color::LightCyan => 11,
            Color::LightRed => 12,
            Color::Pink => 13,
            Color::Yellow => 14,
            Color::White => 15,
        }
    }

    /// The VGA number of the color.
    pub fn value(self) -> (value: u8)
        ensures
            value == self.spec_value(),
            value < 16,
    {
        match self {
            Color::Black => 0,
            Color::Blue => 1,
            Color::Green => 2,
            Color::Cyan => 3,
            Color::Red => 4,
            Color::Magenta => 5,
            Color::Brown => 6,
            Color::LightGray => 7,
            Color::DarkGray => 8,
            Color::LightBlue => 9,
            Color::LightGreen => 10,
            Color::LightCyan => 11,
            Color::LightRed => 12,
            Color::Pink => 13,
            Color::Yellow => 14,
            Color::White => 15,
        }
    }

    pub open spec fn spec_from_value(value: u8) -> Option<Color> {
        if value == 0 {
            Some(Color::Black)
        } else if value == 1 {
            Some(Color::Blue)
        } else if value == 2 {
            Some(Color::Green)
        } else if value == 3 {
            Some(Color::Cyan)
        } else if value == 4 {
            Some(Color::Red)
        } else if value == 5 {
            Some(Color::Magenta)
        } else if value == 6 {
            Some(Color::Brown)
        } else if value == 7 {
            Some(Color::LightGray)
        } else if value == 8 {
            Some(Color::DarkGray)
        } else if value == 9 {
            Some(Color::LightBlue)
        } else if value == 10 {
            Some(Color::LightGreen)
        } else if value == 11 {
            Some(Color::LightCyan)
        } else if value == 12 {
            Some(Color::LightRed)
        } else if value == 13 {
            Some(Color::Pink)
        } else if value == 14 {
            Some(Color::Yellow)
        } else if value == 15 {
            Some(Color::White)
        } else {
            None
        }
    }

    /// The color with VGA number `value`, if there is one.
    pub fn from_value(value: u8) -> (color: Option<Color>)
        ensures
            color == Self::spec_from_value(value),
            color matches Some(c) ==> c.spec_value() == value,
    {
        match value {
            0 => Some(Color::Black),
            1 => Some(Color::Blue),
            2 => Some(Color::Green),
            3 => Some(Color::Cyan),
            4 => Some(Color::Red),
            5 => Some(Color::Magenta),
            6 => Some(Color::Brown),
            7 => Some(Color::LightGray),
            8 => Some(Color::DarkGray),
            9 => Some(Color::LightBlue),
            10 => Some(Color::LightGreen),
            11 => Some(Color::LightCyan),
            12 => Some(Color::LightRed),
            13 => Some(Color::Pink),
            14 => Some(Color::Yellow),
            15 => Some(Color::White),
            _ => None,
        }
    }
}

/// A foreground and a background color.
#[derive(Clone, Copy, PartialEq, Eq, Structural, Debug)]
pub struct ColorPair {
    pub foreground: Color,
    pub background: Color,
}

impl ColorPair {
    pub fn new(foreground: Color, background: Color) -> (pair: ColorPair)
        ensures
            pair == (ColorPair { foreground, background }),
    {
        ColorPair { foreground, background }
    }
}

impl Default for ColorPair {
    /// White on black.
    fn default() -> (pair: ColorPair)
        ensures
            pair == (ColorPair { foreground: Color::White, background: Color::Black }),
    {
        ColorPair { foreground: Color::White, background: Color::Black }
    }
}

/// Every VGA number names its color back.
pub proof fn law_color_value_round_trip(color: Color)
    ensures
        Color::spec_from_value(color.spec_value()) == Some(color),
{
}

} // verus!
