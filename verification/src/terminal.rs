//! Terminal text output: points, resolutions, colored characters and the errors of writing
//! them.

use vstd::prelude::*;
use crate::color::{Color, ColorPair};

verus! {

/// Represents a character in a terminal, containing a character and color.
#[derive(Clone, Copy, PartialEq, Eq, Structural, Debug)]
pub struct TerminalCharacter {
    pub character: char,
    pub color: ColorPair,
}

impl TerminalCharacter {
    pub fn new(character: char, color: ColorPair) -> (result: TerminalCharacter)
        ensures
            result == (TerminalCharacter { character, color }),
    {
        TerminalCharacter { character, color }
    }
}

/// Represents a 2d point in a terminal. Origin is at the bottom left.
#[derive(Clone, Copy, PartialEq, Eq, Structural, Debug)]
pub struct Point {
    pub x: usize,
    pub y: usize,
}

impl Point {
    /// Creates a new point at the given coordinate.
    pub fn new(x: usize, y: usize) -> (point: Point)
        ensures
            point == (Point { x, y }),
    {
        Point { x, y }
    }

    /// The sum of two points, coordinate by coordinate.
    pub fn add(self, rhs: Point) -> (sum: Point)
        requires
            self.x + rhs.x <= usize::MAX,
            self.y + rhs.y <= usize::MAX,
        ensures
            sum == (Point { x: (self.x + rhs.x) as usize, y: (self.y + rhs.y) as usize }),
    {
        Point { x: self.x + rhs.x, y: self.y + rhs.y }
    }
}

/// Represents a terminal's resolution.
#[derive(Clone, Copy, PartialEq, Eq, Structural, Debug)]
pub struct Resolution {
    pub x: usize,
    pub y: usize,
}

impl Resolution {
    pub fn new(x: usize, y: usize) -> (resolution: Resolution)
        ensures
            resolution == (Resolution { x, y }),
    {
        Resolution { x, y }
    }

    /// The middle point of the area (rounded down).
    pub fn center(&self) -> (center: Point)
        requires
            self.x > 0,
            self.y > 0,
        ensures
            center == (Point { x: ((self.x - 1) / 2) as usize, y: ((self.y - 1) / 2) as usize }),
    {
        Point { x: (self.x - 1) / 2, y: (self.y - 1) / 2 }
    }
}

/// Why backspacing is unavailable.
#[derive(Clone, Copy, PartialEq, Eq, Structural, Debug)]
pub enum BackspaceUnavailableCause {
    Disabled,
    TopOfTerminal,
}

/// A general terminal output error.
#[derive(Clone, Copy, PartialEq, Eq, Structural, Debug)]
pub enum TerminalOutputError {
    /// Backspacing is not supported by the terminal.
    BackspaceUnsupported,
    /// Backspacing is unavailable.
    BackspaceUnavailable(BackspaceUnavailableCause),
    /// Setting characters at position is unsupported.
    SetCharacterUnsupported,
    /// Cursor is unsupported.
    CursorUnsupported,
    /// The given point was attempted to be accessed but is out of bounds.
    OutOfBounds(Point),
    /// The given color is not supported by the terminal.
    SpecificColorUnsupported(Color),
    /// The terminal does not support any color.
    ColorUnsupported,
    /// Clearing the whole/a line in the terminal is not supported.
    ClearUnsupported,
    /// Terminal is a stream (and has no resolution).
    StreamWithoutResolution,
    /// A point outside an area: the point, and the area's bottom left and top right corners.
    Debug(Point, Point, Point),
}

/// A writable terminal.
pub trait TerminalOutput {
    /// Check if a color is supported by this terminal.
    fn color_supported(&self, color: Color) -> bool;

    /// The resolution of the terminal.
    fn resolution(&self) -> Resolution;

    /// Whether a point is in bounds of the terminal.
    fn in_bounds(&self, point: Point) -> bool;

    /// Gets position of this terminal's cursor.
    fn cursor_pos(&self) -> Point;

    /// Gets the color this terminal is using.
    fn color(&self) -> ColorPair;
}

/// A foreground and background color for a character.
#[derive(Clone, Copy, PartialEq, Eq, Structural, Debug)]
pub struct TerminalColor {
    pub foreground: Color,
    pub background: Color,
}

impl TerminalColor {
    pub fn new(foreground: Color, background: Color) -> (color: TerminalColor)
        ensures
            color == (TerminalColor { foreground, background }),
    {
        TerminalColor { foreground, background }
    }
}

/// An error writing to a terminal: the error of its output.
#[derive(Clone, Copy, PartialEq, Eq, Structural, Debug)]
pub enum TerminalWriteError {
    TerminalOutputError(TerminalOutputError),
}

/// Output to a grid of character cells.
pub trait TerminalWriter {
    /// Sets a character at the given cell.
    fn set(&mut self, column: usize, row: usize, character: u8, color: TerminalColor) -> Result<
        (),
        TerminalWriteError,
    >;
}

} // verus!
