//! The VGA text mode screen: its character cells and the writer that fills them, wrapping and
//! scrolling.
//!
//! The writer keeps the 80 by 25 cells in memory, row by row from the top; whoever owns the
//! hardware buffer copies them there.

use vstd::prelude::*;
use vstd::std_specs::convert::FromSpecImpl;
use crate::color::{Color, ColorPair};
use crate::terminal::{
    TerminalCharacter, Point, Resolution, TerminalOutputError, BackspaceUnavailableCause,
    TerminalOutput, TerminalWriter, TerminalWriteError, TerminalColor,
};

verus! {

/// Columns of the screen.
pub const RESOLUTION_X: usize = 80;
/// Rows of the screen.
pub const RESOLUTION_Y: usize = 25;
/// Cells of the screen.
pub const CELLS: usize = 2000;

/// A VGA color byte: background in the high four bits, foreground in the low four.
#[derive(Clone, Copy, PartialEq, Eq, Structural, Debug)]
pub struct VgaColor(pub u8);

impl VgaColor {
    pub open spec fn spec_new(foreground: Color, background: Color) -> VgaColor {
        VgaColor((background.spec_value() * 16 + foreground.spec_value()) as u8)
    }

    /// Creates a new VgaColor for the given foreground and background.
    pub fn new(foreground: Color, background: Color) -> (color: VgaColor)
        ensures
            color == Self::spec_new(foreground, background),
    {
        let b = background.value();
        let f = foreground.value();
        assert((b << 4u8) | f == b * 16 + f) by (bit_vector)
            requires
                b < 16,
                f < 16,
        ;
        VgaColor((b << 4u8) | f)
    }

    pub open spec fn spec_colors(self) -> Option<(Color, Color)> {
        match (Color::spec_from_value(self.0 / 16), Color::spec_from_value(self.0 % 16)) {
            (Some(background), Some(foreground)) => Some((background, foreground)),
            _ => None,
        }
    }

    /// The colors of this byte as `(background, foreground)`.
    pub fn colors(&self) -> (colors: Option<(Color, Color)>)
        ensures
            colors == self.spec_colors(),
    {
        match (Color::from_value(self.0 / 16), Color::from_value(self.0 % 16)) {
            (Some(background), Some(foreground)) => Some((background, foreground)),
            _ => None,
        }
    }
}

/// A color byte gives back the colors it was made of.
pub proof fn law_vga_color_round_trip(foreground: Color, background: Color)
    ensures
        VgaColor::spec_new(foreground, background).spec_colors() == Some((background, foreground)),
{
    let b = background.spec_value();
    let f = foreground.spec_value();
    assert((b * 16 + f) as u8 / 16 == b && (b * 16 + f) as u8 % 16 == f);
}

impl From<ColorPair> for VgaColor {
    /// Converts a color pair to the color byte that displays it.
    fn from(color: ColorPair) -> (result: VgaColor) {
        VgaColor::new(color.foreground, color.background)
    }
}

impl FromSpecImpl<ColorPair> for VgaColor {
    open spec fn obeys_from_spec() -> bool {
        true
    }

    open spec fn from_spec(color: ColorPair) -> VgaColor {
        VgaColor::spec_new(color.foreground, color.background)
    }
}

/// Represents a full character in the VGA buffer, with a character code and its colors.
#[derive(Clone, Copy, PartialEq, Eq, Structural, Debug)]
pub struct VgaChar {
    pub character: u8,
    pub color: VgaColor,
}

impl VgaChar {
    pub fn new(color: VgaColor, character: u8) -> (result: VgaChar)
        ensures
            result == (VgaChar { color, character }),
    {
        VgaChar { color, character }
    }
}

/// The cell of a terminal point: the origin is the bottom left, cells go row by row from the
/// top.
pub open spec fn cell_of(point: Point) -> int {
    (24 - point.y) * 80 + point.x
}

/// How a terminal character is displayed.
pub open spec fn vga_char(character: TerminalCharacter) -> VgaChar {
    VgaChar {
        character: character.character as u8,
        color: VgaColor::spec_new(character.color.foreground, character.color.background),
    }
}

/// An empty cell with the given background.
pub open spec fn blank(background: Color) -> VgaChar {
    VgaChar { character: 32, color: VgaColor::spec_new(Color::Black, background) }
}

/// The cells scrolled up by `amount` lines (at most all of them); the lines that come in at the
/// bottom are empty.
pub open spec fn scrolled(cells: Seq<VgaChar>, amount: int, background: Color) -> Seq<VgaChar> {
    let shift = if amount < 25 {
        amount
    } else {
        25
    };
    Seq::new(
        2000,
        |i: int|
            if i / 80 < 25 - shift {
                cells[i + shift * 80]
            } else {
                blank(background)
            },
    )
}

/// The cells with row `row` (counted from the top) emptied.
pub open spec fn cleared_row(cells: Seq<VgaChar>, row: int, background: Color) -> Seq<VgaChar> {
    Seq::new(2000, |i: int| if i / 80 == row { blank(background) } else { cells[i] })
}

/// The cells and cursor after writing `character` at `cursor`: the cursor advances, and
/// wraps to the next line at the end of a line, scrolling at the bottom.
pub open spec fn after_write(cells: Seq<VgaChar>, cursor: Point, background: Color, character: TerminalCharacter) -> (Seq<VgaChar>, Point) {
    let written = cells.update(cell_of(cursor), vga_char(character));
    if cursor.x + 1 < 80 {
        (written, Point { x: (cursor.x + 1) as usize, y: cursor.y })
    } else if cursor.y > 0 {
        (written, Point { x: 0, y: (cursor.y - 1) as usize })
    } else {
        (scrolled(written, 1, background), Point { x: 0, y: 0 })
    }
}

/// The cells and cursor after a new line: the cursor moves to the start of the line below,
/// scrolling at the bottom.
pub open spec fn after_new_line(cells: Seq<VgaChar>, cursor: Point, background: Color) -> (Seq<VgaChar>, Point) {
    if cursor.y > 0 {
        (cells, Point { x: 0, y: (cursor.y - 1) as usize })
    } else {
        (scrolled(cells, 1, background), Point { x: 0, y: 0 })
    }
}

/// The cells, cursor and outcome of a backspace: the cursor moves back one cell (to the end of
/// the line above from the start of a line, which fails on the top line) and that cell is
/// emptied in the background color; at the origin there is nothing to backspace.
pub open spec fn after_backspace(cells: Seq<VgaChar>, cursor: Point, background: Color) -> (Seq<VgaChar>, Point, Result<(), TerminalOutputError>) {
    let erased = VgaChar { character: 32, color: VgaColor::spec_new(background, background) };
    if cursor.x == 0 && cursor.y == 0 {
        (
            cells,
            cursor,
            Err(TerminalOutputError::BackspaceUnavailable(BackspaceUnavailableCause::TopOfTerminal)),
        )
    } else if cursor.x == 0 && cursor.y + 1 >= 25 {
        (cells, cursor, Err(TerminalOutputError::OutOfBounds(Point { x: 79, y: (cursor.y + 1) as usize })))
    } else {
        let back = if cursor.x == 0 {
            Point { x: 79, y: (cursor.y + 1) as usize }
        } else {
            Point { x: (cursor.x - 1) as usize, y: cursor.y }
        };
        (cells.update(cell_of(back), erased), back, Ok(()))
    }
}

/// Interface to VGA, allowing write.
pub struct VgaWriter {
    cells: Vec<VgaChar>,
    cursor: Point,
    color: ColorPair,
}

impl VgaWriter {
    pub closed spec fn spec_cells(&self) -> Seq<VgaChar> {
        self.cells@
    }

    pub closed spec fn spec_cursor(&self) -> Point {
        self.cursor
    }

    pub closed spec fn spec_color(&self) -> ColorPair {
        self.color
    }

    pub open spec fn wf(&self) -> bool {
        &&& self.spec_cells().len() == 2000
        &&& self.spec_cursor().x < 80
        &&& self.spec_cursor().y < 25
    }

    /// A writer with an empty screen, its cursor at the start of the top line, writing white on
    /// black.
    pub fn new() -> (writer: VgaWriter)
        ensures
            writer.wf(),
            writer.spec_cells() == Seq::new(2000, |i: int| blank(Color::Black)),
            writer.spec_cursor() == (Point { x: 0, y: 24 }),
            writer.spec_color() == (ColorPair { foreground: Color::White, background: Color::Black }),
    {
        let empty = VgaChar::new(VgaColor::new(Color::Black, Color::Black), 32);
        let mut cells: Vec<VgaChar> = Vec::new();
        let mut i: usize = 0;
        while i < CELLS
            invariant
                i <= CELLS,
                cells@.len() == i,
                empty == blank(Color::Black),
                forall|j: int| 0 <= j < i ==> cells@[j] == empty,
            decreases CELLS - i,
        {
            cells.push(empty);
            i = i + 1;
        }
        assert(cells@ =~= Seq::new(2000, |i: int| blank(Color::Black)));
        VgaWriter {
            cells,
            cursor: Point::new(0, RESOLUTION_Y - 1),
            color: ColorPair::new(Color::White, Color::Black),
        }
    }

    /// The cells of the screen, row by row from the top.
    pub fn buffer(&self) -> (cells: &Vec<VgaChar>)
        ensures
            cells@ == self.spec_cells(),
    {
        &self.cells
    }

    /// Moves the cursor to `point` if it is on the screen.
    pub fn set_cursor_pos(&mut self, point: Point) -> (result: Result<(), TerminalOutputError>)
        requires
            old(self).wf(),
        ensures
            final(self).wf(),
            final(self).spec_cells() == old(self).spec_cells(),
            final(self).spec_color() == old(self).spec_color(),
            point.x < 80 && point.y < 25 ==> result is Ok && final(self).spec_cursor() == point,
            !(point.x < 80 && point.y < 25) ==> result == Err::<(), TerminalOutputError>(
                TerminalOutputError::OutOfBounds(point),
            ) && final(self).spec_cursor() == old(self).spec_cursor(),
    {
        if self.in_bounds(point) {
            self.cursor = point;
            Ok(())
        } else {
            Err(TerminalOutputError::OutOfBounds(point))
        }
    }

    /// Sets the color to write with; every color is supported.
    pub fn set_color(&mut self, color: ColorPair) -> (result: Result<(), TerminalOutputError>)
        requires
            old(self).wf(),
        ensures
            final(self).wf(),
            result is Ok,
            final(self).spec_color() == color,
            final(self).spec_cells() == old(self).spec_cells(),
            final(self).spec_cursor() == old(self).spec_cursor(),
    {
        self.color = color;
        Ok(())
    }

    /// Sets the character at a terminal point (origin bottom left).
    pub fn set_char(&mut self, character: TerminalCharacter, point: Point) -> (result: Result<
        (),
        TerminalOutputError,
    >)
        requires
            old(self).wf(),
        ensures
            final(self).wf(),
            final(self).spec_cursor() == old(self).spec_cursor(),
            final(self).spec_color() == old(self).spec_color(),
            point.y >= 25 ==> result == Err::<(), TerminalOutputError>(
                TerminalOutputError::OutOfBounds(point),
            ) && final(self).spec_cells() == old(self).spec_cells(),
            point.y < 25 && point.x >= 80 ==> result == Err::<(), TerminalOutputError>(
                TerminalOutputError::OutOfBounds(Point { x: point.x, y: (24 - point.y) as usize }),
            ) && final(self).spec_cells() == old(self).spec_cells(),
            point.y < 25 && point.x < 80 ==> result is Ok && final(self).spec_cells() == old(
                self,
            ).spec_cells().update(cell_of(point), vga_char(character)),
    {
        if point.y >= RESOLUTION_Y {
            return Err(TerminalOutputError::OutOfBounds(point));
        }
        let row = RESOLUTION_Y - 1 - point.y;
        if point.x >= RESOLUTION_X {
            return Err(TerminalOutputError::OutOfBounds(Point::new(point.x, row)));
        }
        let color = VgaColor::new(character.color.foreground, character.color.background);
        let cell = VgaChar::new(color, character.character as u8);
        self.cells.set(row * RESOLUTION_X + point.x, cell);
        Ok(())
    }

    /// Scrolls the screen up by `amount` lines; the new lines at the bottom are empty in the
    /// current background color.
    pub fn scroll_down(&mut self, amount: usize) -> (result: Result<(), TerminalOutputError>)
        requires
            old(self).wf(),
        ensures
            final(self).wf(),
            result is Ok,
            final(self).spec_cells() == scrolled(
                old(self).spec_cells(),
                amount as int,
                old(self).spec_color().background,
            ),
            final(self).spec_cursor() == old(self).spec_cursor(),
            final(self).spec_color() == old(self).spec_color(),
    {
        let shift = if amount < RESOLUTION_Y {
            amount
        } else {
            RESOLUTION_Y
        };
        let empty = VgaChar::new(VgaColor::new(Color::Black, self.color.background), 32);
        let ghost old_cells = self.cells@;
        let mut cells: Vec<VgaChar> = Vec::new();
        let mut i: usize = 0;
        while i < CELLS
            invariant
                i <= CELLS,
                shift <= 25,
                old_cells.len() == 2000,
                old_cells == self.cells@,
                cells@.len() == i,
                empty == blank(self.color.background),
                forall|j: int|
                    0 <= j < i ==> cells@[j] == (if j / 80 < 25 - shift {
                        old_cells[j + shift * 80]
                    } else {
                        blank(self.color.background)
                    }),
            decreases CELLS - i,
        {
            if i / RESOLUTION_X < RESOLUTION_Y - shift {
                cells.push(self.cells[i + shift * RESOLUTION_X]);
            } else {
                cells.push(empty);
            }
            i = i + 1;
        }
        self.cells = cells;
        assert(self.cells@ =~= scrolled(old_cells, amount as int, self.color.background));
        Ok(())
    }

    /// Empties row `y` of the buffer (counted from the top) in the current background color.
    pub fn clear_line(&mut self, y: usize) -> (result: Result<(), TerminalOutputError>)
        requires
            old(self).wf(),
        ensures
            final(self).wf(),
            final(self).spec_cursor() == old(self).spec_cursor(),
            final(self).spec_color() == old(self).spec_color(),
            y < 25 ==> result is Ok && final(self).spec_cells() == cleared_row(
                old(self).spec_cells(),
                y as int,
                old(self).spec_color().background,
            ),
            y >= 25 ==> result == Err::<(), TerminalOutputError>(
                TerminalOutputError::OutOfBounds(Point { x: 0, y }),
            ) && final(self).spec_cells() == old(self).spec_cells(),
    {
        if !self.in_bounds(Point::new(0, y)) {
            return Err(TerminalOutputError::OutOfBounds(Point::new(0, y)));
        }
        let empty = VgaChar::new(VgaColor::new(Color::Black, self.color.background), 32);
        let ghost old_cells = self.cells@;
        let mut x: usize = 0;
        while x < RESOLUTION_X
            invariant
                x <= RESOLUTION_X,
                y < 25,
                self.cursor == old(self).spec_cursor(),
                self.color == old(self).spec_color(),
                self.cursor.x < 80,
                self.cursor.y < 25,
                self.cells@.len() == 2000,
                old_cells.len() == 2000,
                empty == blank(self.color.background),
                forall|j: int|
                    0 <= j < 2000 ==> self.cells@[j] == (if j / 80 == y && j % 80 < x {
                        blank(self.color.background)
                    } else {
                        old_cells[j]
                    }),
            decreases RESOLUTION_X - x,
        {
            self.cells.set(y * RESOLUTION_X + x, empty);
            x = x + 1;
        }
        assert(self.cells@ =~= cleared_row(old_cells, y as int, self.color.background));
        Ok(())
    }

    /// Empties every row in the current background color.
    pub fn clear(&mut self) -> (result: Result<(), TerminalOutputError>)
        requires
            old(self).wf(),
        ensures
            final(self).wf(),
            result is Ok,
            final(self).spec_cells() == Seq::new(
                2000,
                |i: int| blank(old(self).spec_color().background),
            ),
            final(self).spec_cursor() == old(self).spec_cursor(),
            final(self).spec_color() == old(self).spec_color(),
    {
        let mut line: usize = 0;
        while line < RESOLUTION_Y
            invariant
                line <= RESOLUTION_Y,
                self.wf(),
                self.spec_cursor() == old(self).spec_cursor(),
                self.spec_color() == old(self).spec_color(),
                forall|j: int|
                    0 <= j < 2000 ==> self.cells@[j] == (if j / 80 < line {
                        blank(self.color.background)
                    } else {
                        old(self).spec_cells()[j]
                    }),
            decreases RESOLUTION_Y - line,
        {
            let _ = self.clear_line(line);
            line = line + 1;
        }
        assert(self.cells@ =~= Seq::new(2000, |i: int| blank(old(self).spec_color().background)));
        Ok(())
    }

    /// Moves to the start of the next line down, scrolling the screen when the cursor is on the
    /// bottom line.
    pub fn new_line(&mut self) -> (result: Result<(), TerminalOutputError>)
        requires
            old(self).wf(),
        ensures
            final(self).wf(),
            result is Ok,
            final(self).spec_color() == old(self).spec_color(),
            (final(self).spec_cells(), final(self).spec_cursor()) == after_new_line(
                old(self).spec_cells(),
                old(self).spec_cursor(),
                old(self).spec_color().background,
            ),
    {
        let mut pos = self.cursor;
        pos.x = 0;
        if pos.y > 0 {
            pos.y = pos.y - 1;
        } else {
            let _ = self.scroll_down(1);
        }
        self.set_cursor_pos(pos)
    }

    /// Writes a character at the cursor and advances it, wrapping to the next line at the end
    /// of a line.
    pub fn write_raw(&mut self, character: TerminalCharacter) -> (result: Result<
        (),
        TerminalOutputError,
    >)
        requires
            old(self).wf(),
        ensures
            final(self).wf(),
            result is Ok,
            final(self).spec_color() == old(self).spec_color(),
            (final(self).spec_cells(), final(self).spec_cursor()) == after_write(
                old(self).spec_cells(),
                old(self).spec_cursor(),
                old(self).spec_color().background,
                character,
            ),
    {
        let mut pos = self.cursor;
        let _ = self.set_char(character, pos);
        pos.x = pos.x + 1;
        if pos.x >= RESOLUTION_X {
            self.new_line()
        } else {
            self.set_cursor_pos(pos)
        }
    }

    /// Writes a character in `color`: a newline moves to the next line, any other character is
    /// written at the cursor.
    pub fn write_colored(&mut self, character: char, color: ColorPair) -> (result: Result<
        (),
        TerminalOutputError,
    >)
        requires
            old(self).wf(),
        ensures
            final(self).wf(),
            result is Ok,
            final(self).spec_color() == old(self).spec_color(),
            character == '\n' ==> (final(self).spec_cells(), final(self).spec_cursor())
                == after_new_line(
                old(self).spec_cells(),
                old(self).spec_cursor(),
                old(self).spec_color().background,
            ),
            character != '\n' ==> (final(self).spec_cells(), final(self).spec_cursor())
                == after_write(
                old(self).spec_cells(),
                old(self).spec_cursor(),
                old(self).spec_color().background,
                TerminalCharacter { character, color },
            ),
    {
        if character == '\n' {
            self.new_line()
        } else {
            self.write_raw(TerminalCharacter::new(character, color))
        }
    }

    /// Backspaces one character: the cursor moves back one cell (to the end of the line above
    /// from the start of a line) and that cell is emptied in the background color.
    pub fn backspace(&mut self) -> (result: Result<(), TerminalOutputError>)
        requires
            old(self).wf(),
        ensures
            final(self).wf(),
            final(self).spec_color() == old(self).spec_color(),
            final(self).spec_cells() == after_backspace(
                old(self).spec_cells(),
                old(self).spec_cursor(),
                old(self).spec_color().background,
            ).0,
            final(self).spec_cursor() == after_backspace(
                old(self).spec_cells(),
                old(self).spec_cursor(),
                old(self).spec_color().background,
            ).1,
            result == after_backspace(
                old(self).spec_cells(),
                old(self).spec_cursor(),
                old(self).spec_color().background,
            ).2,
    {
        if self.cursor.x == 0 && self.cursor.y == 0 {
            return Err(TerminalOutputError::BackspaceUnavailable(
                BackspaceUnavailableCause::TopOfTerminal,
            ));
        }
        if self.cursor.x == 0 {
            let up = Point::new(RESOLUTION_X - 1, self.cursor.y + 1);
            match self.set_cursor_pos(up) {
                Ok(()) => {},
                Err(e) => {
                    return Err(e);
                },
            }
        } else {
            let left = Point::new(self.cursor.x - 1, self.cursor.y);
            match self.set_cursor_pos(left) {
                Ok(()) => {},
                Err(e) => {
                    return Err(e);
                },
            }
        }
        let background = self.color.background;
        let blank = TerminalCharacter::new(' ', ColorPair::new(background, background));
        let cursor = self.cursor;
        match self.set_char(blank, cursor) {
            Ok(()) => Ok(()),
            Err(e) => Err(e),
        }
    }
}

impl TerminalOutput for VgaWriter {
    fn color_supported(&self, color: Color) -> (supported: bool)
        ensures
            supported,
    {
        true
    }

    fn resolution(&self) -> (resolution: Resolution)
        ensures
            resolution == (Resolution { x: 80, y: 25 }),
    {
        Resolution::new(RESOLUTION_X, RESOLUTION_Y)
    }

    fn in_bounds(&self, point: Point) -> (inside: bool)
        ensures
            inside == (point.x < 80 && point.y < 25),
    {
        point.x < RESOLUTION_X && point.y < RESOLUTION_Y
    }

    fn cursor_pos(&self) -> (cursor: Point)
        ensures
            cursor == self.spec_cursor(),
    {
        self.cursor
    }

    fn color(&self) -> (color: ColorPair)
        ensures
            color == self.spec_color(),
    {
        self.color
    }
}

impl TerminalWriter for VgaWriter {
    /// Sets the cell at `column` of `row` (rows counted from the top).
    fn set(&mut self, column: usize, row: usize, character: u8, color: TerminalColor) -> (result:
        Result<(), TerminalWriteError>)
        ensures
            old(self).wf() ==> final(self).wf(),
            final(self).spec_cursor() == old(self).spec_cursor(),
            final(self).spec_color() == old(self).spec_color(),
            old(self).wf() && column < 80 && row < 25 ==> result is Ok && final(self).spec_cells()
                == old(self).spec_cells().update(
                row * 80 + column,
                VgaChar {
                    character,
                    color: VgaColor::spec_new(color.foreground, color.background),
                },
            ),
            !(column < 80 && row < 25) ==> result == Err::<(), TerminalWriteError>(
                TerminalWriteError::TerminalOutputError(
                    TerminalOutputError::OutOfBounds(Point { x: column, y: row }),
                ),
            ) && final(self).spec_cells() == old(self).spec_cells(),
    {
        if column >= RESOLUTION_X || row >= RESOLUTION_Y || row * RESOLUTION_X + column
            >= self.cells.len() {
            return Err(
                TerminalWriteError::TerminalOutputError(
                    TerminalOutputError::OutOfBounds(Point::new(column, row)),
                ),
            );
        }
        let cell = VgaChar::new(VgaColor::new(color.foreground, color.background), character);
        self.cells.set(row * RESOLUTION_X + column, cell);
        Ok(())
    }
}

/// Backspacing right after writing a character (that did not end a line) takes the cursor back
/// to where the character went and leaves an empty cell there.
pub proof fn law_write_then_backspace(cells: Seq<VgaChar>, cursor: Point, background: Color, character: TerminalCharacter)
    requires
        cells.len() == 2000,
        cursor.x + 1 < 80,
        cursor.y < 25,
    ensures
        ({
            let (written, moved) = after_write(cells, cursor, background, character);
            let (erased, back, result) = after_backspace(written, moved, background);
            &&& result is Ok
            &&& back == cursor
            &&& erased == cells.update(
                cell_of(cursor),
                VgaChar { character: 32, color: VgaColor::spec_new(background, background) },
            )
        }),
{
    let (written, moved) = after_write(cells, cursor, background, character);
    let (erased, back, result) = after_backspace(written, moved, background);
    assert(erased =~= cells.update(
        cell_of(cursor),
        VgaChar { character: 32, color: VgaColor::spec_new(background, background) },
    ));
}

} // verus!
