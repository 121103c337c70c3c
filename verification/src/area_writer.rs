//! An area of the screen with its own pointer and color: characters are set cell by cell through
//! the screen's writer, wrapping at the area's right edge.

use vstd::prelude::*;
use crate::color::Color;
use crate::terminal::{TerminalColor, TerminalWriteError, TerminalWriter};
use crate::vga::{VgaChar, VgaColor, VgaWriter};
use vstd::string::StrSliceExecFns;

verus! {

/// An area of the screen: its origin (column and row from the top) and size, the cell the next
/// character goes to, and the color it is written in.
pub struct AreaWriter {
    pub origin_x: usize,
    pub origin_y: usize,
    pub width: usize,
    pub height: usize,
    pub pointer_x: usize,
    pub pointer_y: usize,
    pub color: TerminalColor,
}

/// The cells after setting the cell at `column` of `row` to `character` in `color`, when the
/// cell is on the screen.
pub open spec fn cells_after_set(cells: Seq<VgaChar>, column: int, row: int, character: u8, color: TerminalColor) -> Seq<VgaChar> {
    if column < 80 && row < 25 {
        cells.update(
            row * 80 + column,
            VgaChar { character, color: VgaColor::spec_new(color.foreground, color.background) },
        )
    } else {
        cells
    }
}

impl AreaWriter {
    /// The sums that moving the pointer computes fit, and the pointer's row is at most one past
    /// the area.
    pub open spec fn wf(&self) -> bool {
        &&& self.origin_x + self.width <= usize::MAX
        &&& self.origin_x < usize::MAX
        &&& self.origin_y + self.height <= usize::MAX
        &&& self.pointer_x < usize::MAX
        &&& self.pointer_y <= self.origin_y + self.height
    }

    /// The pointer after a new line: the start of the next row, unless the pointer is past the
    /// area's last row.
    pub open spec fn spec_new_line(&self) -> (usize, usize) {
        if self.pointer_y < self.origin_y + self.height {
            (self.origin_x, (self.pointer_y + 1) as usize)
        } else {
            (self.pointer_x, self.pointer_y)
        }
    }

    /// The outcome of writing one character that is not a newline: the pointer wraps to a new
    /// line where the next cell would reach the right edge, the cell is set, and the pointer
    /// moves on; off the screen the set fails and the pointer stays. Gives the cells, the
    /// pointer and whether the set succeeded.
    pub open spec fn spec_single(&self, cells: Seq<VgaChar>, character: char, color: TerminalColor) -> (
        Seq<VgaChar>,
        (usize, usize),
        bool,
    ) {
        let (x, y) = if self.pointer_x + 1 >= self.origin_x + self.width {
            self.spec_new_line()
        } else {
            (self.pointer_x, self.pointer_y)
        };
        if x < 80 && y < 25 {
            (cells_after_set(cells, x as int, y as int, character as u8, color), ((x + 1) as usize, y), true)
        } else {
            (cells, (x, y), false)
        }
    }

    /// An area at `origin_x`, `origin_y` of `width` by `height`, its pointer at the origin,
    /// writing white on black.
    pub fn new(origin_x: usize, origin_y: usize, width: usize, height: usize) -> (area: AreaWriter)
        requires
            origin_x + width <= usize::MAX,
            origin_x < usize::MAX,
            origin_y + height <= usize::MAX,
        ensures
            area.wf(),
            area == (AreaWriter {
                origin_x,
                origin_y,
                width,
                height,
                pointer_x: origin_x,
                pointer_y: origin_y,
                color: TerminalColor { foreground: Color::White, background: Color::Black },
            }),
    {
        AreaWriter {
            origin_x,
            origin_y,
            width,
            height,
            pointer_x: origin_x,
            pointer_y: origin_y,
            color: TerminalColor::new(Color::White, Color::Black),
        }
    }

    /// Moves the pointer to the start of the next row, unless it is past the area's last row.
    pub fn new_line(&mut self) -> (result: Result<(), TerminalWriteError>)
        requires
            old(self).wf(),
        ensures
            final(self).wf(),
            result is Ok,
            (final(self).pointer_x, final(self).pointer_y) == old(self).spec_new_line(),
            final(self).origin_x == old(self).origin_x,
            final(self).origin_y == old(self).origin_y,
            final(self).width == old(self).width,
            final(self).height == old(self).height,
            final(self).color == old(self).color,
    {
        if self.pointer_y < self.origin_y + self.height {
            self.pointer_y = self.pointer_y + 1;
            self.pointer_x = self.origin_x;
        }
        Ok(())
    }

    /// Writes a character that is not a newline (see `spec_single`).
    fn write_single_char(&mut self, writer: &mut VgaWriter, character: char, color: TerminalColor) -> (result:
        Result<(), TerminalWriteError>)
        requires
            old(self).wf(),
            old(writer).wf(),
        ensures
            final(self).wf(),
            final(writer).wf(),
            final(writer).spec_cursor() == old(writer).spec_cursor(),
            final(writer).spec_color() == old(writer).spec_color(),
            final(self).origin_x == old(self).origin_x,
            final(self).origin_y == old(self).origin_y,
            final(self).width == old(self).width,
            final(self).height == old(self).height,
            final(self).color == old(self).color,
            ({
                let (cells, pointer, set) = old(self).spec_single(old(writer).spec_cells(), character, color);
                &&& final(writer).spec_cells() == cells
                &&& (final(self).pointer_x, final(self).pointer_y) == pointer
                &&& (result is Ok <==> set)
            }),
    {
        if self.pointer_x + 1 >= self.origin_x + self.width {
            let _ = self.new_line();
        }
        match writer.set(self.pointer_x, self.pointer_y, character as u8, color) {
            Ok(()) => {},
            Err(e) => {
                return Err(e);
            },
        }
        self.pointer_x = self.pointer_x + 1;
        Ok(())
    }

    /// Sets the color to write in.
    pub fn set_color(&mut self, color: TerminalColor)
        ensures
            *final(self) == (AreaWriter { color, ..*old(self) }),
    {
        self.color = color;
    }

    /// The outcome of writing `character` in `color`: a newline takes a new line, any other
    /// character is written (see `spec_single`).
    pub open spec fn spec_write(&self, cells: Seq<VgaChar>, character: char, color: TerminalColor) -> (
        Seq<VgaChar>,
        (usize, usize),
        bool,
    ) {
        if character == '\n' {
            (cells, self.spec_new_line(), true)
        } else {
            self.spec_single(cells, character, color)
        }
    }

    /// Writes `character` in `color` (see `spec_write`).
    pub fn write(&mut self, writer: &mut VgaWriter, character: char, color: TerminalColor) -> (result: Result<
        (),
        TerminalWriteError,
    >)
        requires
            old(self).wf(),
            old(writer).wf(),
        ensures
            final(self).wf(),
            final(writer).wf(),
            final(writer).spec_cursor() == old(writer).spec_cursor(),
            final(writer).spec_color() == old(writer).spec_color(),
            final(self).origin_x == old(self).origin_x,
            final(self).origin_y == old(self).origin_y,
            final(self).width == old(self).width,
            final(self).height == old(self).height,
            final(self).color == old(self).color,
            ({
                let (cells, pointer, written) = old(self).spec_write(old(writer).spec_cells(), character, color);
                &&& final(writer).spec_cells() == cells
                &&& (final(self).pointer_x, final(self).pointer_y) == pointer
                &&& (result is Ok <==> written)
            }),
    {
        if character == '\n' {
            self.new_line()
        } else {
            self.write_single_char(writer, character, color)
        }
    }

    /// Writes `character` in the area's color.
    pub fn write_char(&mut self, writer: &mut VgaWriter, character: char) -> (result: Result<(), TerminalWriteError>)
        requires
            old(self).wf(),
            old(writer).wf(),
        ensures
            final(self).wf(),
            final(writer).wf(),
            final(self).color == old(self).color,
            final(self).origin_x == old(self).origin_x,
            final(self).origin_y == old(self).origin_y,
            final(self).width == old(self).width,
            final(self).height == old(self).height,
            ({
                let (cells, pointer, written) = old(self).spec_write(old(writer).spec_cells(), character, old(self).color);
                &&& final(writer).spec_cells() == cells
                &&& (final(self).pointer_x, final(self).pointer_y) == pointer
                &&& (result is Ok <==> written)
            }),
    {
        let color = self.color;
        self.write(writer, character, color)
    }

    /// The cells, pointer and success of writing `characters` one by one in the area's color,
    /// up to the first that fails.
    pub open spec fn spec_write_all(&self, cells: Seq<VgaChar>, characters: Seq<char>) -> (
        Seq<VgaChar>,
        (usize, usize),
        bool,
    )
        decreases characters.len(),
    {
        if characters.len() == 0 {
            (cells, (self.pointer_x, self.pointer_y), true)
        } else {
            let (before, pointer, written) = self.spec_write_all(cells, characters.drop_last());
            if !written {
                (before, pointer, false)
            } else {
                AreaWriter { pointer_x: pointer.0, pointer_y: pointer.1, ..*self }.spec_write(
                    before,
                    characters.last(),
                    self.color,
                )
            }
        }
    }

    /// Writes `string` in the area's color, stopping at the first character that fails.
    pub fn write_string(&mut self, writer: &mut VgaWriter, string: &str) -> (result: Result<(), TerminalWriteError>)
        requires
            old(self).wf(),
            old(writer).wf(),
        ensures
            final(self).wf(),
            final(writer).wf(),
            final(self).color == old(self).color,
            ({
                let (cells, pointer, written) = old(self).spec_write_all(old(writer).spec_cells(), string@);
                &&& final(writer).spec_cells() == cells
                &&& (final(self).pointer_x, final(self).pointer_y) == pointer
                &&& (result is Ok <==> written)
            }),
    {
        let length = string.unicode_len();
        let mut i: usize = 0;
        while i < length
            invariant
                self.wf(),
                writer.wf(),
                self.origin_x == old(self).origin_x,
                self.origin_y == old(self).origin_y,
                self.width == old(self).width,
                self.height == old(self).height,
                self.color == old(self).color,
                length == string@.len(),
                i <= length,
                ({
                    let (cells, pointer, written) = old(self).spec_write_all(
                        old(writer).spec_cells(),
                        string@.take(i as int),
                    );
                    &&& writer.spec_cells() == cells
                    &&& (self.pointer_x, self.pointer_y) == pointer
                    &&& written
                }),
            decreases length - i,
        {
            proof {
                assert(string@.take(i + 1).drop_last() =~= string@.take(i as int));
            }
            let character = string.get_char(i);
            let ghost before = *self;
            match self.write_char(writer, character) {
                Ok(()) => {},
                Err(e) => {
                    proof {
                        assert(before == AreaWriter {
                            pointer_x: before.pointer_x,
                            pointer_y: before.pointer_y,
                            ..*old(self)
                        });
                        old(self).lemma_write_all_stop(old(writer).spec_cells(), string@, (i + 1) as nat);
                    }
                    return Err(e);
                },
            }
            proof {
                assert(before == AreaWriter {
                    pointer_x: before.pointer_x,
                    pointer_y: before.pointer_y,
                    ..*old(self)
                });
            }
            i = i + 1;
        }
        proof {
            assert(string@.take(i as int) =~= string@);
        }
        Ok(())
    }

    /// Once a write has failed, the characters after change nothing.
    proof fn lemma_write_all_stop(&self, cells: Seq<VgaChar>, characters: Seq<char>, stop: nat)
        requires
            stop <= characters.len(),
            !self.spec_write_all(cells, characters.take(stop as int)).2 || stop == characters.len(),
        ensures
            self.spec_write_all(cells, characters) == self.spec_write_all(cells, characters.take(stop as int)),
        decreases characters.len() - stop,
    {
        if stop == characters.len() {
            assert(characters.take(stop as int) =~= characters);
        } else {
            assert(characters.take((stop + 1) as int).drop_last() =~= characters.take(stop as int));
            self.lemma_write_all_stop(cells, characters, stop + 1);
        }
    }

    /// Backspaces: the pointer moves back one cell (to the end of the row above from the start
    /// of a row) and the writer empties that cell in the area's color. At the origin there is
    /// nothing to do.
    pub fn backspace(&mut self, writer: &mut VgaWriter) -> (result: Result<(), TerminalWriteError>)
        requires
            old(self).wf(),
            old(writer).wf(),
            old(self).pointer_x == old(self).origin_x && old(self).pointer_y > old(self).origin_y
                ==> old(self).origin_x + old(self).width >= 1,
            old(self).pointer_x != old(self).origin_x && old(self).pointer_y > old(self).origin_y
                ==> old(self).pointer_x >= 1,
        ensures
            final(self).wf(),
            final(writer).wf(),
            final(self).color == old(self).color,
            !(old(self).pointer_y > old(self).origin_y || old(self).pointer_x > old(self).origin_x) ==> result
                is Ok && *final(self) == *old(self) && final(writer).spec_cells() == old(writer).spec_cells(),
            old(self).pointer_y > old(self).origin_y || old(self).pointer_x > old(self).origin_x ==> ({
                let (x, y) = if old(self).pointer_x == old(self).origin_x {
                    ((old(self).origin_x + old(self).width - 1) as usize, (old(self).pointer_y - 1) as usize)
                } else {
                    ((old(self).pointer_x - 1) as usize, old(self).pointer_y)
                };
                &&& final(self).pointer_x == x
                &&& final(self).pointer_y == y
                &&& final(writer).spec_cells() == cells_after_set(
                    old(writer).spec_cells(),
                    x as int,
                    y as int,
                    32,
                    old(self).color,
                )
                &&& (result is Ok <==> (x < 80 && y < 25))
            }),
    {
        if self.pointer_y > self.origin_y || self.pointer_x > self.origin_x {
            if self.pointer_x == self.origin_x {
                self.pointer_y = self.pointer_y - 1;
                self.pointer_x = self.origin_x + self.width;
            }
            self.pointer_x = self.pointer_x - 1;
            let color = self.color;
            match writer.set(self.pointer_x, self.pointer_y, 32, color) {
                Ok(()) => {},
                Err(e) => {
                    return Err(e);
                },
            }
        }
        Ok(())
    }
}

} // verus!
