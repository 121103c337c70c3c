//! A text area: a rectangle of a screen with its own cursor, color and copy of its characters,
//! written through the screen's writer. Each operation that writes takes the (locked) writer,
//! points it at the area's cursor and color, and puts its cursor and color back afterwards.

use vstd::prelude::*;
use crate::color::{Color, ColorPair};
use crate::terminal::{
    BackspaceUnavailableCause, Point, Resolution, TerminalCharacter, TerminalOutput,
    TerminalOutputError,
};
use crate::vga::{after_new_line, after_write, cell_of, vga_char, VgaChar, VgaWriter};
use vstd::string::StrSliceExecFns;

verus! {

/// A sized terminal text area, between its bottom left and top right corners (both included).
pub struct TextArea {
    pub bottom_left: Point,
    pub top_right: Point,
    pub resolution: Resolution,
    /// The area's characters, line by line.
    pub buffer: Vec<Vec<TerminalCharacter>>,
    /// The area's cursor, in the writer's coordinates.
    pub cursor: Point,
    pub color: ColorPair,
}

/// The writer's cells and cursor after writing `characters` one by one from `cursor`.
pub open spec fn write_all(
    cells: Seq<VgaChar>,
    cursor: Point,
    background: Color,
    characters: Seq<TerminalCharacter>,
) -> (Seq<VgaChar>, Point)
    decreases characters.len(),
{
    if characters.len() == 0 {
        (cells, cursor)
    } else {
        let (written, moved) = write_all(cells, cursor, background, characters.drop_last());
        after_write(written, moved, background, characters.last())
    }
}

/// `count` spaces in `color`.
pub open spec fn spaces(count: nat, color: ColorPair) -> Seq<TerminalCharacter> {
    Seq::new(count, |i: int| TerminalCharacter { character: ' ', color })
}

/// The writer's cells after writing `characters` from `cursor` `times` times over.
pub open spec fn write_repeatedly(
    cells: Seq<VgaChar>,
    cursor: Point,
    background: Color,
    characters: Seq<TerminalCharacter>,
    times: nat,
) -> Seq<VgaChar>
    decreases times,
{
    if times == 0 {
        cells
    } else {
        write_all(
            write_repeatedly(cells, cursor, background, characters, (times - 1) as nat),
            cursor,
            background,
            characters,
        ).0
    }
}

/// The writer's cells after writing the lines one after another: the first from `cursor`, the
/// others each from `line_start`.
pub open spec fn write_lines(
    cells: Seq<VgaChar>,
    cursor: Point,
    line_start: Point,
    background: Color,
    lines: Seq<Seq<TerminalCharacter>>,
) -> Seq<VgaChar>
    decreases lines.len(),
{
    if lines.len() == 0 {
        cells
    } else {
        let start = if lines.len() == 1 {
            cursor
        } else {
            line_start
        };
        write_all(
            write_lines(cells, cursor, line_start, background, lines.drop_last()),
            start,
            background,
            lines.last(),
        ).0
    }
}

/// Writing keeps the cells and the cursor on the screen.
pub proof fn lemma_write_all_on_screen(
    cells: Seq<VgaChar>,
    cursor: Point,
    background: Color,
    characters: Seq<TerminalCharacter>,
)
    requires
        cells.len() == 2000,
        cursor.x < 80,
        cursor.y < 25,
    ensures
        write_all(cells, cursor, background, characters).0.len() == 2000,
        write_all(cells, cursor, background, characters).1.x < 80,
        write_all(cells, cursor, background, characters).1.y < 25,
    decreases characters.len(),
{
    if characters.len() > 0 {
        lemma_write_all_on_screen(cells, cursor, background, characters.drop_last());
    }
}

impl TextArea {
    /// Whether `other` is this area with the same cursor, color and characters.
    pub open spec fn same_as(&self, other: TextArea) -> bool {
        &&& self.bottom_left == other.bottom_left
        &&& self.top_right == other.top_right
        &&& self.resolution == other.resolution
        &&& self.buffer@ == other.buffer@
        &&& self.cursor == other.cursor
        &&& self.color == other.color
    }

    /// The area's lines.
    pub open spec fn lines(&self) -> Seq<Seq<TerminalCharacter>> {
        Seq::new(self.buffer@.len(), |i: int| self.buffer@[i]@)
    }

    /// Whether `point` lies in the area: from its bottom left corner up to, not including, its
    /// top right one.
    pub open spec fn spec_in_bounds(&self, point: Point) -> bool {
        &&& self.bottom_left.x <= point.x < self.top_right.x
        &&& self.bottom_left.y <= point.y < self.top_right.y
    }

    /// Whether the area's copy has a character at `point`.
    pub open spec fn holds(&self, point: Point) -> bool {
        point.y < self.buffer@.len() && point.x < self.buffer@[point.y as int]@.len()
    }

    /// The corners are the origin and the origin moved by the resolution, and the cursor is in
    /// the area.
    pub open spec fn wf(&self) -> bool {
        &&& self.top_right.x == self.bottom_left.x + self.resolution.x
        &&& self.top_right.y == self.bottom_left.y + self.resolution.y
        &&& self.spec_in_bounds(self.cursor)
    }

    /// The lines with the character at `point` replaced.
    pub open spec fn lines_with(&self, point: Point, character: TerminalCharacter) -> Seq<Seq<TerminalCharacter>> {
        self.lines().update(point.y as int, self.lines()[point.y as int].update(point.x as int, character))
    }

    /// An area at `origin` of `size`, with `buffer` as its copy of the characters; its cursor
    /// starts at the origin, writing white on black.
    pub fn new(origin: Point, size: Resolution, buffer: Vec<Vec<TerminalCharacter>>) -> (area: TextArea)
        requires
            origin.x + size.x <= usize::MAX,
            origin.y + size.y <= usize::MAX,
        ensures
            size.x > 0 && size.y > 0 ==> area.wf(),
            area.bottom_left == origin,
            area.top_right == (Point { x: (origin.x + size.x) as usize, y: (origin.y + size.y) as usize }),
            area.resolution == size,
            area.buffer@ == buffer@,
            area.cursor == origin,
            area.color == (ColorPair { foreground: Color::White, background: Color::Black }),
    {
        TextArea {
            bottom_left: origin,
            top_right: Point { x: origin.x + size.x, y: origin.y + size.y },
            resolution: size,
            buffer,
            cursor: origin,
            color: ColorPair::new(Color::White, Color::Black),
        }
    }

    /// Whether the writer supports `color`.
    pub fn color_supported(&self, writer: &VgaWriter, color: Color) -> (supported: bool)
        ensures
            supported,
    {
        writer.color_supported(color)
    }

    pub fn resolution(&self) -> (resolution: Resolution)
        ensures
            resolution == self.resolution,
    {
        self.resolution
    }

    /// Whether `point` lies in the area.
    pub fn in_bounds(&self, point: Point) -> (inside: bool)
        ensures
            inside == self.spec_in_bounds(point),
    {
        point.x >= self.bottom_left.x && point.y >= self.bottom_left.y && point.x < self.top_right.x
            && point.y < self.top_right.y
    }

    /// Moves the cursor to `point` if it lies in the area.
    pub fn set_cursor_pos(&mut self, point: Point) -> (result: Result<(), TerminalOutputError>)
        ensures
            final(self).bottom_left == old(self).bottom_left,
            final(self).top_right == old(self).top_right,
            final(self).resolution == old(self).resolution,
            final(self).buffer@ == old(self).buffer@,
            final(self).color == old(self).color,
            old(self).spec_in_bounds(point) ==> result is Ok && final(self).cursor == point,
            !old(self).spec_in_bounds(point) ==> result == Err::<(), TerminalOutputError>(
                TerminalOutputError::Debug(point, old(self).bottom_left, old(self).top_right),
            ) && final(self).cursor == old(self).cursor,
    {
        if self.in_bounds(point) {
            self.cursor = point;
            Ok(())
        } else {
            Err(TerminalOutputError::Debug(point, self.bottom_left, self.top_right))
        }
    }

    pub fn cursor_pos(&self) -> (cursor: Point)
        ensures
            cursor == self.cursor,
    {
        self.cursor
    }

    pub fn color(&self) -> (color: ColorPair)
        ensures
            color == self.color,
    {
        self.color
    }

    /// Sets the color to write with; the writer supports every color.
    pub fn set_color(&mut self, writer: &VgaWriter, color: ColorPair) -> (result: Result<(), TerminalOutputError>)
        ensures
            result is Ok,
            final(self).color == color,
            final(self).bottom_left == old(self).bottom_left,
            final(self).top_right == old(self).top_right,
            final(self).resolution == old(self).resolution,
            final(self).buffer@ == old(self).buffer@,
            final(self).cursor == old(self).cursor,
    {
        if !self.color_supported(writer, color.background) {
            return Err(TerminalOutputError::SpecificColorUnsupported(color.background));
        }
        if !self.color_supported(writer, color.foreground) {
            return Err(TerminalOutputError::SpecificColorUnsupported(color.foreground));
        }
        self.color = color;
        Ok(())
    }

    /// Sets the character at `point` of the area, in its copy and on the writer.
    pub fn set_char(&mut self, writer: &mut VgaWriter, character: TerminalCharacter, point: Point) -> (result:
        Result<(), TerminalOutputError>)
        requires
            old(writer).wf(),
            old(self).spec_in_bounds(point) ==> old(self).holds(point),
        ensures
            final(writer).wf(),
            final(self).bottom_left == old(self).bottom_left,
            final(self).top_right == old(self).top_right,
            final(self).resolution == old(self).resolution,
            final(self).cursor == old(self).cursor,
            final(self).color == old(self).color,
            final(writer).spec_cursor() == old(writer).spec_cursor(),
            final(writer).spec_color() == old(writer).spec_color(),
            !old(self).spec_in_bounds(point) ==> result == Err::<(), TerminalOutputError>(
                TerminalOutputError::OutOfBounds(point),
            ) && final(self).lines() == old(self).lines() && final(writer).spec_cells() == old(
                writer,
            ).spec_cells(),
            old(self).spec_in_bounds(point) ==> final(self).lines() == old(self).lines_with(point, character)
                && (point.x < 80 && point.y < 25 ==> result is Ok && final(writer).spec_cells()
                == old(writer).spec_cells().update(cell_of(point), vga_char(character))) && (!(point.x
                < 80 && point.y < 25) ==> result is Err && final(writer).spec_cells() == old(
                writer,
            ).spec_cells()),
    {
        if self.in_bounds(point) {
            self.buffer[point.y].set(point.x, character);
            assert(self.lines() =~= old(self).lines_with(point, character));
            writer.set_char(character, point)
        } else {
            Err(TerminalOutputError::OutOfBounds(point))
        }
    }

    /// Where a new line takes the cursor: the start of the line below, unless the cursor is on
    /// the bottom line.
    pub open spec fn spec_new_line_cursor(&self) -> Point {
        self.line_below(self.cursor)
    }

    /// The start of the line below `cursor`, or `cursor` itself on the bottom line.
    pub open spec fn line_below(&self, cursor: Point) -> Point {
        if cursor.y > self.bottom_left.y {
            Point { x: self.bottom_left.x, y: (cursor.y - 1) as usize }
        } else {
            cursor
        }
    }

    /// Moves the cursor to the start of the line below; on the bottom line it stays.
    pub fn new_line(&mut self) -> (result: Result<(), TerminalOutputError>)
        requires
            old(self).wf(),
        ensures
            final(self).wf(),
            result is Ok,
            final(self).cursor == old(self).spec_new_line_cursor(),
            final(self).bottom_left == old(self).bottom_left,
            final(self).top_right == old(self).top_right,
            final(self).resolution == old(self).resolution,
            final(self).buffer@ == old(self).buffer@,
            final(self).color == old(self).color,
    {
        let pos = self.cursor_pos();
        let new_x = self.bottom_left.x;
        if pos.y > self.bottom_left.y {
            match self.set_cursor_pos(Point::new(new_x, pos.y - 1)) {
                Ok(()) => {},
                Err(e) => {
                    return Err(e);
                },
            }
        }
        Ok(())
    }

    /// The outcome of writing `character` through the area onto a writer holding `cells`: the
    /// writer's cells, the area's cursor and the result. The writer writes at the area's
    /// cursor; where its cursor then leaves the area, the area's cursor takes a new line and the
    /// writer's follows, which fails off the screen.
    pub open spec fn spec_write_raw(&self, cells: Seq<VgaChar>, character: TerminalCharacter) -> (
        Seq<VgaChar>,
        Point,
        Result<(), TerminalOutputError>,
    ) {
        let (written, moved) = after_write(cells, self.cursor, self.color.background, character);
        if self.spec_in_bounds(moved) {
            (written, moved, Ok(()))
        } else {
            let next = self.spec_new_line_cursor();
            if next.x < 80 && next.y < 25 {
                (written, next, Ok(()))
            } else {
                (written, next, Err(TerminalOutputError::Debug(moved, self.bottom_left, self.top_right)))
            }
        }
    }

    /// Writes `character` at the area's cursor and keeps a copy of it. On success the writer's
    /// cursor and color are as before; on failure the writer is left at its cursor after the
    /// write, in the area's color.
    pub fn write_raw(&mut self, writer: &mut VgaWriter, character: TerminalCharacter) -> (result: Result<
        (),
        TerminalOutputError,
    >)
        requires
            old(self).wf(),
            old(writer).wf(),
            old(self).cursor.x < 80,
            old(self).cursor.y < 25,
            old(self).holds(old(self).cursor),
        ensures
            final(self).wf(),
            final(writer).wf(),
            final(self).bottom_left == old(self).bottom_left,
            final(self).top_right == old(self).top_right,
            final(self).resolution == old(self).resolution,
            final(self).color == old(self).color,
            final(self).lines() == old(self).lines_with(old(self).cursor, character),
            (final(writer).spec_cells(), final(self).cursor, result) == old(self).spec_write_raw(
                old(writer).spec_cells(),
                character,
            ),
            result is Ok ==> final(writer).spec_cursor() == old(writer).spec_cursor()
                && final(writer).spec_color() == old(writer).spec_color(),
            result is Err ==> final(writer).spec_cursor() == after_write(
                old(writer).spec_cells(),
                old(self).cursor,
                old(self).color.background,
                character,
            ).1 && final(writer).spec_color() == old(self).color,
    {
        let old_writer_cursor = writer.cursor_pos();
        let old_writer_color = writer.color();
        let _ = writer.set_cursor_pos(self.cursor);
        let _ = writer.set_color(self.color);
        let ret: Result<(), TerminalOutputError> = {
            let _ = writer.write_raw(character);
            let cursor = self.cursor;
            self.buffer[cursor.y].set(cursor.x, character);
            assert(self.lines() =~= old(self).lines_with(cursor, character));
            if !self.in_bounds(writer.cursor_pos()) {
                match self.new_line() {
                    Err(e) => Err(e),
                    Ok(()) => match writer.set_cursor_pos(self.cursor) {
                        Ok(()) => Ok(()),
                        Err(e) => Err(e),
                    },
                }
            } else {
                Ok(())
            }
        };
        let written_cursor = writer.cursor_pos();
        match self.set_cursor_pos(written_cursor) {
            Ok(()) => {},
            Err(e) => {
                return Err(e);
            },
        }
        let written_color = writer.color();
        let _ = self.set_color(writer, written_color);
        let _ = writer.set_cursor_pos(old_writer_cursor);
        let _ = writer.set_color(old_writer_color);
        ret
    }

    /// Writes `character` in `color`: a newline takes the area's cursor to a new line, any
    /// other character is written through the writer (see `write_raw`).
    pub fn write_colored(&mut self, writer: &mut VgaWriter, character: char, color: ColorPair) -> (result:
        Result<(), TerminalOutputError>)
        requires
            old(self).wf(),
            old(writer).wf(),
            old(self).cursor.x < 80,
            old(self).cursor.y < 25,
            old(self).holds(old(self).cursor),
        ensures
            final(self).wf(),
            final(writer).wf(),
            final(self).bottom_left == old(self).bottom_left,
            final(self).top_right == old(self).top_right,
            final(self).resolution == old(self).resolution,
            final(self).color == old(self).color,
            character == '\n' ==> result is Ok && final(self).cursor == old(self).spec_new_line_cursor()
                && final(self).buffer@ == old(self).buffer@ && *final(writer) == *old(writer),
            character != '\n' ==> ({
                let written = TerminalCharacter { character, color };
                &&& final(self).lines() == old(self).lines_with(old(self).cursor, written)
                &&& (final(writer).spec_cells(), final(self).cursor, result) == old(self).spec_write_raw(
                    old(writer).spec_cells(),
                    written,
                )
                &&& result is Ok ==> final(writer).spec_cursor() == old(writer).spec_cursor()
                    && final(writer).spec_color() == old(writer).spec_color()
                &&& result is Err ==> final(writer).spec_cursor() == after_write(
                    old(writer).spec_cells(),
                    old(self).cursor,
                    old(self).color.background,
                    written,
                ).1 && final(writer).spec_color() == old(self).color
            }),
    {
        if character == '\n' {
            self.new_line()
        } else {
            self.write_raw(writer, TerminalCharacter { character, color })
        }
    }

    /// Writes `character` in the area's color.
    pub fn write(&mut self, writer: &mut VgaWriter, character: char) -> (result: Result<(), TerminalOutputError>)
        requires
            old(self).wf(),
            old(writer).wf(),
            old(self).cursor.x < 80,
            old(self).cursor.y < 25,
            old(self).holds(old(self).cursor),
        ensures
            final(self).wf(),
            final(writer).wf(),
            final(self).color == old(self).color,
            character == '\n' ==> result is Ok && final(self).cursor == old(self).spec_new_line_cursor()
                && *final(writer) == *old(writer),
            character != '\n' ==> (final(writer).spec_cells(), final(self).cursor, result)
                == old(self).spec_write_raw(
                old(writer).spec_cells(),
                TerminalCharacter { character, color: old(self).color },
            ),
    {
        let color = self.color();
        self.write_colored(writer, character, color)
    }

    /// Writes `string` in the area's color (see `write_string_colored`).
    pub fn write_string(&mut self, writer: &mut VgaWriter, string: &str) -> (result: Result<(), TerminalOutputError>)
        requires
            old(self).wf(),
            old(self).covers(),
            old(writer).wf(),
            old(self).cursor.x < 80,
            old(self).cursor.y < 25,
        ensures
            final(self).wf(),
            final(writer).wf(),
            final(self).color == old(self).color,
            ({
                let (cells, cursor, lines, stopped) = old(self).string_steps(
                    old(writer).spec_cells(),
                    old(self).cursor,
                    old(self).lines(),
                    string@,
                    old(self).color,
                );
                &&& final(writer).spec_cells() == cells
                &&& final(self).cursor == cursor
                &&& final(self).lines() == lines
                &&& stopped is None <==> result is Ok
            }),
    {
        let color = self.color();
        self.write_string_colored(writer, string, color)
    }

    /// Backspaces: the cursor moves back one cell (to the end of the line above from the start
    /// of a line) and the writer empties that cell in the area's color. At the area's origin
    /// there is nothing to backspace.
    pub fn backspace(&mut self, writer: &mut VgaWriter) -> (result: Result<(), TerminalOutputError>)
        requires
            old(self).wf(),
            old(writer).wf(),
            old(self).cursor.x == old(self).bottom_left.x && old(self).cursor.y > old(self).bottom_left.y
                ==> old(self).top_right.x >= 1,
        ensures
            final(writer).wf(),
            final(self).bottom_left == old(self).bottom_left,
            final(self).top_right == old(self).top_right,
            final(self).resolution == old(self).resolution,
            final(self).buffer@ == old(self).buffer@,
            final(self).color == old(self).color,
            final(writer).spec_cursor() == old(writer).spec_cursor(),
            final(writer).spec_color() == old(writer).spec_color(),
            !(old(self).cursor.x > old(self).bottom_left.x || old(self).cursor.y > old(self).bottom_left.y)
                ==> result == Err::<(), TerminalOutputError>(
                TerminalOutputError::BackspaceUnavailable(BackspaceUnavailableCause::TopOfTerminal),
            ) && final(self).cursor == old(self).cursor && final(writer).spec_cells() == old(
                writer,
            ).spec_cells(),
            old(self).cursor.x > old(self).bottom_left.x || old(self).cursor.y > old(self).bottom_left.y
                ==> ({
                let back = if old(self).cursor.x == old(self).bottom_left.x {
                    Point { x: (old(self).top_right.x - 1) as usize, y: (old(self).cursor.y - 1) as usize }
                } else {
                    Point { x: (old(self).cursor.x - 1) as usize, y: old(self).cursor.y }
                };
                let blank = TerminalCharacter { character: ' ', color: old(self).color };
                &&& final(self).cursor == back
                &&& back.x < 80 && back.y < 25 ==> result is Ok && final(writer).spec_cells() == old(
                    writer,
                ).spec_cells().update(cell_of(back), vga_char(blank))
                &&& !(back.x < 80 && back.y < 25) ==> result is Err && final(writer).spec_cells()
                    == old(writer).spec_cells()
            }),
    {
        if self.cursor.x > self.bottom_left.x || self.cursor.y > self.bottom_left.y {
            if self.cursor.x == self.bottom_left.x {
                self.cursor.x = self.top_right.x - 1;
                self.cursor.y = self.cursor.y - 1;
            } else {
                self.cursor.x = self.cursor.x - 1;
            }
            let blank = TerminalCharacter { character: ' ', color: self.color };
            match writer.set_char(blank, self.cursor) {
                Ok(()) => Ok(()),
                Err(e) => Err(e),
            }
        } else {
            Err(TerminalOutputError::BackspaceUnavailable(BackspaceUnavailableCause::TopOfTerminal))
        }
    }

    /// Clears line `y` of the area. The writer, pointed at the area's cursor, writes a space for
    /// each column of the area, from there on.
    pub fn clear_line(&mut self, writer: &mut VgaWriter, y: usize) -> (result: Result<(), TerminalOutputError>)
        requires
            old(self).wf(),
            old(writer).wf(),
            old(self).cursor.x < 80,
            old(self).cursor.y < 25,
        ensures
            final(writer).wf(),
            final(self).same_as(*old(self)),
            final(writer).spec_cursor() == old(writer).spec_cursor(),
            final(writer).spec_color() == old(writer).spec_color(),
            ({
                let start = Point { x: old(self).bottom_left.x, y };
                &&& old(self).spec_in_bounds(start) ==> result is Ok && final(writer).spec_cells()
                    == write_all(
                    old(writer).spec_cells(),
                    old(self).cursor,
                    old(self).color.background,
                    spaces(old(self).resolution.x as nat, old(self).color),
                ).0
                &&& !old(self).spec_in_bounds(start) ==> result == Err::<(), TerminalOutputError>(
                    TerminalOutputError::Debug(start, old(self).bottom_left, old(self).top_right),
                ) && final(writer).spec_cells() == old(writer).spec_cells()
            }),
    {
        let old_writer_cursor = writer.cursor_pos();
        let old_writer_color = writer.color();
        let old_cursor = self.cursor;
        let old_color = self.color;
        let _ = writer.set_cursor_pos(self.cursor);
        let _ = writer.set_color(self.color);
        let ghost cells = writer.spec_cells();
        let ret: Result<(), TerminalOutputError> = match self.set_cursor_pos(
            Point::new(self.bottom_left.x, y),
        ) {
            Err(e) => Err(e),
            Ok(()) => {
                let mut x = self.bottom_left.x;
                while x < self.top_right.x
                    invariant
                        self.bottom_left == old(self).bottom_left,
                        self.top_right == old(self).top_right,
                        self.resolution == old(self).resolution,
                        self.wf(),
                        self.bottom_left.x <= x <= self.top_right.x,
                        self.color == old_color,
                        writer.wf(),
                        writer.spec_color() == old_color,
                        (writer.spec_cells(), writer.spec_cursor()) == write_all(
                            cells,
                            old_cursor,
                            old_color.background,
                            spaces((x - self.bottom_left.x) as nat, old_color),
                        ),
                    decreases self.top_right.x - x,
                {
                    let ghost k = (x - self.bottom_left.x) as nat;
                    assert(spaces(k + 1, old_color).drop_last() =~= spaces(k, old_color));
                    let color = writer.color();
                    let _ = writer.write_colored(' ', color);
                    x = x + 1;
                }
                Ok(())
            },
        };
        let _ = writer.set_cursor_pos(old_writer_cursor);
        let _ = writer.set_color(old_writer_color);
        let _ = self.set_cursor_pos(old_cursor);
        let _ = self.set_color(writer, old_color);
        ret
    }

    /// Clears the area's lines one by one, from its bottom line up to (not including) its top
    /// line; each clear writes from the area's cursor (see `clear_line`).
    pub fn clear(&mut self, writer: &mut VgaWriter) -> (result: Result<(), TerminalOutputError>)
        requires
            old(self).wf(),
            old(writer).wf(),
            old(self).cursor.x < 80,
            old(self).cursor.y < 25,
        ensures
            final(writer).wf(),
            final(self).same_as(*old(self)),
            final(writer).spec_cursor() == old(writer).spec_cursor(),
            final(writer).spec_color() == old(writer).spec_color(),
            result is Ok,
            final(writer).spec_cells() == write_repeatedly(
                old(writer).spec_cells(),
                old(self).cursor,
                old(self).color.background,
                spaces(old(self).resolution.x as nat, old(self).color),
                old(self).resolution.y as nat,
            ),
    {
        let mut y = self.bottom_left.y;
        while y < self.top_right.y
            invariant
                self.same_as(*old(self)),
                self.wf(),
                self.cursor.x < 80,
                self.cursor.y < 25,
                self.bottom_left.y <= y <= self.top_right.y,
                writer.wf(),
                writer.spec_cursor() == old(writer).spec_cursor(),
                writer.spec_color() == old(writer).spec_color(),
                writer.spec_cells() == write_repeatedly(
                    old(writer).spec_cells(),
                    old(self).cursor,
                    old(self).color.background,
                    spaces(old(self).resolution.x as nat, old(self).color),
                    (y - self.bottom_left.y) as nat,
                ),
            decreases self.top_right.y - y,
        {
            match self.clear_line(writer, y) {
                Err(e) => {
                    return Err(e);
                },
                Ok(()) => {},
            }
            y = y + 1;
        }
        Ok(())
    }

    /// Scrolls the area's copy up by `lines` lines: the top line (the one below `top_right`) is
    /// cleared, the cursor goes to the start of the top line, the copy's lines rotate by `lines` (when fewer than the area
    /// has), and lines `0` to `lines` are cleared, which stops at the first line outside the
    /// area. Each clear writes from the area's cursor (see `clear_line`).
    pub fn scroll_down(&mut self, writer: &mut VgaWriter, lines: usize) -> (result: Result<
        (),
        TerminalOutputError,
    >)
        requires
            old(self).wf(),
            old(writer).wf(),
            old(self).cursor.x < 80,
            old(self).cursor.y < 25,
            lines > 0 ==> old(self).bottom_left.x < 80 && old(self).top_right.y <= 25,
            lines < old(self).resolution.y ==> lines <= old(self).buffer@.len(),
        ensures
            final(writer).wf(),
            final(self).wf(),
            final(writer).spec_cursor() == old(writer).spec_cursor(),
            final(writer).spec_color() == old(writer).spec_color(),
            final(self).bottom_left == old(self).bottom_left,
            final(self).top_right == old(self).top_right,
            final(self).resolution == old(self).resolution,
            final(self).color == old(self).color,
            final(self).cursor == (Point { x: old(self).bottom_left.x, y: (old(self).top_right.y - 1) as usize }),
            final(self).lines() == (if lines < old(self).resolution.y {
                old(self).lines().subrange(lines as int, old(self).lines().len() as int) + old(
                    self,
                ).lines().subrange(0, lines as int)
            } else {
                old(self).lines()
            }),
            ({
                let blanks = spaces(old(self).resolution.x as nat, old(self).color);
                let background = old(self).color.background;
                let top_cleared = write_all(old(writer).spec_cells(), old(self).cursor, background, blanks).0;
                let top_start = Point { x: old(self).bottom_left.x, y: (old(self).top_right.y - 1) as usize };
                let cleared: nat = if old(self).bottom_left.y > 0 {
                    0
                } else if lines <= old(self).top_right.y {
                    lines as nat
                } else {
                    old(self).top_right.y as nat
                };
                &&& final(writer).spec_cells() == write_repeatedly(top_cleared, top_start, background, blanks, cleared)
                &&& result == (if lines == 0 || (old(self).bottom_left.y == 0 && lines <= old(self).top_right.y) {
                    Ok::<(), TerminalOutputError>(())
                } else {
                    Err(TerminalOutputError::Debug(
                        Point { x: old(self).bottom_left.x, y: cleared as usize },
                        old(self).bottom_left,
                        old(self).top_right,
                    ))
                })
            }),
    {
        let top_right = self.top_right;
        let bottom_left = self.bottom_left;
        let top = top_right.y - 1;
        match self.clear_line(writer, top) {
            Err(e) => {
                return Err(e);
            },
            Ok(()) => {},
        }
        let _ = self.set_cursor_pos(Point::new(bottom_left.x, top));
        let ghost rolled = self.lines();
        assert(rolled == old(self).lines());
        if lines < self.resolution.y {
            let mut tail = self.buffer.split_off(lines);
            tail.append(&mut self.buffer);
            self.buffer = tail;
            assert(self.lines() =~= rolled.subrange(lines as int, rolled.len() as int) + rolled.subrange(0, lines as int));
        }
        let ghost top_cells = writer.spec_cells();
        let mut line: usize = 0;
        while line < lines
            invariant
                self.wf(),
                self.bottom_left == old(self).bottom_left,
                self.top_right == old(self).top_right,
                self.resolution == old(self).resolution,
                self.color == old(self).color,
                self.cursor == (Point { x: old(self).bottom_left.x, y: (old(self).top_right.y - 1) as usize }),
                self.lines() == (if lines < old(self).resolution.y {
                    rolled.subrange(lines as int, rolled.len() as int) + rolled.subrange(0, lines as int)
                } else {
                    rolled
                }),
                line <= lines,
                rolled == old(self).lines(),
                top_cells == write_all(
                    old(writer).spec_cells(),
                    old(self).cursor,
                    old(self).color.background,
                    spaces(old(self).resolution.x as nat, old(self).color),
                ).0,
                line > 0 ==> self.bottom_left.y == 0 && line <= self.top_right.y,
                lines > 0 ==> self.bottom_left.x < 80 && self.top_right.y <= 25,
                writer.wf(),
                writer.spec_cursor() == old(writer).spec_cursor(),
                writer.spec_color() == old(writer).spec_color(),
                writer.spec_cells() == write_repeatedly(
                    top_cells,
                    Point { x: old(self).bottom_left.x, y: (old(self).top_right.y - 1) as usize },
                    old(self).color.background,
                    spaces(old(self).resolution.x as nat, old(self).color),
                    line as nat,
                ),
            decreases lines - line,
        {
            match self.clear_line(writer, line) {
                Err(e) => {
                    assert(line == 0 ==> self.bottom_left.y > 0);
                    assert(line > 0 ==> line == self.top_right.y);
                    return Err(e);
                },
                Ok(()) => {},
            }
            line = line + 1;
        }
        Ok(())
    }

    /// Repaints the area from its copy: the writer writes the copy's lines, the first from the
    /// area's cursor and each one after from the area's left edge on the line above the cursor.
    pub fn repaint(&mut self, writer: &mut VgaWriter) -> (result: Result<(), TerminalOutputError>)
        requires
            old(self).wf(),
            old(writer).wf(),
            old(self).cursor.x < 80,
            old(self).cursor.y < 25,
            old(self).buffer@.len() > 0 ==> old(self).bottom_left.x < 80 && old(self).cursor.y + 1 < 25,
        ensures
            final(writer).wf(),
            final(self).same_as(*old(self)),
            final(writer).spec_cursor() == old(writer).spec_cursor(),
            final(writer).spec_color() == old(writer).spec_color(),
            result is Ok,
            final(writer).spec_cells() == write_lines(
                old(writer).spec_cells(),
                old(self).cursor,
                Point { x: old(self).bottom_left.x, y: (old(self).cursor.y + 1) as usize },
                old(self).color.background,
                old(self).lines(),
            ),
    {
        let old_writer_cursor = writer.cursor_pos();
        let old_writer_color = writer.color();
        let old_cursor = self.cursor;
        let old_color = self.color;
        let _ = writer.set_cursor_pos(self.cursor);
        let _ = writer.set_color(self.color);
        let ghost cells = writer.spec_cells();
        let line_start = Point::new(self.bottom_left.x, self.cursor.y + 1);
        let background = self.color.background;
        let mut i: usize = 0;
        while i < self.buffer.len()
            invariant
                self.same_as(*old(self)),
                old_color == old(self).color,
                old_cursor == old(self).cursor,
                i <= self.buffer@.len(),
                self.buffer@.len() > 0 ==> line_start.x < 80 && line_start.y < 25,
                line_start == (Point { x: old(self).bottom_left.x, y: (old(self).cursor.y + 1) as usize }),
                background == old(self).color.background,
                writer.wf(),
                writer.spec_color() == old_color,
                writer.spec_cursor() == (if i == 0 {
                    old_cursor
                } else {
                    line_start
                }),
                writer.spec_cells() == write_lines(cells, old_cursor, line_start, background, self.lines().take(i as int)),
            decreases self.buffer@.len() - i,
        {
            let ghost start = writer.spec_cursor();
            let ghost line_cells = writer.spec_cells();
            let mut j: usize = 0;
            while j < self.buffer[i].len()
                invariant
                    self.same_as(*old(self)),
                    i < self.buffer@.len(),
                    j <= self.buffer@[i as int]@.len(),
                    writer.wf(),
                    writer.spec_color() == old_color,
                    background == old_color.background,
                    (writer.spec_cells(), writer.spec_cursor()) == write_all(
                        line_cells,
                        start,
                        background,
                        self.lines()[i as int].take(j as int),
                    ),
                decreases self.buffer@[i as int]@.len() - j,
            {
                assert(self.lines()[i as int].take(j + 1).drop_last() =~= self.lines()[i as int].take(j as int));
                let character = self.buffer[i][j];
                let _ = writer.write_raw(character);
                j = j + 1;
            }
            assert(self.lines()[i as int].take(j as int) =~= self.lines()[i as int]);
            assert(self.lines().take(i + 1).drop_last() =~= self.lines().take(i as int));
            let _ = writer.set_cursor_pos(line_start);
            i = i + 1;
        }
        assert(self.lines().take(i as int) =~= self.lines());
        let _ = writer.set_cursor_pos(old_writer_cursor);
        let _ = writer.set_color(old_writer_color);
        let _ = self.set_cursor_pos(old_cursor);
        let _ = self.set_color(writer, old_color);
        Ok(())
    }

    /// Whether the area's copy has a character for every point of the area, counted from its
    /// bottom left corner.
    pub open spec fn covers(&self) -> bool {
        &&& self.buffer@.len() > self.resolution.y
        &&& forall|y: int| 0 <= y <= self.resolution.y ==> #[trigger] self.buffer@[y]@.len() > self.resolution.x
    }

    /// One character of a string written through the area: the writer writes it (a newline
    /// moves the writer to its next line), the copy keeps it at the cursor's place counted from
    /// the bottom left corner, and the cursor follows the writer, or takes a new line where the
    /// writer left the area. Gives the cells, the cursor, the lines, and where the writer stopped
    /// when it could not follow.
    pub open spec fn string_step(
        &self,
        cells: Seq<VgaChar>,
        cursor: Point,
        lines: Seq<Seq<TerminalCharacter>>,
        character: char,
        color: ColorPair,
    ) -> (Seq<VgaChar>, Point, Seq<Seq<TerminalCharacter>>, Option<Point>) {
        let stored_character = TerminalCharacter { character, color };
        let (written, moved) = if character == '\n' {
            after_new_line(cells, cursor, self.color.background)
        } else {
            after_write(cells, cursor, self.color.background, stored_character)
        };
        let x = cursor.x - self.bottom_left.x;
        let y = cursor.y - self.bottom_left.y;
        let stored = lines.update(y, lines[y].update(x, stored_character));
        if self.spec_in_bounds(moved) {
            (written, moved, stored, None)
        } else {
            let next = self.line_below(cursor);
            if next.x < 80 && next.y < 25 {
                (written, next, stored, None)
            } else {
                (written, next, stored, Some(moved))
            }
        }
    }

    /// The characters of a string written through the area one by one, up to where the writer
    /// could not follow.
    pub open spec fn string_steps(
        &self,
        cells: Seq<VgaChar>,
        cursor: Point,
        lines: Seq<Seq<TerminalCharacter>>,
        characters: Seq<char>,
        color: ColorPair,
    ) -> (Seq<VgaChar>, Point, Seq<Seq<TerminalCharacter>>, Option<Point>)
        decreases characters.len(),
    {
        if characters.len() == 0 {
            (cells, cursor, lines, None)
        } else {
            let before = self.string_steps(cells, cursor, lines, characters.drop_last(), color);
            if before.3 is Some {
                before
            } else {
                self.string_step(before.0, before.1, before.2, characters.last(), color)
            }
        }
    }

    /// Writes `string` in `color` through the area (see `string_steps`). On success the
    /// cursor is where the writer got to and the writer's cursor and color are as before; where
    /// the writer could not follow the area, the result is an error, the writer is left where
    /// it stopped, in the area's color.
    pub fn write_string_colored(&mut self, writer: &mut VgaWriter, string: &str, color: ColorPair) -> (result:
        Result<(), TerminalOutputError>)
        requires
            old(self).wf(),
            old(self).covers(),
            old(writer).wf(),
            old(self).cursor.x < 80,
            old(self).cursor.y < 25,
        ensures
            final(self).wf(),
            final(writer).wf(),
            final(self).bottom_left == old(self).bottom_left,
            final(self).top_right == old(self).top_right,
            final(self).resolution == old(self).resolution,
            final(self).color == old(self).color,
            ({
                let (cells, cursor, lines, stopped) = old(self).string_steps(
                    old(writer).spec_cells(),
                    old(self).cursor,
                    old(self).lines(),
                    string@,
                    color,
                );
                &&& final(writer).spec_cells() == cells
                &&& final(self).cursor == cursor
                &&& final(self).lines() == lines
                &&& stopped is None ==> result is Ok && final(writer).spec_cursor() == old(
                    writer,
                ).spec_cursor() && final(writer).spec_color() == old(writer).spec_color()
                &&& stopped matches Some(at) ==> result == Err::<(), TerminalOutputError>(
                    TerminalOutputError::Debug(at, old(self).bottom_left, old(self).top_right),
                ) && final(writer).spec_cursor() == at && final(writer).spec_color() == old(self).color
            }),
    {
        let old_writer_cursor = writer.cursor_pos();
        let old_writer_color = writer.color();
        let _ = writer.set_cursor_pos(self.cursor);
        let _ = writer.set_color(self.color);
        let ghost start = *self;
        assert(start == *old(self));
        let ghost cells = writer.spec_cells();
        let length = string.unicode_len();
        let mut i: usize = 0;
        let mut stopped = false;
        while i < length && !stopped
            invariant
                self.wf(),
                self.covers(),
                self.bottom_left == start.bottom_left,
                self.top_right == start.top_right,
                self.resolution == start.resolution,
                self.color == start.color,
                start.wf(),
                start.color == old(self).color,
                start.bottom_left == old(self).bottom_left,
                start.top_right == old(self).top_right,
                start.resolution == old(self).resolution,
                start.cursor == old(self).cursor,
                start.lines() == old(self).lines(),
                cells == old(writer).spec_cells(),
                length == string@.len(),
                i <= length,
                writer.wf(),
                writer.spec_color() == start.color,
                ({
                    let (c, p, l, at) = start.string_steps(
                        cells,
                        start.cursor,
                        start.lines(),
                        string@.take(i as int),
                        color,
                    );
                    &&& writer.spec_cells() == c
                    &&& self.cursor == p
                    &&& self.lines() == l
                    &&& stopped == at is Some
                    &&& at is None ==> writer.spec_cursor() == p
                    &&& at matches Some(q) ==> writer.spec_cursor() == q && !start.spec_in_bounds(q)
                }),
            decreases length - i,
        {
            let character = string.get_char(i);
            proof {
                assert(string@.take(i + 1).drop_last() =~= string@.take(i as int));
            }
            let stored_character = TerminalCharacter { character, color };
            let _ = writer.write_colored(character, color);
            let cursor = self.cursor;
            let x = cursor.x - self.bottom_left.x;
            let y = cursor.y - self.bottom_left.y;
            self.buffer[y].set(x, stored_character);
            if !self.in_bounds(writer.cursor_pos()) {
                let _ = self.new_line();
                let next = self.cursor;
                match writer.set_cursor_pos(next) {
                    Ok(()) => {},
                    Err(_) => {
                        stopped = true;
                    },
                }
            } else {
                let moved = writer.cursor_pos();
                let _ = self.set_cursor_pos(moved);
            }
            i = i + 1;
        }
        proof {
            start.lemma_string_steps_stop(cells, start.cursor, start.lines(), string@, color, i as nat);
            assert(string@.take(length as int) =~= string@);
        }
        let written_cursor = writer.cursor_pos();
        match self.set_cursor_pos(written_cursor) {
            Ok(()) => {},
            Err(e) => {
                return Err(e);
            },
        }
        let written_color = writer.color();
        let _ = self.set_color(writer, written_color);
        let _ = writer.set_cursor_pos(old_writer_cursor);
        let _ = writer.set_color(old_writer_color);
        Ok(())
    }

    /// Once the writer could not follow, the rest of the string changes nothing.
    proof fn lemma_string_steps_stop(
        &self,
        cells: Seq<VgaChar>,
        cursor: Point,
        lines: Seq<Seq<TerminalCharacter>>,
        characters: Seq<char>,
        color: ColorPair,
        stop: nat,
    )
        requires
            stop <= characters.len(),
            self.string_steps(cells, cursor, lines, characters.take(stop as int), color).3 is Some
                || stop == characters.len(),
        ensures
            self.string_steps(cells, cursor, lines, characters, color) == self.string_steps(
                cells,
                cursor,
                lines,
                characters.take(stop as int),
                color,
            ),
        decreases characters.len() - stop,
    {
        if stop == characters.len() {
            assert(characters.take(stop as int) =~= characters);
        } else {
            assert(characters.take((stop + 1) as int).drop_last() =~= characters.take(stop as int));
            self.lemma_string_steps_stop(cells, cursor, lines, characters, color, stop + 1);
        }
    }
}

} // verus!
