use flower::color::{Color, ColorPair};
use flower::terminal::{BackspaceUnavailableCause, Point, Resolution, TerminalCharacter, TerminalOutput, TerminalOutputError};
use flower::text_area::TextArea;
use flower::vga::{VgaChar, VgaColor, VgaWriter};

fn white() -> ColorPair {
    ColorPair::new(Color::White, Color::Black)
}

fn blank() -> TerminalCharacter {
    TerminalCharacter::new(' ', white())
}

fn area(origin: Point) -> TextArea {
    TextArea::new(origin, Resolution::new(10, 5), vec![vec![blank(); 11]; 6])
}

fn cell(writer: &VgaWriter, x: usize, y_from_bottom: usize) -> VgaChar {
    writer.buffer()[(24 - y_from_bottom) * 80 + x]
}

#[test]
fn area_bounds_stop_before_the_top_right_corner() {
    let mut area = area(Point::new(0, 0));
    assert_eq!(area.top_right, Point::new(10, 5));
    assert_eq!(area.cursor_pos(), Point::new(0, 0));
    assert_eq!(area.color(), white());
    assert_eq!(area.resolution(), Resolution::new(10, 5));
    assert!(area.in_bounds(Point::new(9, 4)));
    assert!(!area.in_bounds(Point::new(10, 5)));
    assert!(!area.in_bounds(Point::new(10, 0)));
    assert!(!area.in_bounds(Point::new(0, 5)));
    assert!(!area.in_bounds(Point::new(11, 0)));
    assert_eq!(area.set_cursor_pos(Point::new(3, 2)), Ok(()));
    assert_eq!(area.cursor_pos(), Point::new(3, 2));
    assert_eq!(
        area.set_cursor_pos(Point::new(11, 0)),
        Err(TerminalOutputError::Debug(Point::new(11, 0), Point::new(0, 0), Point::new(10, 5)))
    );
    let writer = VgaWriter::new();
    assert!(area.color_supported(&writer, Color::Pink));
    assert_eq!(area.set_color(&writer, ColorPair::new(Color::Red, Color::Blue)), Ok(()));
    assert_eq!(area.color(), ColorPair::new(Color::Red, Color::Blue));
}

#[test]
fn area_set_char_keeps_a_copy() {
    let mut area = area(Point::new(0, 0));
    let mut writer = VgaWriter::new();
    let x = TerminalCharacter::new('x', white());
    assert_eq!(area.set_char(&mut writer, x, Point::new(2, 1)), Ok(()));
    assert_eq!(area.buffer[1][2], x);
    assert_eq!(cell(&writer, 2, 1).character, b'x');
    assert_eq!(area.set_char(&mut writer, x, Point::new(12, 1)), Err(TerminalOutputError::OutOfBounds(Point::new(12, 1))));
}

#[test]
fn area_write_raw_moves_its_cursor_and_restores_the_writer() {
    let mut area = area(Point::new(0, 0));
    let mut writer = VgaWriter::new();
    let a = TerminalCharacter::new('a', white());
    assert_eq!(area.write_raw(&mut writer, a), Ok(()));
    assert_eq!(cell(&writer, 0, 0).character, b'a');
    assert_eq!(area.cursor_pos(), Point::new(1, 0));
    assert_eq!(area.buffer[0][0], a);
    assert_eq!(writer.cursor_pos(), Point::new(0, 24));
    // Past the right edge on the bottom line, the cursor stays put.
    area.set_cursor_pos(Point::new(9, 0)).unwrap();
    assert_eq!(area.write_raw(&mut writer, a), Ok(()));
    assert_eq!(area.cursor_pos(), Point::new(9, 0));
}

#[test]
fn area_write_raw_takes_a_new_line_at_the_edge() {
    let mut area = area(Point::new(0, 2));
    let mut writer = VgaWriter::new();
    area.set_cursor_pos(Point::new(9, 3)).unwrap();
    assert_eq!(area.write_raw(&mut writer, blank()), Ok(()));
    assert_eq!(area.cursor_pos(), Point::new(0, 2));
    assert_eq!(area.write(&mut writer, '\n'), Ok(()));
    assert_eq!(area.cursor_pos(), Point::new(0, 2));
}

#[test]
fn area_backspace() {
    let mut area = area(Point::new(0, 0));
    let mut writer = VgaWriter::new();
    assert_eq!(
        area.backspace(&mut writer),
        Err(TerminalOutputError::BackspaceUnavailable(BackspaceUnavailableCause::TopOfTerminal))
    );
    area.set_cursor_pos(Point::new(3, 0)).unwrap();
    writer.set_char(TerminalCharacter::new('z', white()), Point::new(2, 0)).unwrap();
    assert_eq!(area.backspace(&mut writer), Ok(()));
    assert_eq!(area.cursor_pos(), Point::new(2, 0));
    assert_eq!(cell(&writer, 2, 0), VgaChar { character: b' ', color: VgaColor::new(Color::White, Color::Black) });
    // From the start of a line it goes to the end of the line below.
    area.set_cursor_pos(Point::new(0, 2)).unwrap();
    assert_eq!(area.backspace(&mut writer), Ok(()));
    assert_eq!(area.cursor_pos(), Point::new(9, 1));
}

#[test]
fn area_strings_are_copied_relative_to_the_corner() {
    let mut area = area(Point::new(2, 1));
    let mut writer = VgaWriter::new();
    area.set_cursor_pos(Point::new(3, 1)).unwrap();
    assert_eq!(area.write_string(&mut writer, "ab"), Ok(()));
    assert_eq!(cell(&writer, 3, 1).character, b'a');
    assert_eq!(cell(&writer, 4, 1).character, b'b');
    assert_eq!(area.cursor_pos(), Point::new(5, 1));
    assert_eq!(area.buffer[0][1].character, 'a');
    assert_eq!(area.buffer[0][2].character, 'b');
    assert_eq!(writer.cursor_pos(), Point::new(0, 24));
}

#[test]
fn area_clearing() {
    let mut area = area(Point::new(0, 0));
    let mut writer = VgaWriter::new();
    assert_eq!(
        area.clear_line(&mut writer, 7),
        Err(TerminalOutputError::Debug(Point::new(0, 7), Point::new(0, 0), Point::new(10, 5)))
    );
    writer.set_char(TerminalCharacter::new('q', ColorPair::new(Color::Red, Color::Red)), Point::new(4, 0)).unwrap();
    assert_eq!(area.clear_line(&mut writer, 2), Ok(()));
    // The spaces go from the area's cursor.
    assert_eq!(cell(&writer, 4, 0).character, b' ');
    assert_eq!(area.cursor_pos(), Point::new(0, 0));
    assert_eq!(area.clear(&mut writer), Ok(()));
    assert_eq!(area.scroll_down(&mut writer, 0), Ok(()));
    assert_eq!(area.cursor_pos(), Point::new(0, 4));
    assert_eq!(area.scroll_down(&mut writer, 2), Ok(()));
    assert_eq!(area.scroll_down(&mut writer, 5), Ok(()));
    assert_eq!(area.scroll_down(&mut writer, 7), Err(TerminalOutputError::Debug(Point::new(0, 5), Point::new(0, 0), Point::new(10, 5))));
}

#[test]
fn area_repaint_writes_its_copy() {
    let buffer = vec![vec![TerminalCharacter::new('r', white()); 2], vec![TerminalCharacter::new('s', white()); 1]];
    let mut area = TextArea::new(Point::new(0, 0), Resolution::new(10, 5), buffer);
    let mut writer = VgaWriter::new();
    assert_eq!(area.repaint(&mut writer), Ok(()));
    assert_eq!(cell(&writer, 0, 0).character, b'r');
    assert_eq!(cell(&writer, 1, 0).character, b'r');
    assert_eq!(cell(&writer, 0, 1).character, b's');
    assert_eq!(writer.cursor_pos(), Point::new(0, 24));
}
