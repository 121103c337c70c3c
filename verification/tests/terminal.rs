use flower::color::{Color, ColorPair};
use flower::terminal::{
    BackspaceUnavailableCause, Point, Resolution, TerminalCharacter, TerminalColor,
    TerminalOutput, TerminalOutputError, TerminalWriteError, TerminalWriter,
};
use flower::vga::{VgaChar, VgaColor, VgaWriter};

fn cell(writer: &VgaWriter, x: usize, y_from_bottom: usize) -> VgaChar {
    writer.buffer()[(24 - y_from_bottom) * 80 + x]
}

#[test]
fn colors() {
    assert_eq!(Color::Yellow.value(), 14);
    assert_eq!(Color::from_value(14), Some(Color::Yellow));
    assert_eq!(Color::from_value(16), None);
    for value in 0..16u8 {
        assert_eq!(Color::from_value(value).unwrap().value(), value);
    }
    assert_eq!(ColorPair::default(), ColorPair::new(Color::White, Color::Black));
    let vga = VgaColor::new(Color::Yellow, Color::Blue);
    assert_eq!(vga, VgaColor(0x1E));
    assert_eq!(vga.colors(), Some((Color::Blue, Color::Yellow)));
    assert_eq!(VgaColor::from(ColorPair::new(Color::White, Color::Red)), VgaColor(0x4F));
    assert_eq!(TerminalColor::new(Color::Red, Color::Black).foreground, Color::Red);
}

#[test]
fn points_and_resolutions() {
    assert_eq!(Resolution::new(80, 25).center(), Point::new(39, 12));
    assert_eq!(Point::new(1, 2).add(Point::new(3, 4)), Point::new(4, 6));
    let c = TerminalCharacter::new('a', ColorPair::default());
    assert_eq!(c.character, 'a');
}

#[test]
fn writing_wraps_and_scrolls() {
    let mut writer = VgaWriter::new();
    assert_eq!(writer.cursor_pos(), Point::new(0, 24));
    let color = ColorPair::new(Color::Green, Color::Black);
    writer.write_colored('h', color).unwrap();
    assert_eq!(cell(&writer, 0, 24), VgaChar::new(VgaColor::new(Color::Green, Color::Black), b'h'));
    assert_eq!(writer.cursor_pos(), Point::new(1, 24));
    writer.write_colored('\n', color).unwrap();
    assert_eq!(writer.cursor_pos(), Point::new(0, 23));
    writer.set_cursor_pos(Point::new(79, 0)).unwrap();
    writer.write_colored('z', color).unwrap();
    assert_eq!(writer.cursor_pos(), Point::new(0, 0));
    // the line with 'z' moved up by one
    assert_eq!(cell(&writer, 79, 1).character, b'z');
    assert_eq!(cell(&writer, 0, 0).character, b' ');
    // the first line moved up too, out of the top of the screen
    assert_eq!(cell(&writer, 0, 24).character, b' ');
}

#[test]
fn cursor_and_character_bounds() {
    let mut writer = VgaWriter::new();
    assert_eq!(
        writer.set_cursor_pos(Point::new(80, 0)),
        Err(TerminalOutputError::OutOfBounds(Point::new(80, 0)))
    );
    let c = TerminalCharacter::new('x', ColorPair::default());
    assert_eq!(writer.set_char(c, Point::new(0, 25)), Err(TerminalOutputError::OutOfBounds(Point::new(0, 25))));
    assert_eq!(writer.set_char(c, Point::new(80, 3)), Err(TerminalOutputError::OutOfBounds(Point::new(80, 21))));
    assert_eq!(writer.set_char(c, Point::new(5, 3)), Ok(()));
    assert_eq!(cell(&writer, 5, 3).character, b'x');
    assert!(writer.in_bounds(Point::new(79, 24)));
    assert!(!writer.in_bounds(Point::new(79, 25)));
    assert_eq!(writer.resolution(), Resolution::new(80, 25));
    assert!(writer.color_supported(Color::Pink));
}

#[test]
fn clearing_and_scrolling() {
    let mut writer = VgaWriter::new();
    writer.set_color(ColorPair::new(Color::White, Color::Blue)).unwrap();
    assert_eq!(writer.color(), ColorPair::new(Color::White, Color::Blue));
    writer.write_colored('a', ColorPair::default()).unwrap();
    writer.clear_line(0).unwrap();
    assert_eq!(cell(&writer, 0, 24), VgaChar::new(VgaColor::new(Color::Black, Color::Blue), b' '));
    assert_eq!(writer.clear_line(25), Err(TerminalOutputError::OutOfBounds(Point::new(0, 25))));
    writer.set_char(TerminalCharacter::new('q', ColorPair::default()), Point::new(3, 0)).unwrap();
    writer.scroll_down(2).unwrap();
    assert_eq!(cell(&writer, 3, 2).character, b'q');
    assert_eq!(cell(&writer, 3, 0), VgaChar::new(VgaColor::new(Color::Black, Color::Blue), b' '));
    writer.scroll_down(100).unwrap();
    assert_eq!(cell(&writer, 3, 2).character, b' ');
    writer.clear().unwrap();
    assert!(writer.buffer().iter().all(|c| *c == VgaChar::new(VgaColor::new(Color::Black, Color::Blue), b' ')));
}

#[test]
fn backspace_moves_back_and_blanks() {
    let mut writer = VgaWriter::new();
    writer.set_cursor_pos(Point::new(0, 0)).unwrap();
    assert_eq!(
        writer.backspace(),
        Err(TerminalOutputError::BackspaceUnavailable(BackspaceUnavailableCause::TopOfTerminal))
    );
    writer.set_cursor_pos(Point::new(3, 10)).unwrap();
    writer.write_colored('k', ColorPair::default()).unwrap();
    writer.backspace().unwrap();
    assert_eq!(writer.cursor_pos(), Point::new(3, 10));
    assert_eq!(cell(&writer, 3, 10), VgaChar::new(VgaColor::new(Color::Black, Color::Black), b' '));
    writer.set_cursor_pos(Point::new(0, 10)).unwrap();
    writer.backspace().unwrap();
    assert_eq!(writer.cursor_pos(), Point::new(79, 11));
    writer.set_cursor_pos(Point::new(0, 24)).unwrap();
    assert_eq!(writer.backspace(), Err(TerminalOutputError::OutOfBounds(Point::new(79, 25))));
}

#[test]
fn writer_cells_by_row_and_column() {
    let mut writer = VgaWriter::new();
    let color = TerminalColor::new(Color::Red, Color::White);
    assert_eq!(writer.set(2, 1, b'r', color), Ok(()));
    assert_eq!(writer.buffer()[82], VgaChar::new(VgaColor::new(Color::Red, Color::White), b'r'));
    assert_eq!(
        writer.set(80, 1, b'r', color),
        Err(TerminalWriteError::TerminalOutputError(TerminalOutputError::OutOfBounds(Point::new(80, 1))))
    );
}
