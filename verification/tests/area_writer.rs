use flower::area_writer::AreaWriter;
use flower::color::Color;
use flower::terminal::TerminalColor;
use flower::vga::VgaWriter;

fn at(writer: &VgaWriter, column: usize, row: usize) -> u8 {
    writer.buffer()[row * 80 + column].character
}

#[test]
fn area_writer_writes_cell_by_cell() {
    let mut writer = VgaWriter::new();
    let mut area = AreaWriter::new(0, 0, 80, 25);
    assert_eq!((area.pointer_x, area.pointer_y), (0, 0));
    assert!(area.write_char(&mut writer, 'a').is_ok());
    assert_eq!(at(&writer, 0, 0), b'a');
    assert_eq!((area.pointer_x, area.pointer_y), (1, 0));
    assert!(area.write_char(&mut writer, '\n').is_ok());
    assert_eq!((area.pointer_x, area.pointer_y), (0, 1));
    assert!(area.write_string(&mut writer, "hi").is_ok());
    assert_eq!(at(&writer, 0, 1), b'h');
    assert_eq!(at(&writer, 1, 1), b'i');
}

#[test]
fn area_writer_wraps_before_the_right_edge() {
    let mut writer = VgaWriter::new();
    let mut area = AreaWriter::new(10, 5, 3, 2);
    area.set_color(TerminalColor::new(Color::Red, Color::Blue));
    assert!(area.write_string(&mut writer, "xyz").is_ok());
    assert_eq!(at(&writer, 10, 5), b'x');
    assert_eq!(at(&writer, 11, 5), b'y');
    assert_eq!(at(&writer, 10, 6), b'z');
    assert_eq!((area.pointer_x, area.pointer_y), (11, 6));
    assert_eq!(writer.buffer()[6 * 80 + 10].color.0, 0x14);
}

#[test]
fn area_writer_backspace() {
    let mut writer = VgaWriter::new();
    let mut area = AreaWriter::new(0, 0, 4, 3);
    assert!(area.backspace(&mut writer).is_ok());
    assert_eq!((area.pointer_x, area.pointer_y), (0, 0));
    assert!(area.write_string(&mut writer, "ab\nc").is_ok());
    assert_eq!((area.pointer_x, area.pointer_y), (1, 1));
    assert!(area.backspace(&mut writer).is_ok());
    assert_eq!(at(&writer, 0, 1), b' ');
    assert_eq!((area.pointer_x, area.pointer_y), (0, 1));
    assert!(area.backspace(&mut writer).is_ok());
    assert_eq!((area.pointer_x, area.pointer_y), (3, 0));
}

#[test]
fn area_writer_fails_off_the_screen() {
    let mut writer = VgaWriter::new();
    let mut area = AreaWriter::new(79, 0, 5, 1);
    assert!(area.write_char(&mut writer, 'q').is_ok());
    assert!(area.write_char(&mut writer, 'r').is_err());
    assert_eq!((area.pointer_x, area.pointer_y), (80, 0));
}
