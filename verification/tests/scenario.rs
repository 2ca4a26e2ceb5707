use vga_text::Buffer;
use vga_text::Color;
use vga_text::ColorCode;
use vga_text::Grid;
use vga_text::Writer;
use vga_text::BUFFER_HEIGHT;
use vga_text::BUFFER_WIDTH;
use volatile::Volatile;

fn row_codes(writer: &Writer, row: usize) -> Vec<u8> {
    (0..BUFFER_WIDTH).map(|col| writer.read(row, col).ascii_character).collect()
}

#[test]
fn clear_write_feed_and_wrap() {
    let grid: Grid = core::array::from_fn(|_| core::array::from_fn(|_| Volatile::new([0, 0])));
    let colours = ColorCode::new(Color::Yellow, Color::Black);
    let mut writer = Writer::new(colours, Buffer::new(Box::leak(Box::new(grid))));
    for row in 0..BUFFER_HEIGHT {
        writer.clear_row(row);
    }

    writer.write_string("AB");
    let mut expected = vec![b' '; 80];
    expected[0] = b'A';
    expected[1] = b'B';
    assert_eq!(row_codes(&writer, 24), expected);
    assert_eq!(writer.column_position(), 2);

    writer.write_string("\n");
    assert_eq!(row_codes(&writer, 24), vec![b' '; 80]);
    assert_eq!(row_codes(&writer, 23), expected);
    assert_eq!(writer.column_position(), 0);

    writer.write_string(&"X".repeat(80));
    assert_eq!(row_codes(&writer, 24), vec![b'X'; 80]);
    assert_eq!(row_codes(&writer, 23), expected);
    assert_eq!(row_codes(&writer, 22), vec![b' '; 80]);
    assert_eq!(writer.column_position(), 80);

    writer.write_string("X");
    let mut last = vec![b' '; 80];
    last[0] = b'X';
    assert_eq!(row_codes(&writer, 24), last);
    assert_eq!(row_codes(&writer, 23), vec![b'X'; 80]);
    assert_eq!(row_codes(&writer, 22), expected);
    assert_eq!(row_codes(&writer, 21), vec![b' '; 80]);
    assert_eq!(writer.column_position(), 1);
    for col in 0..BUFFER_WIDTH {
        assert_eq!(writer.read(24, col).color_code, colours);
    }
}
