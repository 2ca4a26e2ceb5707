use vga_text::Buffer;
use vga_text::Color;
use vga_text::ColorCode;
use vga_text::Grid;
use vga_text::ScreenChar;
use vga_text::BUFFER_HEIGHT;
use vga_text::BUFFER_WIDTH;
use vga_text::VGA_TEXT_BUFFER;
use volatile::Volatile;

fn grid_of(bytes: [u8; 2]) -> &'static mut Grid {
    let grid: Grid = core::array::from_fn(|_| core::array::from_fn(|_| Volatile::new(bytes)));
    Box::leak(Box::new(grid))
}

fn cell(code: u8) -> ScreenChar {
    ScreenChar { ascii_character: code, color_code: ColorCode::new(Color::Yellow, Color::Black) }
}

#[test]
fn text_buffer_is_mapped_at_0xb8000() {
    assert_eq!(VGA_TEXT_BUFFER, 0xb8000);
}

#[test]
fn grid_has_the_size_of_display_memory() {
    assert_eq!(BUFFER_HEIGHT, 25);
    assert_eq!(BUFFER_WIDTH, 80);
    assert_eq!(core::mem::size_of::<Grid>(), 80 * 25 * 2);
    assert_eq!(core::mem::align_of::<Grid>(), 1);
}

#[test]
fn buffer_shows_what_the_grid_holds() {
    let grid = grid_of([0x2e, 0x07]);
    grid[3][5].write([0x51, 0x4f]);
    let buffer = Buffer::new(grid);
    let dot = ScreenChar {
        ascii_character: b'.',
        color_code: ColorCode::new(Color::LightGray, Color::Black),
    };
    assert_eq!(buffer.read(0, 0), dot);
    assert_eq!(buffer.read(24, 79), dot);
    assert_eq!(
        buffer.read(3, 5),
        ScreenChar { ascii_character: b'Q', color_code: ColorCode::new(Color::White, Color::Red) }
    );
}

#[test]
fn read_returns_what_was_written() {
    let mut buffer = Buffer::new(grid_of([0, 0]));
    buffer.write(7, 11, cell(b'x'));
    assert_eq!(buffer.read(7, 11), cell(b'x'));
    buffer.write(7, 11, cell(b'y'));
    assert_eq!(buffer.read(7, 11), cell(b'y'));
}

#[test]
fn write_changes_one_cell_only() {
    let mut buffer = Buffer::new(grid_of([0x20, 0x0e]));
    buffer.write(12, 40, cell(b'#'));
    for row in 0..BUFFER_HEIGHT {
        for col in 0..BUFFER_WIDTH {
            let expected = if row == 12 && col == 40 { cell(b'#') } else { cell(b' ') };
            assert_eq!(buffer.read(row, col), expected);
        }
    }
}

#[test]
fn corners_can_be_written_and_read() {
    let mut buffer = Buffer::new(grid_of([0, 0]));
    buffer.write(0, 0, cell(b'a'));
    buffer.write(0, 79, cell(b'b'));
    buffer.write(24, 0, cell(b'c'));
    buffer.write(24, 79, cell(b'd'));
    assert_eq!(buffer.read(0, 0), cell(b'a'));
    assert_eq!(buffer.read(0, 79), cell(b'b'));
    assert_eq!(buffer.read(24, 0), cell(b'c'));
    assert_eq!(buffer.read(24, 79), cell(b'd'));
}

#[test]
fn read_does_not_change_the_cell() {
    let mut buffer = Buffer::new(grid_of([0, 0]));
    buffer.write(1, 1, cell(b'k'));
    assert_eq!(buffer.read(1, 1), cell(b'k'));
    assert_eq!(buffer.read(1, 1), cell(b'k'));
}
