use vga_text::cell::BLANK;
use vga_text::cell::NEWLINE;
use vga_text::cell::PLACEHOLDER;
use vga_text::Color;
use vga_text::ColorCode;
use vga_text::QemuExitCode;
use vga_text::ScreenChar;

const PALETTE: [Color; 16] = [
    Color::Black,
    Color::Blue,
    Color::Green,
    Color::Cyan,
    Color::Red,
    Color::Magenta,
    Color::Brown,
    Color::LightGray,
    Color::DarkGray,
    Color::LightBlue,
    Color::LightGreen,
    Color::LightCyan,
    Color::LightRed,
    Color::LightMagenta,
    Color::Yellow,
    Color::White,
];

#[test]
fn color_codes_count_up_from_black() {
    for (index, color) in PALETTE.iter().enumerate() {
        assert_eq!(color.code() as usize, index);
    }
}

#[test]
fn color_codes_fit_in_four_bits() {
    for color in PALETTE.iter() {
        assert!(color.code() < 16);
    }
}

#[test]
fn yellow_on_black_is_0x0e() {
    assert_eq!(ColorCode::new(Color::Yellow, Color::Black).byte(), 0x0e);
}

#[test]
fn white_on_blue_is_0x1f() {
    assert_eq!(ColorCode::new(Color::White, Color::Blue).byte(), 0x1f);
}

#[test]
fn black_on_white_is_0xf0() {
    assert_eq!(ColorCode::new(Color::Black, Color::White).byte(), 0xf0);
}

#[test]
fn light_red_on_dark_gray_is_0x8c() {
    assert_eq!(ColorCode::new(Color::LightRed, Color::DarkGray).byte(), 0x8c);
}

#[test]
fn attribute_byte_is_background_high_foreground_low() {
    for foreground in PALETTE.iter() {
        for background in PALETTE.iter() {
            let byte = ColorCode::new(*foreground, *background).byte();
            assert_eq!(byte & 0x0f, foreground.code());
            assert_eq!(byte >> 4, background.code());
            assert_eq!(byte, background.code() * 16 + foreground.code());
        }
    }
}

#[test]
fn every_attribute_byte_comes_from_one_pair() {
    let mut seen = [false; 256];
    for foreground in PALETTE.iter() {
        for background in PALETTE.iter() {
            let byte = ColorCode::new(*foreground, *background).byte();
            assert!(!seen[byte as usize]);
            seen[byte as usize] = true;
        }
    }
    assert!(seen.iter().all(|hit| *hit));
}

#[test]
fn attributes_compare_by_their_byte() {
    assert_eq!(
        ColorCode::new(Color::Green, Color::Red),
        ColorCode::new(Color::Green, Color::Red)
    );
    assert_ne!(
        ColorCode::new(Color::Green, Color::Red),
        ColorCode::new(Color::Red, Color::Green)
    );
}

#[test]
fn named_codes() {
    assert_eq!(BLANK, b' ');
    assert_eq!(NEWLINE, b'\n');
    assert_eq!(PLACEHOLDER, 0xfe);
}

#[test]
fn cell_is_laid_out_code_first() {
    let cell = ScreenChar {
        ascii_character: b'A',
        color_code: ColorCode::new(Color::Yellow, Color::Black),
    };
    assert_eq!(cell.to_bytes(), [0x41, 0x0e]);
}

#[test]
fn cell_is_read_back_code_first() {
    let cell = ScreenChar::from_bytes([0x7e, 0x1f]);
    assert_eq!(cell.ascii_character, b'~');
    assert_eq!(cell.color_code, ColorCode::new(Color::White, Color::Blue));
}

#[test]
fn cell_round_trips_through_its_bytes() {
    for code in [0u8, 0x20, 0x41, 0x7e, 0xfe, 0xff] {
        for foreground in PALETTE.iter() {
            let cell = ScreenChar {
                ascii_character: code,
                color_code: ColorCode::new(*foreground, Color::Cyan),
            };
            assert_eq!(ScreenChar::from_bytes(cell.to_bytes()), cell);
        }
    }
}

#[test]
fn bytes_round_trip_through_a_cell() {
    for first in [0u8, 0x20, 0x80, 0xff] {
        for second in [0u8, 0x0e, 0x8c, 0xff] {
            assert_eq!(ScreenChar::from_bytes([first, second]).to_bytes(), [first, second]);
        }
    }
}

#[test]
fn blank_cell_is_a_space_in_the_given_colours() {
    let colours = ColorCode::new(Color::LightGray, Color::Blue);
    let cell = ScreenChar::blank(colours);
    assert_eq!(cell.ascii_character, 0x20);
    assert_eq!(cell.color_code, colours);
    assert_eq!(cell.to_bytes(), [0x20, 0x17]);
}

#[test]
fn exit_codes() {
    assert_eq!(QemuExitCode::Success.code(), 0x10);
    assert_eq!(QemuExitCode::Failed.code(), 0x11);
}

#[test]
fn exit_codes_differ() {
    assert_ne!(QemuExitCode::Success, QemuExitCode::Failed);
    assert_ne!(QemuExitCode::Success.code(), QemuExitCode::Failed.code());
}
