//! A text-mode display driver: ASCII text rendered onto the 80x25 character
//! grid of a VGA-compatible adapter, with line wrapping, scrolling and colour
//! attributes.

pub mod attribute;
pub mod buffer;
pub mod cell;
pub mod exit;
pub mod laws;
pub mod model;
pub mod writer;

pub use attribute::Color;
pub use attribute::ColorCode;
pub use buffer::Buffer;
pub use buffer::Grid;
pub use buffer::BUFFER_HEIGHT;
pub use buffer::BUFFER_WIDTH;
pub use buffer::VGA_TEXT_BUFFER;
pub use cell::ScreenChar;
pub use exit::QemuExitCode;
pub use writer::Writer;
pub use writer::_print;
