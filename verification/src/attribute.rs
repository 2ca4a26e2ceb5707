//! Colours and the attribute byte that pairs a foreground with a background.

use vstd::prelude::*;

verus! {

/// The sixteen colours of the text-mode palette.
#[derive(Debug, Clone, Copy, PartialEq, Eq, Structural)]
pub enum Color {
    Black,
    Blue,
    Green,
    Cyan,
    Red,
    Magenta,
    Brown,
    LightGray,
    DarkGray,
    LightBlue,
    LightGreen,
    LightCyan,
    LightRed,
    LightMagenta,
    Yellow,
    White,
}

impl Color {
    /// The four-bit hardware code of the colour.
    pub open spec fn spec_code(self) -> u8 {
        match self {
            Color::Black => 0,
            Color::Blue => 1,
            Color::Green => 2,
            Color::Cyan => 3,
            Color::Red => 4,
            Color::Magenta => 5,
            Color::Brown => 6,
            Color::LightGray => 7,
            Color::DarkGray => 8,
            Color::LightBlue => 9,
            Color::LightGreen => 10,
            Color::LightCyan => 11,
            Color::LightRed => 12,
            Color::LightMagenta => 13,
            Color::Yellow => 14,
            Color::White => 15,
        }
    }

    /// The four-bit hardware code of the colour.
    #[verifier::when_used_as_spec(spec_code)]
    pub fn code(self) -> (code: u8)
        ensures
            code == self.spec_code(),
            code < 16,
    {
        match self {
            Color::Black => 0,
            Color::Blue => 1,
            Color::Green => 2,
            Color::Cyan => 3,
            Color::Red => 4,
            Color::Magenta => 5,
            Color::Brown => 6,
            Color::LightGray => 7,
            Color::DarkGray => 8,
            Color::LightBlue => 9,
            Color::LightGreen => 10,
            Color::LightCyan => 11,
            Color::LightRed => 12,
            Color::LightMagenta => 13,
            Color::Yellow => 14,
            Color::White => 15,
        }
    }
}

/// The attribute byte of a cell: background in bits 4-7, foreground in bits 0-3.
#[derive(Debug, Clone, Copy, PartialEq, Eq, Structural)]
pub struct ColorCode(u8);

/// The attribute byte for a pair of four-bit colour codes.
pub open spec fn pack(foreground: u8, background: u8) -> u8 {
    (background << 4) | foreground
}

impl View for ColorCode {
    type V = u8;

    closed spec fn view(&self) -> u8 {
        self.0
    }
}

impl ColorCode {
    /// The attribute that a byte of display memory stands for.
    pub closed spec fn spec_from_byte(byte: u8) -> ColorCode {
        ColorCode(byte)
    }

    /// Packs a foreground and a background colour into one attribute byte.
    pub fn new(foreground: Color, background: Color) -> (attribute: ColorCode)
        ensures
            attribute@ == pack(foreground.spec_code(), background.spec_code()),
    {
        ColorCode((background.code() << 4) | foreground.code())
    }

    /// The attribute that a byte of display memory stands for.
    #[verifier::when_used_as_spec(spec_from_byte)]
    pub(crate) fn from_byte(byte: u8) -> (attribute: ColorCode)
        ensures
            attribute == ColorCode::spec_from_byte(byte),
            attribute@ == byte,
    {
        ColorCode(byte)
    }

    /// The attribute as the byte that display memory holds.
    pub fn byte(self) -> (byte: u8)
        ensures
            byte == self@,
        no_unwind
    {
        self.0
    }
}

/// An attribute is its byte and nothing more: read back from its own byte,
/// it is itself.
pub proof fn lemma_attribute_is_its_byte(attribute: ColorCode)
    ensures
        ColorCode::spec_from_byte(attribute@) == attribute,
{
}

/// Every byte is an attribute: the byte of the attribute read from a byte is
/// that byte.
pub proof fn lemma_byte_is_its_attribute(byte: u8)
    ensures
        ColorCode::spec_from_byte(byte)@ == byte,
{
}

/// The two halves of an attribute byte give back the colours it was packed
/// from: the low four bits are the foreground code, the high four bits the
/// background code.
pub proof fn lemma_pack_unpacks(foreground: Color, background: Color)
    ensures
        pack(foreground.spec_code(), background.spec_code()) & 0x0f == foreground.spec_code(),
        pack(foreground.spec_code(), background.spec_code()) >> 4 == background.spec_code(),
        pack(foreground.spec_code(), background.spec_code()) == background.spec_code() * 16
            + foreground.spec_code(),
{
    let f = foreground.spec_code();
    let b = background.spec_code();
    assert(f < 16 && b < 16);
    assert(((b << 4) | f) & 0x0f == f) by (bit_vector)
        requires
            f < 16,
            b < 16,
    ;
    assert(((b << 4) | f) >> 4 == b) by (bit_vector)
        requires
            f < 16,
            b < 16,
    ;
    assert(((b << 4) | f) == b * 16 + f) by (bit_vector)
        requires
            f < 16,
            b < 16,
    ;
}

} // verus!
