//! The unit of display memory: one character code with one attribute byte.

use vstd::prelude::*;
use crate::attribute::ColorCode;
use crate::attribute::lemma_attribute_is_its_byte;
use crate::attribute::lemma_byte_is_its_attribute;

verus! {

/// The code that stands in for a byte that has no glyph of its own.
pub const PLACEHOLDER: u8 = 0xfe;

/// The line feed, which starts a new line instead of being drawn.
pub const NEWLINE: u8 = 0x0a;

/// The space that fills a cleared cell.
pub const BLANK: u8 = 0x20;

/// One position of the grid: a character code and the colours it is drawn in.
#[derive(Debug, Clone, Copy, PartialEq, Eq, Structural)]
pub struct ScreenChar {
    pub ascii_character: u8,
    pub color_code: ColorCode,
}

impl ScreenChar {
    /// The cell as display memory holds it: the character code first, the
    /// attribute byte second.
    pub open spec fn spec_to_bytes(self) -> Seq<u8> {
        seq![self.ascii_character, self.color_code@]
    }

    /// The cell that two bytes of display memory stand for.
    pub open spec fn spec_from_bytes(bytes: Seq<u8>) -> ScreenChar {
        ScreenChar {
            ascii_character: bytes[0],
            color_code: ColorCode::spec_from_byte(bytes[1]),
        }
    }

    /// The blank cell in the given colours.
    pub open spec fn spec_blank(color_code: ColorCode) -> ScreenChar {
        ScreenChar { ascii_character: BLANK, color_code }
    }

    /// The blank cell in the given colours.
    #[verifier::when_used_as_spec(spec_blank)]
    pub fn blank(color_code: ColorCode) -> (cell: ScreenChar)
        ensures
            cell == ScreenChar::spec_blank(color_code),
    {
        ScreenChar { ascii_character: BLANK, color_code }
    }

    /// Lays the cell out as its two bytes of display memory.
    pub fn to_bytes(self) -> (bytes: [u8; 2])
        ensures
            bytes@ == self.spec_to_bytes(),
        no_unwind
    {
        let bytes: [u8; 2] = [self.ascii_character, self.color_code.byte()];
        assert(bytes@ =~= self.spec_to_bytes());
        bytes
    }

    /// Reads a cell back from its two bytes of display memory.
    pub fn from_bytes(bytes: [u8; 2]) -> (cell: ScreenChar)
        ensures
            cell == ScreenChar::spec_from_bytes(bytes@),
    {
        ScreenChar { ascii_character: bytes[0], color_code: ColorCode::from_byte(bytes[1]) }
    }
}

/// Laying a cell out and reading it back gives the same cell.
pub proof fn lemma_cell_round_trip(cell: ScreenChar)
    ensures
        ScreenChar::spec_from_bytes(cell.spec_to_bytes()) == cell,
{
    lemma_attribute_is_its_byte(cell.color_code);
}

/// Reading two bytes as a cell and laying the cell out gives the same two
/// bytes: a cell shows all that display memory holds at its position.
pub proof fn lemma_bytes_round_trip(bytes: Seq<u8>)
    requires
        bytes.len() == 2,
    ensures
        ScreenChar::spec_from_bytes(bytes).spec_to_bytes() == bytes,
{
    lemma_byte_is_its_attribute(bytes[1]);
    assert(ScreenChar::spec_from_bytes(bytes).spec_to_bytes() =~= bytes);
}

} // verus!
