//! The built-in hexadecimal font.

use vstd::prelude::*;

verus! {

/// Number of bytes in the font table: sixteen glyphs of five rows each.
pub const FONTSET_SIZE: usize = 80;

/// Number of rows (bytes) in one glyph.
pub const GLYPH_ROWS: u16 = 5;

/// Row bitmaps of the glyphs `0` to `F`; the high nibble of each byte holds
/// the four pixels of a row.
pub const FONTSET: [u8; 80] = [
    0xF0, 0x90, 0x90, 0x90, 0xF0,
    0x20, 0x60, 0x20, 0x20, 0x70,
    0xF0, 0x10, 0xF0, 0x80, 0xF0,
    0xF0, 0x10, 0xF0, 0x10, 0xF0,
    0x90, 0x90, 0xF0, 0x10, 0x10,
    0xF0, 0x80, 0xF0, 0x10, 0xF0,
    0xF0, 0x80, 0xF0, 0x90, 0xF0,
    0xF0, 0x10, 0x20, 0x40, 0x40,
    0xF0, 0x90, 0xF0, 0x90, 0xF0,
    0xF0, 0x90, 0xF0, 0x10, 0xF0,
    0xF0, 0x90, 0xF0, 0x90, 0x90,
    0xE0, 0x90, 0xE0, 0x90, 0xE0,
    0xF0, 0x80, 0x80, 0x80, 0xF0,
    0xE0, 0x90, 0x90, 0x90, 0xE0,
    0xF0, 0x80, 0xF0, 0x80, 0xF0,
    0xF0, 0x80, 0xF0, 0x80, 0x80,
];

/// The font table as a sequence of bytes.
pub open spec fn font_bytes() -> Seq<u8> {
    FONTSET@
}

} // verus!
