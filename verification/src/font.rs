//! The machine's dimensions and the built-in hexadecimal font.

use vstd::prelude::*;

verus! {

/// Number of addressable bytes.
pub const MEMORY_SIZE: usize = 4096;

/// Where a loaded program begins, and where the program counter starts.
pub const PROGRAM_START: usize = 512;

/// Where the first font glyph lies.
pub const FONTSET_START: usize = 80;

/// Bytes in one glyph: five rows of four pixels, in the high nibble of each byte.
pub const GLYPH_SIZE: usize = 5;

/// The glyphs of the digits `0` to `F`, five bytes each.
pub const FONTSET: [u8; 80] = [
    0xF0, 0x90, 0x90, 0x90, 0xF0,
    0x20, 0x60, 0x20, 0x20, 0x70,
    0xF0, 0x10, 0xF0, 0x80, 0xF0,
    0xF0, 0x10, 0xF0, 0x10, 0xF0,
    0x90, 0x90, 0xF0, 0x10, 0x10,
    0xF0, 0x80, 0xF0, 0x10, 0xF0,
    0xF0, 0x80, 0xF0, 0x90, 0xF0,
    0xF0, 0x10, 0x20, 0x40, 0x40,
    0xF0, 0x90, 0xF0, 0x90, 0xF0,
    0xF0, 0x90, 0xF0, 0x10, 0xF0,
    0xF0, 0x90, 0xF0, 0x90, 0x90,
    0xE0, 0x90, 0xE0, 0x90, 0xE0,
    0xF0, 0x80, 0x80, 0x80, 0xF0,
    0xE0, 0x90, 0x90, 0x90, 0xE0,
    0xF0, 0x80, 0xF0, 0x80, 0xF0,
    0xF0, 0x80, 0xF0, 0x80, 0x80,
];

} // verus!
