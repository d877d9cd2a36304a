//! Fixed machine parameters and the resident font.

use vstd::prelude::*;

verus! {

/// Width of the monochrome display in pixels.
pub const SCREEN_WIDTH: usize = 64;

/// Height of the monochrome display in pixels.
pub const SCREEN_HEIGHT: usize = 32;

/// Number of pixels in the framebuffer, stored row-major.
pub const SCREEN_PIXELS: usize = 64 * 32;

/// Total addressable memory in bytes (addresses 0x000 to 0xFFF).
pub const CHIP8_MEMORY: usize = 4096;

/// Every instruction is one two-byte word.
pub const INSTRUCTION_LENGTH: u16 = 2;

/// Programs are loaded at this address; everything below is reserved
/// for the interpreter (in particular the resident font).
pub const PROGRAM_START: usize = 0x200;

/// Largest program that fits between PROGRAM_START and the end of memory.
pub const MAX_ROM_SIZE: usize = 4096 - 0x200;

/// Capacity of the call stack.
pub const STACK_SIZE: usize = 16;

/// Bytes per resident font glyph.
pub const FONT_GLYPH_SIZE: usize = 5;

/// Total bytes of resident font data: 16 glyphs of 5 bytes each,
/// one glyph per hexadecimal digit.
pub const FONT_BYTES: usize = 80;

/// The five rows of the glyph for one hexadecimal digit, packed
/// big-endian into the low 40 bits of a word: the first row is the
/// most significant of the five bytes.
pub open spec fn spec_glyph_rows(digit: int) -> u64 {
    if digit == 0x0 {
        0xF0909090F0
    } else if digit == 0x1 {
        0x2060202070
    } else if digit == 0x2 {
        0xF010F080F0
    } else if digit == 0x3 {
        0xF010F010F0
    } else if digit == 0x4 {
        0x9090F01010
    } else if digit == 0x5 {
        0xF080F010F0
    } else if digit == 0x6 {
        0xF080F090F0
    } else if digit == 0x7 {
        0xF010204040
    } else if digit == 0x8 {
        0xF090F090F0
    } else if digit == 0x9 {
        0xF090F010F0
    } else if digit == 0xA {
        0xF090F09090
    } else if digit == 0xB {
        0xE090E090E0
    } else if digit == 0xC {
        0xF0808080F0
    } else if digit == 0xD {
        0xE0909090E0
    } else if digit == 0xE {
        0xF080F080F0
    } else {
        0xF080F08080
    }
}

/// Byte `j` of the resident font area: row `j % 5` of the glyph for
/// digit `j / 5`.
pub open spec fn spec_font_byte(j: int) -> u8 {
    ((spec_glyph_rows(j / 5) >> (((4 - j % 5) * 8) as u64)) & 0xFF) as u8
}

/// The packed glyph rows for one digit.
fn glyph_rows(digit: usize) -> (r: u64)
    requires
        digit < 16,
    ensures
        r == spec_glyph_rows(digit as int),
{
    if digit == 0x0 {
        0xF0909090F0
    } else if digit == 0x1 {
        0x2060202070
    } else if digit == 0x2 {
        0xF010F080F0
    } else if digit == 0x3 {
        0xF010F010F0
    } else if digit == 0x4 {
        0x9090F01010
    } else if digit == 0x5 {
        0xF080F010F0
    } else if digit == 0x6 {
        0xF080F090F0
    } else if digit == 0x7 {
        0xF010204040
    } else if digit == 0x8 {
        0xF090F090F0
    } else if digit == 0x9 {
        0xF090F010F0
    } else if digit == 0xA {
        0xF090F09090
    } else if digit == 0xB {
        0xE090E090E0
    } else if digit == 0xC {
        0xF0808080F0
    } else if digit == 0xD {
        0xE0909090E0
    } else if digit == 0xE {
        0xF080F080F0
    } else {
        0xF080F08080
    }
}

/// Byte `j` of the resident font area.
pub fn font_byte(j: usize) -> (r: u8)
    requires
        j < FONT_BYTES,
    ensures
        r == spec_font_byte(j as int),
{
    let rows = glyph_rows(j / 5);
    let shift: u64 = ((4 - j % 5) * 8) as u64;
    ((rows >> shift) & 0xFF) as u8
}

} // verus!
