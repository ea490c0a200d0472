//! The bitmap font map: each printable character owns a 16x16 cell in a
//! 16-column glyph grid, laid out in code-point order starting at the
//! space character.  Characters outside the map (and the backtick, which
//! the font lacks) fall back to the question mark's cell.

use vstd::prelude::*;

verus! {

/// One cell of the font image, in pixels.
pub struct GlyphRect {
    pub x: i32,
    pub y: i32,
    pub w: u32,
    pub h: u32,
}

/// Pixel size of one glyph cell.
pub const GRID_UNIT: u32 = 16;

/// The grid slot a character occupies: its offset from the space
/// character, or the question mark's slot for characters the font lacks.
pub open spec fn glyph_index(c: char) -> int {
    let u = c as int;
    if 0x20 <= u <= 0x7E && u != 0x60 {
        u - 0x20
    } else {
        0x1F
    }
}

/// Maps a character to its cell in the font image: 16 glyphs per row,
/// 16 pixels per glyph.
pub fn get_letter(letter: &char) -> (r: GlyphRect)
    ensures
        r.x == (glyph_index(*letter) % 16) * 16,
        r.y == (glyph_index(*letter) / 16) * 16,
        r.w == GRID_UNIT,
        r.h == GRID_UNIT,
{
    let u = *letter as u32;
    let i: u32 = if 0x20 <= u && u <= 0x7E && u != 0x60 {
        u - 0x20
    } else {
        0x1F
    };
    GlyphRect { x: ((i % 16) * 16) as i32, y: ((i / 16) * 16) as i32, w: GRID_UNIT, h: GRID_UNIT }
}

} // verus!
