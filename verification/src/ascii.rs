//! Glyph layout for the ASCII sprite sheet. A glyph is one cell of a
//! 256-entry sheet, indexed by the ordinal value of the character it shows;
//! text lays its glyphs out left to right, one tile apart, relative to the
//! text entity that owns them.

use vstd::prelude::*;

use crate::TILE_SIZE;

verus! {

/// One visual glyph: a sheet index below 256 and a position relative to the
/// entity that owns the glyph.
#[derive(Clone, Copy, Debug, PartialEq, Eq, Structural)]
pub struct Glyph {
    pub index: usize,
    pub x: i64,
    pub y: i64,
}

/// The glyph shown for character `i` of a text: the sheet entry at the
/// character's ordinal value, one tile further right per character.
pub open spec fn text_glyph(text: Seq<char>, i: int) -> Glyph {
    Glyph { index: text[i] as usize, x: (i * TILE_SIZE) as i64, y: 0 }
}

/// A single glyph sprite at the given relative position. The sheet has 256
/// entries, so larger indices are out of range.
pub fn spawn_ascii_sprite(index: usize, x: i64, y: i64) -> (g: Glyph)
    requires
        index < 256,
    ensures
        g == (Glyph { index, x, y }),
{
    Glyph { index, x, y }
}

/// Lay out a text as glyph sprites, one per character, each indexed by the
/// character's ordinal value and one tile apart, relative to the owning text
/// entity. Characters above ordinal 255 have no sheet entry and are
/// excluded.
pub fn spawn_ascii_text(text: &str) -> (glyphs: Vec<Glyph>)
    requires
        forall|i: int| 0 <= i < text@.len() ==> (#[trigger] text@[i]) as usize <= 255,
        text@.len() * TILE_SIZE <= i64::MAX,
    ensures
        glyphs@.len() == text@.len(),
        forall|i: int| 0 <= i < text@.len() ==> #[trigger] glyphs@[i] == text_glyph(text@, i),
{
    let len = text.unicode_len();
    let mut glyphs: Vec<Glyph> = Vec::new();
    let mut i: usize = 0;
    while i < len
        invariant
            len == text@.len(),
            len * TILE_SIZE <= i64::MAX,
            forall|j: int| 0 <= j < text@.len() ==> (#[trigger] text@[j]) as usize <= 255,
            i <= len,
            glyphs@.len() == i,
            forall|j: int| 0 <= j < i ==> #[trigger] glyphs@[j] == text_glyph(text@, j),
        decreases len - i,
    {
        let c = text.get_char(i);
        let index = c as usize;
        let g = spawn_ascii_sprite(index, (i as i64) * TILE_SIZE, 0);
        glyphs.push(g);
        i = i + 1;
    }
    glyphs
}

} // verus!
