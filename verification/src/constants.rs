//! The built-in hexadecimal glyph sprites. Each of the sixteen glyphs is a
//! five-byte bitmap; they are copied into memory at machine construction,
//! sequentially at a five-byte stride from address 0x50.
use crate::chip8::Sprite;
use vstd::prelude::*;

verus! {

/// The eighty bytes of glyph data for the hex digits 0 through F, in order:
/// five bytes per glyph.
pub open spec fn glyph_bytes() -> Seq<u8> {
    seq![
        0xF0u8, 0x90, 0x90, 0x90, 0xF0, // 0
        0x20, 0x60, 0x20, 0x20, 0x70, // 1
        0xF0, 0x10, 0xF0, 0x80, 0xF0, // 2
        0xF0, 0x10, 0xF0, 0x10, 0xF0, // 3
        0x90, 0x90, 0xF0, 0x10, 0x10, // 4
        0xF0, 0x80, 0xF0, 0x10, 0xF0, // 5
        0xF0, 0x80, 0xF0, 0x90, 0xF0, // 6
        0xF0, 0x10, 0x20, 0x40, 0x40, // 7
        0xF0, 0x90, 0xF0, 0x90, 0xF0, // 8
        0xF0, 0x90, 0xF0, 0x10, 0xF0, // 9
        0xF0, 0x90, 0xF0, 0x90, 0x90, // A
        0xE0, 0x90, 0xE0, 0x90, 0xE0, // B
        0xF0, 0x80, 0x80, 0x80, 0xF0, // C
        0xE0, 0x90, 0x90, 0x90, 0xE0, // D
        0xF0, 0x80, 0xF0, 0x80, 0xF0, // E
        0xF0, 0x80, 0xF0, 0x80, 0x80, // F
    ]
}

/// Builds one glyph sprite from its five row bytes, padded to the fixed
/// fifteen-byte sprite size.
fn make_glyph(b0: u8, b1: u8, b2: u8, b3: u8, b4: u8) -> (s: Sprite)
    ensures
        s.size == 5,
        s.bytes@.len() == 15,
        s.bytes@[0] == b0,
        s.bytes@[1] == b1,
        s.bytes@[2] == b2,
        s.bytes@[3] == b3,
        s.bytes@[4] == b4,
{
    Sprite { bytes: vec![b0, b1, b2, b3, b4, 0, 0, 0, 0, 0, 0, 0, 0, 0, 0], size: 5 }
}

/// The sixteen built-in glyph sprites, one per hex digit, each five bytes of
/// `glyph_bytes` in order.
pub fn sprite_preset() -> (v: Vec<Sprite>)
    ensures
        v@.len() == 16,
        forall|k: int| 0 <= k < 16 ==> (#[trigger] v@[k]).size == 5,
        forall|k: int| 0 <= k < 16 ==> (#[trigger] v@[k]).bytes@.len() == 15,
        forall|k: int, j: int|
            0 <= k < 16 && 0 <= j < 5 ==> #[trigger] v@[k].bytes@[j] == glyph_bytes()[k * 5 + j],
{
    let v: Vec<Sprite> = vec![
        make_glyph(0xF0, 0x90, 0x90, 0x90, 0xF0),
        make_glyph(0x20, 0x60, 0x20, 0x20, 0x70),
        make_glyph(0xF0, 0x10, 0xF0, 0x80, 0xF0),
        make_glyph(0xF0, 0x10, 0xF0, 0x10, 0xF0),
        make_glyph(0x90, 0x90, 0xF0, 0x10, 0x10),
        make_glyph(0xF0, 0x80, 0xF0, 0x10, 0xF0),
        make_glyph(0xF0, 0x80, 0xF0, 0x90, 0xF0),
        make_glyph(0xF0, 0x10, 0x20, 0x40, 0x40),
        make_glyph(0xF0, 0x90, 0xF0, 0x90, 0xF0),
        make_glyph(0xF0, 0x90, 0xF0, 0x10, 0xF0),
        make_glyph(0xF0, 0x90, 0xF0, 0x90, 0x90),
        make_glyph(0xE0, 0x90, 0xE0, 0x90, 0xE0),
        make_glyph(0xF0, 0x80, 0x80, 0x80, 0xF0),
        make_glyph(0xE0, 0x90, 0x90, 0x90, 0xE0),
        make_glyph(0xF0, 0x80, 0xF0, 0x80, 0xF0),
        make_glyph(0xF0, 0x80, 0xF0, 0x80, 0x80),
    ];
    v
}

} // verus!
