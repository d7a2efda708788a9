//! The built-in font: 16 hexadecimal glyphs, 5 bytes each, resident at the
//! bottom of memory so that digit `d`'s sprite starts at address `d * 5`.

use vstd::prelude::*;

verus! {

/// The 5 rows of the glyph for hexadecimal digit `d`.
pub open spec fn glyph(d: int) -> Seq<u8> {
    if d == 0x0 {
        seq![0xF0u8, 0x90, 0x90, 0x90, 0xF0]
    } else if d == 0x1 {
        seq![0x20u8, 0x60, 0x20, 0x20, 0x70]
    } else if d == 0x2 {
        seq![0xF0u8, 0x10, 0xF0, 0x80, 0xF0]
    } else if d == 0x3 {
        seq![0xF0u8, 0x10, 0xF0, 0x10, 0xF0]
    } else if d == 0x4 {
        seq![0x90u8, 0x90, 0xF0, 0x10, 0x10]
    } else if d == 0x5 {
        seq![0xF0u8, 0x80, 0xF0, 0x10, 0xF0]
    } else if d == 0x6 {
        seq![0xF0u8, 0x80, 0xF0, 0x90, 0xF0]
    } else if d == 0x7 {
        seq![0xF0u8, 0x10, 0x20, 0x40, 0x40]
    } else if d == 0x8 {
        seq![0xF0u8, 0x90, 0xF0, 0x90, 0xF0]
    } else if d == 0x9 {
        seq![0xF0u8, 0x90, 0xF0, 0x10, 0xF0]
    } else if d == 0xA {
        seq![0xF0u8, 0x90, 0xF0, 0x90, 0x90]
    } else if d == 0xB {
        seq![0xE0u8, 0x90, 0xE0, 0x90, 0xE0]
    } else if d == 0xC {
        seq![0xF0u8, 0x80, 0x80, 0x80, 0xF0]
    } else if d == 0xD {
        seq![0xE0u8, 0x90, 0x90, 0x90, 0xE0]
    } else if d == 0xE {
        seq![0xF0u8, 0x80, 0xF0, 0x80, 0xF0]
    } else {
        seq![0xF0u8, 0x80, 0xF0, 0x80, 0x80]
    }
}

/// The whole font table: the 16 glyphs laid out back to back, 80 bytes.
pub open spec fn font_set() -> Seq<u8> {
    glyph(0x0) + glyph(0x1) + glyph(0x2) + glyph(0x3) + glyph(0x4) + glyph(0x5) + glyph(0x6)
        + glyph(0x7) + glyph(0x8) + glyph(0x9) + glyph(0xA) + glyph(0xB) + glyph(0xC) + glyph(0xD)
        + glyph(0xE) + glyph(0xF)
}

/// Appends one 5-byte glyph row group to the vector under construction.
fn push_glyph(r: &mut Vec<u8>, a: u8, b: u8, c: u8, d: u8, e: u8)
    ensures
        final(r)@ =~= old(r)@ + seq![a, b, c, d, e],
{
    r.push(a);
    r.push(b);
    r.push(c);
    r.push(d);
    r.push(e);
}

/// Builds the font table as a byte vector.
#[verifier::rlimit(100)]
pub fn font_vec() -> (r: Vec<u8>)
    ensures
        r@ == font_set(),
        r@.len() == 80,
{
    let mut r: Vec<u8> = Vec::new();
    push_glyph(&mut r, 0xF0, 0x90, 0x90, 0x90, 0xF0);
    assert(r@ =~= glyph(0x0));
    push_glyph(&mut r, 0x20, 0x60, 0x20, 0x20, 0x70);
    push_glyph(&mut r, 0xF0, 0x10, 0xF0, 0x80, 0xF0);
    push_glyph(&mut r, 0xF0, 0x10, 0xF0, 0x10, 0xF0);
    assert(r@ =~= glyph(0x0) + glyph(0x1) + glyph(0x2) + glyph(0x3));
    push_glyph(&mut r, 0x90, 0x90, 0xF0, 0x10, 0x10);
    push_glyph(&mut r, 0xF0, 0x80, 0xF0, 0x10, 0xF0);
    push_glyph(&mut r, 0xF0, 0x80, 0xF0, 0x90, 0xF0);
    assert(r@ =~= glyph(0x0) + glyph(0x1) + glyph(0x2) + glyph(0x3) + glyph(0x4) + glyph(0x5)
        + glyph(0x6));
    push_glyph(&mut r, 0xF0, 0x10, 0x20, 0x40, 0x40);
    push_glyph(&mut r, 0xF0, 0x90, 0xF0, 0x90, 0xF0);
    push_glyph(&mut r, 0xF0, 0x90, 0xF0, 0x10, 0xF0);
    assert(r@ =~= glyph(0x0) + glyph(0x1) + glyph(0x2) + glyph(0x3) + glyph(0x4) + glyph(0x5)
        + glyph(0x6) + glyph(0x7) + glyph(0x8) + glyph(0x9));
    push_glyph(&mut r, 0xF0, 0x90, 0xF0, 0x90, 0x90);
    push_glyph(&mut r, 0xE0, 0x90, 0xE0, 0x90, 0xE0);
    push_glyph(&mut r, 0xF0, 0x80, 0x80, 0x80, 0xF0);
    assert(r@ =~= glyph(0x0) + glyph(0x1) + glyph(0x2) + glyph(0x3) + glyph(0x4) + glyph(0x5)
        + glyph(0x6) + glyph(0x7) + glyph(0x8) + glyph(0x9) + glyph(0xA) + glyph(0xB)
        + glyph(0xC));
    push_glyph(&mut r, 0xE0, 0x90, 0x90, 0x90, 0xE0);
    push_glyph(&mut r, 0xF0, 0x80, 0xF0, 0x80, 0xF0);
    push_glyph(&mut r, 0xF0, 0x80, 0xF0, 0x80, 0x80);
    assert(r@ =~= font_set());
    r
}

} // verus!
