//! The built-in font: sixteen 5-byte sprites for the hexadecimal digits 0-F,
//! installed at the bottom of memory when the machine is constructed. Glyph `d`
//! occupies memory bytes `[5*d, 5*d + 5)`.

use vstd::prelude::*;

verus! {

/// Row `r` (0 to 4) of the glyph for hexadecimal digit `d`.
pub open spec fn spec_glyph_row(d: int, r: int) -> u8 {
    if d == 0x0 {
        if r == 0 { 0xF0 } else if r == 1 { 0x90 } else if r == 2 { 0x90 }
        else if r == 3 { 0x90 } else { 0xF0 }
    } else if d == 0x1 {
        if r == 0 { 0x20 } else if r == 1 { 0x60 } else if r == 2 { 0x20 }
        else if r == 3 { 0x20 } else { 0x70 }
    } else if d == 0x2 {
        if r == 0 { 0xF0 } else if r == 1 { 0x10 } else if r == 2 { 0xF0 }
        else if r == 3 { 0x80 } else { 0xF0 }
    } else if d == 0x3 {
        if r == 0 { 0xF0 } else if r == 1 { 0x10 } else if r == 2 { 0xF0 }
        else if r == 3 { 0x10 } else { 0xF0 }
    } else if d == 0x4 {
        if r == 0 { 0x90 } else if r == 1 { 0x90 } else if r == 2 { 0xF0 }
        else if r == 3 { 0x10 } else { 0x10 }
    } else if d == 0x5 {
        if r == 0 { 0xF0 } else if r == 1 { 0x80 } else if r == 2 { 0xF0 }
        else if r == 3 { 0x10 } else { 0xF0 }
    } else if d == 0x6 {
        if r == 0 { 0xF0 } else if r == 1 { 0x80 } else if r == 2 { 0xF0 }
        else if r == 3 { 0x90 } else { 0xF0 }
    } else if d == 0x7 {
        if r == 0 { 0xF0 } else if r == 1 { 0x10 } else if r == 2 { 0x20 }
        else if r == 3 { 0x40 } else { 0x40 }
    } else if d == 0x8 {
        if r == 0 { 0xF0 } else if r == 1 { 0x90 } else if r == 2 { 0xF0 }
        else if r == 3 { 0x90 } else { 0xF0 }
    } else if d == 0x9 {
        if r == 0 { 0xF0 } else if r == 1 { 0x90 } else if r == 2 { 0xF0 }
        else if r == 3 { 0x10 } else { 0xF0 }
    } else if d == 0xA {
        if r == 0 { 0xF0 } else if r == 1 { 0x90 } else if r == 2 { 0xF0 }
        else if r == 3 { 0x90 } else { 0x90 }
    } else if d == 0xB {
        if r == 0 { 0xE0 } else if r == 1 { 0x90 } else if r == 2 { 0xE0 }
        else if r == 3 { 0x90 } else { 0xE0 }
    } else if d == 0xC {
        if r == 0 { 0xF0 } else if r == 1 { 0x80 } else if r == 2 { 0x80 }
        else if r == 3 { 0x80 } else { 0xF0 }
    } else if d == 0xD {
        if r == 0 { 0xE0 } else if r == 1 { 0x90 } else if r == 2 { 0x90 }
        else if r == 3 { 0x90 } else { 0xE0 }
    } else if d == 0xE {
        if r == 0 { 0xF0 } else if r == 1 { 0x80 } else if r == 2 { 0xF0 }
        else if r == 3 { 0x80 } else { 0xF0 }
    } else {
        if r == 0 { 0xF0 } else if r == 1 { 0x80 } else if r == 2 { 0xF0 }
        else if r == 3 { 0x80 } else { 0x80 }
    }
}

/// Byte `i` of the 80-byte font table as laid out in memory.
pub open spec fn spec_font_at(i: int) -> u8 {
    spec_glyph_row(i / 5, i % 5)
}

/// Executable mirror of `spec_glyph_row`.
pub fn glyph_row(d: usize, r: usize) -> (b: u8)
    requires
        d < 16,
        r < 5,
    ensures
        b == spec_glyph_row(d as int, r as int),
{
    if d == 0x0 {
        if r == 0 { 0xF0 } else if r == 1 { 0x90 } else if r == 2 { 0x90 }
        else if r == 3 { 0x90 } else { 0xF0 }
    } else if d == 0x1 {
        if r == 0 { 0x20 } else if r == 1 { 0x60 } else if r == 2 { 0x20 }
        else if r == 3 { 0x20 } else { 0x70 }
    } else if d == 0x2 {
        if r == 0 { 0xF0 } else if r == 1 { 0x10 } else if r == 2 { 0xF0 }
        else if r == 3 { 0x80 } else { 0xF0 }
    } else if d == 0x3 {
        if r == 0 { 0xF0 } else if r == 1 { 0x10 } else if r == 2 { 0xF0 }
        else if r == 3 { 0x10 } else { 0xF0 }
    } else if d == 0x4 {
        if r == 0 { 0x90 } else if r == 1 { 0x90 } else if r == 2 { 0xF0 }
        else if r == 3 { 0x10 } else { 0x10 }
    } else if d == 0x5 {
        if r == 0 { 0xF0 } else if r == 1 { 0x80 } else if r == 2 { 0xF0 }
        else if r == 3 { 0x10 } else { 0xF0 }
    } else if d == 0x6 {
        if r == 0 { 0xF0 } else if r == 1 { 0x80 } else if r == 2 { 0xF0 }
        else if r == 3 { 0x90 } else { 0xF0 }
    } else if d == 0x7 {
        if r == 0 { 0xF0 } else if r == 1 { 0x10 } else if r == 2 { 0x20 }
        else if r == 3 { 0x40 } else { 0x40 }
    } else if d == 0x8 {
        if r == 0 { 0xF0 } else if r == 1 { 0x90 } else if r == 2 { 0xF0 }
        else if r == 3 { 0x90 } else { 0xF0 }
    } else if d == 0x9 {
        if r == 0 { 0xF0 } else if r == 1 { 0x90 } else if r == 2 { 0xF0 }
        else if r == 3 { 0x10 } else { 0xF0 }
    } else if d == 0xA {
        if r == 0 { 0xF0 } else if r == 1 { 0x90 } else if r == 2 { 0xF0 }
        else if r == 3 { 0x90 } else { 0x90 }
    } else if d == 0xB {
        if r == 0 { 0xE0 } else if r == 1 { 0x90 } else if r == 2 { 0xE0 }
        else if r == 3 { 0x90 } else { 0xE0 }
    } else if d == 0xC {
        if r == 0 { 0xF0 } else if r == 1 { 0x80 } else if r == 2 { 0x80 }
        else if r == 3 { 0x80 } else { 0xF0 }
    } else if d == 0xD {
        if r == 0 { 0xE0 } else if r == 1 { 0x90 } else if r == 2 { 0x90 }
        else if r == 3 { 0x90 } else { 0xE0 }
    } else if d == 0xE {
        if r == 0 { 0xF0 } else if r == 1 { 0x80 } else if r == 2 { 0xF0 }
        else if r == 3 { 0x80 } else { 0xF0 }
    } else {
        if r == 0 { 0xF0 } else if r == 1 { 0x80 } else if r == 2 { 0xF0 }
        else if r == 3 { 0x80 } else { 0x80 }
    }
}

/// Executable mirror of `spec_font_at`.
pub fn font_at(i: usize) -> (b: u8)
    requires
        i < 80,
    ensures
        b == spec_font_at(i as int),
{
    glyph_row(i / 5, i % 5)
}

} // verus!
