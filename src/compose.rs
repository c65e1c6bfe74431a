//! Mixing of background and object pixels through the greyscale palettes.

use vstd::prelude::*;

use crate::registers::{bit, bit_of, LCDC_BG_WINDOW_PRIORITY, LCDC_OBJ_ENABLE};

verus! {

/// Entry `index` (0..4) of a 2-bit-per-entry greyscale palette.
pub open spec fn palette_entry(palette: u8, index: int) -> u8 {
    ((palette as int / pow4(index)) % 4) as u8
}

pub open spec fn pow4(n: int) -> int {
    if n <= 0 {
        1
    } else if n == 1 {
        4
    } else if n == 2 {
        16
    } else {
        64
    }
}

/// The 2-bit colour that reaches the screen for a background pixel `bg` and
/// an object pixel `sp` (colour in bits 0..1, palette in bit 4, priority in
/// bit 7): the object's when objects are on, its colour is not 0, and it is
/// above the background or the background colour is 0; else the
/// background's, forced to palette entry 0 when LCDC bit 0 is clear.
pub open spec fn spec_mix(lcdc: u8, bgp: u8, obp0: u8, obp1: u8, bg: u16, sp: u16) -> u8 {
    let bg_color = bg as int % 4;
    let sp_color = sp as int % 4;
    let bg_over_obj = (sp as int / 128) % 2 == 1;
    if bit(lcdc, LCDC_OBJ_ENABLE) && sp_color != 0 && !(bg_over_obj && bg_color != 0) {
        palette_entry(
            if (sp as int / 16) % 2 == 1 {
                obp1
            } else {
                obp0
            },
            sp_color,
        )
    } else if bit(lcdc, LCDC_BG_WINDOW_PRIORITY) {
        palette_entry(bgp, bg_color)
    } else {
        palette_entry(bgp, 0)
    }
}

/// Entry `index` of a greyscale palette.
pub fn palette_lookup(palette: u8, index: u8) -> (r: u8)
    requires
        index < 4,
    ensures
        r == palette_entry(palette, index as int),
        r < 4,
{
    let shifted = if index == 0 {
        palette
    } else if index == 1 {
        palette / 4
    } else if index == 2 {
        palette / 16
    } else {
        palette / 64
    };
    shifted % 4
}

/// Mixes one background and one object pixel into the 2-bit colour shown.
pub fn mix_pixel(lcdc: u8, bgp: u8, obp0: u8, obp1: u8, bg: u16, sp: u16) -> (r: u8)
    ensures
        r == spec_mix(lcdc, bgp, obp0, obp1, bg, sp),
        r < 4,
{
    let bg_color = (bg % 4) as u8;
    let sp_color = (sp % 4) as u8;
    let bg_over_obj = (sp / 128) % 2 == 1;
    if bit_of(lcdc, LCDC_OBJ_ENABLE) && sp_color != 0 && !(bg_over_obj && bg_color != 0) {
        let palette = if (sp / 16) % 2 == 1 {
            obp1
        } else {
            obp0
        };
        palette_lookup(palette, sp_color)
    } else if bit_of(lcdc, LCDC_BG_WINDOW_PRIORITY) {
        palette_lookup(bgp, bg_color)
    } else {
        palette_lookup(bgp, 0)
    }
}

} // verus!
