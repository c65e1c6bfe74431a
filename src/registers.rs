//! Bit numbers of the LCDC and STAT registers.

use vstd::prelude::*;

verus! {

// Bits of LCDC.
pub const LCDC_BG_WINDOW_PRIORITY: u8 = 0;

pub const LCDC_OBJ_ENABLE: u8 = 1;

pub const LCDC_OBJ_SIZE: u8 = 2;

pub const LCDC_BG_TILE_MAP: u8 = 3;

pub const LCDC_TILE_DATA: u8 = 4;

pub const LCDC_WINDOW_ENABLE: u8 = 5;

pub const LCDC_WINDOW_TILE_MAP: u8 = 6;

// Interrupt sources of STAT.
pub const STAT_HBLANK_SOURCE: u8 = 3;

pub const STAT_VBLANK_SOURCE: u8 = 4;

pub const STAT_OAM_SOURCE: u8 = 5;

pub const STAT_LYC_SOURCE: u8 = 6;

/// The value of bit `n` of a byte, 2 to the power `n`.
pub open spec fn bit_value(n: u8) -> int {
    if n == 0 {
        1
    } else if n == 1 {
        2
    } else if n == 2 {
        4
    } else if n == 3 {
        8
    } else if n == 4 {
        16
    } else if n == 5 {
        32
    } else if n == 6 {
        64
    } else {
        128
    }
}

/// Bit `n` of `v`.
pub open spec fn bit(v: u8, n: u8) -> bool {
    (v as int / bit_value(n)) % 2 == 1
}

/// Bit `n` of `v`.
pub fn bit_of(v: u8, n: u8) -> (r: bool)
    requires
        n < 8,
    ensures
        r == bit(v, n),
{
    let value: u8 = if n == 0 {
        1
    } else if n == 1 {
        2
    } else if n == 2 {
        4
    } else if n == 3 {
        8
    } else if n == 4 {
        16
    } else if n == 5 {
        32
    } else if n == 6 {
        64
    } else {
        128
    };
    (v / value) % 2 == 1
}

} // verus!
