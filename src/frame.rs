//! The RGBA frame the unit draws into.

use vstd::prelude::*;

verus! {

pub const FRAME_WIDTH: usize = 160;

pub const FRAME_HEIGHT: usize = 144;

/// Bytes of one RGBA frame: 160 x 144 pixels of 4 bytes.
pub const FRAME_BYTES: usize = 92160;

/// A finished frame: row-major, 4 bytes per pixel in R, G, B, A order.
pub type Frame = Vec<u8>;

/// The byte written to all four channels for 2-bit colour `c`:
/// `(!c & 3) << 6`.
pub open spec fn shade(c: int) -> u8 {
    if c == 0 {
        0xC0
    } else if c == 1 {
        0x80
    } else if c == 2 {
        0x40
    } else {
        0x00
    }
}

pub open spec fn is_shade(v: u8) -> bool {
    v == 0xC0 || v == 0x80 || v == 0x40 || v == 0x00
}

/// Every byte is a shade, and the four bytes of each pixel are equal.
pub open spec fn frame_encoded(f: Seq<u8>) -> bool {
    forall|i: int| 0 <= i < f.len() ==> is_shade(#[trigger] f[i]) && f[i] == f[i - i % 4]
}

/// The frame with pixel number `p` set to `v` in all four channels.
pub open spec fn put_pixel(f: Seq<u8>, p: int, v: u8) -> Seq<u8> {
    f.update(4 * p, v).update(4 * p + 1, v).update(4 * p + 2, v).update(4 * p + 3, v)
}

proof fn lemma_shade_bits(c: u8)
    by (bit_vector)
    requires
        c < 4,
    ensures
        c == 0 ==> ((!c & 3) << 6) as u8 == 0xC0,
        c == 1 ==> ((!c & 3) << 6) as u8 == 0x80,
        c == 2 ==> ((!c & 3) << 6) as u8 == 0x40,
        c == 3 ==> ((!c & 3) << 6) as u8 == 0x00,
{
}

/// The channel byte of 2-bit colour `c`: `(!c & 3) << 6`.
pub fn shade_of(c: u8) -> (r: u8)
    requires
        c < 4,
    ensures
        r == shade(c as int),
        is_shade(r),
{
    proof {
        lemma_shade_bits(c);
    }
    (!c & 3) << 6
}

/// Writing one pixel of a shade keeps a frame encoded.
proof fn lemma_put_pixel(f: Seq<u8>, p: int, v: u8)
    requires
        frame_encoded(f),
        0 <= p,
        4 * p + 3 < f.len(),
        is_shade(v),
    ensures
        frame_encoded(put_pixel(f, p, v)),
        put_pixel(f, p, v).len() == f.len(),
{
    let g = put_pixel(f, p, v);
    assert forall|i: int| 0 <= i < g.len() implies is_shade(#[trigger] g[i]) && g[i] == g[i - i
        % 4] by {
        if 4 * p <= i < 4 * p + 4 {
            assert(i - i % 4 == 4 * p);
        } else {
            assert(f[i] == f[i - i % 4]);
            assert(!(4 * p <= i - i % 4 < 4 * p + 4));
        }
    }
}

/// A frame of zero bytes.
pub(crate) fn allocate_new_frame() -> (r: Frame)
    ensures
        r@ == Seq::new(FRAME_BYTES as nat, |i: int| 0u8),
        frame_encoded(r@),
{
    let r = vec![0u8; FRAME_BYTES];
    assert(r@ =~= Seq::new(FRAME_BYTES as nat, |i: int| 0u8));
    r
}

/// Writes pixel `p` of `frame` in `shade`, all four channels.
pub(crate) fn draw_pixel(frame: &mut Frame, p: usize, shade: u8)
    requires
        old(frame)@.len() == FRAME_BYTES,
        p < FRAME_WIDTH * FRAME_HEIGHT,
        frame_encoded(old(frame)@),
        is_shade(shade),
    ensures
        final(frame)@ == put_pixel(old(frame)@, p as int, shade),
        final(frame)@.len() == FRAME_BYTES,
        frame_encoded(final(frame)@),
{
    proof {
        lemma_put_pixel(frame@, p as int, shade);
    }
    let base = p * 4;
    frame[base] = shade;
    frame[base + 1] = shade;
    frame[base + 2] = shade;
    frame[base + 3] = shade;
    assert(frame@ =~= put_pixel(old(frame)@, p as int, shade));
}

} // verus!
