//! Line and frame timing, counted in dots.

use vstd::prelude::*;

use crate::interrupt::Interrupt;
use crate::registers::{bit, STAT_LYC_SOURCE, STAT_OAM_SOURCE, STAT_VBLANK_SOURCE};

verus! {

/// Dots in one scanline.
pub const LINE_DOTS: u16 = 456;

/// Scanlines in one frame, the last ten of them in vertical blank.
pub const FRAME_LINES: u8 = 154;

/// Dot counter and scanline after one dot.
pub open spec fn next_dot(cycle: int, y: int) -> (int, int) {
    if cycle + 1 == LINE_DOTS {
        (0, if y + 1 == FRAME_LINES {
            0
        } else {
            y + 1
        })
    } else {
        (cycle + 1, y)
    }
}

/// The requests made when scanline `y` starts: VBLANK, then LCD_STAT if
/// its V-Blank source is on, when line 144 starts; LCD_STAT for the OAM scan
/// of a visible line if the OAM source is on; then LCD_STAT if the line is
/// LYC and the LYC source is on.
pub open spec fn line_start_requests(y: int, stat: u8, y_compare: u8) -> Seq<Interrupt> {
    let mode_requests = if y == 144 {
        seq![Interrupt::VBlank] + if bit(stat, STAT_VBLANK_SOURCE) {
            seq![Interrupt::LcdStat]
        } else {
            Seq::empty()
        }
    } else if y < 144 && bit(stat, STAT_OAM_SOURCE) {
        seq![Interrupt::LcdStat]
    } else {
        Seq::empty()
    };
    mode_requests + if y == y_compare && bit(stat, STAT_LYC_SOURCE) {
        seq![Interrupt::LcdStat]
    } else {
        Seq::empty()
    }
}

/// Dot counter and scanline after `n` dots from `(cycle, y)`.
pub open spec fn dots_after(n: nat, cycle: int, y: int) -> (int, int)
    decreases n,
{
    if n == 0 {
        (cycle, y)
    } else {
        let p = dots_after((n - 1) as nat, cycle, y);
        next_dot(p.0, p.1)
    }
}

/// Dots per frame: 456 x 154.
pub const FRAME_DOTS: u32 = 70224;

/// Within a frame, dot `n` after the top of the frame is dot `n % 456` of
/// line `n / 456`.
pub proof fn lemma_frame_position(n: nat)
    requires
        n < FRAME_DOTS,
    ensures
        dots_after(n, 0, 0) == ((n % 456) as int, (n / 456) as int),
    decreases n,
{
    if n > 0 {
        lemma_frame_position((n - 1) as nat);
        let m = (n - 1) as int;
        assert(m == 456 * (m / 456) + m % 456);
        if m % 456 == 455 {
            assert(n as int == 456 * (m / 456 + 1));
            assert(n % 456 == 0 && n / 456 == m / 456 + 1);
        } else {
            assert(n as int == 456 * (m / 456) + (m % 456 + 1));
            assert(n % 456 == m % 456 + 1 && n / 456 == m / 456);
        }
    }
}

/// From the start of any line, the line stays for 456 dots, and the 456th
/// dot starts the next line: the one below, or line 0 after the last.
pub proof fn lemma_scanline_period(y: int)
    requires
        0 <= y < FRAME_LINES,
    ensures
        forall|k: nat| k < 456 ==> #[trigger] dots_after(k, 0, y) == (k as int, y),
        dots_after(456, 0, y) == (0int, if y + 1 == FRAME_LINES {
            0
        } else {
            y + 1
        }),
{
    assert forall|k: nat| k < 456 implies #[trigger] dots_after(k, 0, y) == (k as int, y) by {
        lemma_dots_within_line(k, y);
    }
    lemma_dots_within_line(455, y);
}

proof fn lemma_dots_within_line(k: nat, y: int)
    requires
        k < 456,
    ensures
        dots_after(k, 0, y) == (k as int, y),
    decreases k,
{
    if k > 0 {
        lemma_dots_within_line((k - 1) as nat, y);
    }
}

/// 70224 dots take the top of a frame back to the top of a frame, and no
/// fewer do; so a frame is handed out once in every 70224 dots.
pub proof fn lemma_frame_period()
    ensures
        dots_after(FRAME_DOTS as nat, 0, 0) == (0int, 0int),
        forall|n: nat| 0 < n < FRAME_DOTS ==> #[trigger] dots_after(n, 0, 0) != (0int, 0int),
{
    assert forall|n: nat| 0 < n < FRAME_DOTS implies #[trigger] dots_after(n, 0, 0) != (
    0int, 0int) by {
        lemma_frame_position(n);
    }
    lemma_frame_position((FRAME_DOTS - 1) as nat);
}

/// VBLANK is requested only when a new line starts and that line is 144;
/// within a frame that happens at exactly one dot.
pub proof fn lemma_vblank_once_per_frame(stat: u8, y_compare: u8)
    ensures
        forall|y: int|
            #[trigger] line_start_requests(y, stat, y_compare).contains(Interrupt::VBlank) <==> y
                == 144,
        forall|n: nat|
            n < FRAME_DOTS ==> (#[trigger] dots_after(n, 0, 0) == (455int, 143int) <==> n == 65663),
{
    assert forall|y: int|
        #[trigger] line_start_requests(y, stat, y_compare).contains(Interrupt::VBlank) <==> y
            == 144 by {
        let r = line_start_requests(y, stat, y_compare);
        if y == 144 {
            assert(r[0] == Interrupt::VBlank);
        } else {
            assert forall|i: int| 0 <= i < r.len() implies r[i] != Interrupt::VBlank by {}
        }
    }
    assert forall|n: nat| n < FRAME_DOTS implies (#[trigger] dots_after(n, 0, 0) == (
    455int, 143int) <==> n == 65663) by {
        lemma_frame_position(n);
    }
}

/// Dot counter and scanline of dot `i` (`0 <= i < 70224`) of a frame.
pub open spec fn frame_position(i: int) -> (int, int) {
    (i % 456, i / 456)
}

proof fn lemma_next_position(j: int)
    requires
        0 <= j < FRAME_DOTS,
    ensures
        next_dot(frame_position(j).0, frame_position(j).1) == frame_position((j + 1) % 70224),
{
    assert(j == 456 * (j / 456) + j % 456);
    if j % 456 == 455 {
        if j / 456 == 153 {
            assert(j == 70223);
        } else {
            assert((j + 1) % 70224 == j + 1);
            assert(j + 1 == 456 * (j / 456 + 1));
            assert((j + 1) % 456 == 0 && (j + 1) / 456 == j / 456 + 1);
        }
    } else {
        assert((j + 1) % 70224 == j + 1);
        assert(j + 1 == 456 * (j / 456) + (j % 456 + 1));
        assert((j + 1) % 456 == j % 456 + 1 && (j + 1) / 456 == j / 456);
    }
}

/// From any dot `(cycle, y)` of a frame, `n` dots later the unit is at dot
/// `(y * 456 + cycle + n) % 70224` of a frame: the position repeats every
/// frame, and from the top of a frame LY after `k` dots is
/// `(k % 70224) / 456`.
pub proof fn lemma_position_after(n: nat, cycle: int, y: int)
    requires
        0 <= cycle < 456,
        0 <= y < 154,
    ensures
        dots_after(n, cycle, y) == frame_position((y * 456 + cycle + n) % 70224),
    decreases n,
{
    let base = y * 456 + cycle;
    if n == 0 {
        assert(base % 70224 == base);
        assert(base == 456 * y + cycle);
        assert(base % 456 == cycle && base / 456 == y);
    } else {
        lemma_position_after((n - 1) as nat, cycle, y);
        let j = (base + n - 1) % 70224;
        lemma_next_position(j);
        assert((j + 1) % 70224 == (base + n) % 70224) by {
            assert(base + n - 1 == 70224 * ((base + n - 1) / 70224) + j);
        }
    }
}

/// In any 70224 consecutive dots, from any dot of a frame, exactly one dot
/// ends line 143, which is the one dot that starts line 144 and so the one
/// VBLANK request.
pub proof fn lemma_vblank_once_in_any_frame(cycle: int, y: int)
    requires
        0 <= cycle < 456,
        0 <= y < 154,
    ensures
        forall|n: nat|
            n < FRAME_DOTS ==> (#[trigger] dots_after(n, cycle, y) == (455int, 143int) <==> n == (
            65663 + 70224 - (y * 456 + cycle)) % 70224),
{
    assert forall|n: nat| n < FRAME_DOTS implies (#[trigger] dots_after(n, cycle, y) == (
    455int, 143int) <==> n == (65663 + 70224 - (y * 456 + cycle)) % 70224) by {
        lemma_position_after(n, cycle, y);
        let base = y * 456 + cycle;
        let i = (base + n) % 70224;
        assert(base + n == 70224 * ((base + n) / 70224) + i);
        assert(i == 456 * (i / 456) + i % 456);
        if dots_after(n, cycle, y) == (455int, 143int) {
            assert(i == 65663);
        }
    }
}

/// The number of VBLANK requests over the `n` dots that follow dot
/// `(cycle, y)`: one for each dot that starts line 144.
pub open spec fn vblank_requests(n: nat, cycle: int, y: int) -> int
    decreases n,
{
    if n == 0 {
        0
    } else {
        vblank_requests((n - 1) as nat, cycle, y) + if dots_after((n - 1) as nat, cycle, y) == (
        455int, 143int) {
            1int
        } else {
            0
        }
    }
}

proof fn lemma_vblank_requests_prefix(m: nat, cycle: int, y: int, hit: nat)
    requires
        0 <= cycle < 456,
        0 <= y < 154,
        m <= FRAME_DOTS,
        hit < FRAME_DOTS,
        forall|n: nat|
            n < FRAME_DOTS ==> (#[trigger] dots_after(n, cycle, y) == (455int, 143int) <==> n
                == hit),
    ensures
        vblank_requests(m, cycle, y) == if hit < m {
            1int
        } else {
            0
        },
    decreases m,
{
    if m > 0 {
        lemma_vblank_requests_prefix((m - 1) as nat, cycle, y, hit);
        assert(dots_after((m - 1) as nat, cycle, y) == (455int, 143int) <==> m - 1 == hit);
    }
}

/// Any 70224 consecutive dots, from any dot of a frame, make exactly one
/// VBLANK request: the dot that starts line 144 requests VBLANK once, and no
/// other dot requests it.
pub proof fn lemma_one_vblank_in_any_70224_dots(cycle: int, y: int, stat: u8, y_compare: u8)
    requires
        0 <= cycle < 456,
        0 <= y < 154,
    ensures
        vblank_requests(FRAME_DOTS as nat, cycle, y) == 1,
        line_start_requests(144, stat, y_compare)[0] == Interrupt::VBlank,
        forall|i: int|
            0 < i < line_start_requests(144, stat, y_compare).len() ==> #[trigger] line_start_requests(
                144,
                stat,
                y_compare,
            )[i] != Interrupt::VBlank,
        forall|z: int|
            z != 144 ==> !(#[trigger] line_start_requests(z, stat, y_compare)).contains(
                Interrupt::VBlank,
            ),
{
    lemma_vblank_once_in_any_frame(cycle, y);
    let hit = ((65663 + 70224 - (y * 456 + cycle)) % 70224) as nat;
    lemma_vblank_requests_prefix(FRAME_DOTS as nat, cycle, y, hit);
    assert forall|z: int| z != 144 implies !(#[trigger] line_start_requests(
        z,
        stat,
        y_compare,
    )).contains(Interrupt::VBlank) by {
        let r = line_start_requests(z, stat, y_compare);
        assert forall|i: int| 0 <= i < r.len() implies r[i] != Interrupt::VBlank by {}
    }
}

} // verus!
