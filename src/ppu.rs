use vstd::array::spec_array_update;
use vstd::prelude::*;

use crate::cgb_palette::CgbPalette;
use crate::compose::{mix_pixel, spec_mix};
use crate::fifo_mode::{
    drawing_start, mode_number, reset_of, DrawingState, FifoMode, OamScanState, PixelFetcherState,
};
use crate::interrupt::{Interrupt, PpuBus};
use crate::frame::{
    allocate_new_frame, draw_pixel, frame_encoded, is_shade, put_pixel, shade, shade_of, Frame,
    FRAME_BYTES, FRAME_WIDTH,
};
use crate::pixel_fifo::{front, overlay, PixelFifo};
use crate::registers::{
    bit, bit_of, LCDC_BG_TILE_MAP, LCDC_OBJ_ENABLE, LCDC_OBJ_SIZE, LCDC_TILE_DATA,
    LCDC_WINDOW_ENABLE, LCDC_WINDOW_TILE_MAP, STAT_HBLANK_SOURCE, STAT_LYC_SOURCE, STAT_OAM_SOURCE,
    STAT_VBLANK_SOURCE,
};
use crate::timing::{line_start_requests, next_dot, FRAME_LINES, LINE_DOTS};

verus! {

/// Index in the 16 KiB video memory of bus address `addr`: 13 bits of it,
/// in the bank that the bank register selects.
pub open spec fn vram_index(addr: u16, bank: bool) -> int {
    addr as int % 0x2000 + if bank {
        0x2000int
    } else {
        0
    }
}

/// Index in OAM of bus address `addr`.
pub open spec fn oam_index(addr: u16) -> int {
    addr as int % 256
}

proof fn lemma_tile_map_address(id: u16)
    by (bit_vector)
    requires
        id < 0x400,
    ensures
        0x9800u16 | id == 0x9800 + id,
        0x9C00u16 | id == 0x9C00 + id,
{
}

proof fn lemma_tile_map_index(row: u8, col: u8)
    by (bit_vector)
    requires
        row < 32,
        col < 32,
    ensures
        ((row as u16) << 5u16) | (col as u16) == row * 32 + col,
        ((row as u16) << 5u16) | (col as u16) < 0x400,
{
}

proof fn lemma_tile_data_address(id: u8, offset: u8)
    by (bit_vector)
    requires
        offset < 16,
    ensures
        0x8000u16 | ((id as u16) << 4u16) | (offset as u16) == 0x8000 + id * 16 + offset,
        id < 128 ==> 0x9000u16 | ((id as u16) << 4u16) | (offset as u16) == 0x9000 + id * 16
            + offset,
        id >= 128 ==> 0x8800u16 | (((id as u16) << 4u16) & 0x7FF) | (offset as u16) == 0x8800 + (
        id - 128) * 16 + offset,
{
}

proof fn lemma_small_fields(v: u8, b: u8)
    by (bit_vector)
    requires
        b < 2,
    ensures
        v & 0x1F < 32,
        v >> 3u8 < 32,
        v & 7 < 8,
        v & 15 < 16,
        ((v & 7) << 1u8) | b < 16,
        ((v & 7) << 1u8) | b == (v & 7) * 2 + b,
{
}

/// An object's fetched row as it enters the object queue: reversed when
/// attribute bit 5 (horizontal flip) is set, and each pixel carrying the
/// palette (bit 4) and priority (bit 7) attribute bits.
pub open spec fn sprite_row(buffer: Seq<u16>, attrs: u8) -> Seq<u16> {
    Seq::new(
        8,
        |i: int|
            (if attrs & 0x20 != 0 {
                buffer[7 - i]
            } else {
                buffer[i]
            }) | ((attrs & 0x90) as u16),
    )
}

/// Whether the OAM entry with Y byte `top` and X byte `left` is on line
/// `line`: OAM holds Y + 16, so that 0 hides an object above the screen, and
/// an X byte of 0 keeps it off the line entirely.
pub open spec fn entry_on_line(line: u8, top: u8, left: u8, tall: bool) -> bool {
    line.wrapping_sub(top).wrapping_add(16) < (if tall {
        16u8
    } else {
        8u8
    }) && left > 0
}

/// The row a low bit plane starts: pixel `k` (from the left) takes bit
/// `7 - k` as bit 0 of its colour.
pub open spec fn low_plane_row(plane: u8) -> Seq<u16> {
    Seq::new(8, |k: int| ((plane >> (7 - k) as u8) & 1) as u16)
}

/// `row` with the high bit plane added: pixel `k` takes bit `7 - k` as bit
/// 1 of its colour.
pub open spec fn with_high_plane(row: Seq<u16>, plane: u8) -> Seq<u16> {
    Seq::new(8, |k: int| row[k] | ((((plane >> (7 - k) as u8) & 1) as u16) << 1u16))
}

/// Address of byte `offset` of object tile `id`.
pub open spec fn obj_tile_addr(id: u8, offset: u8) -> int {
    0x8000 + id * 16 + offset
}

/// Address of byte `offset` of background or window tile `id`: unsigned from
/// `0x8000` when LCDC bit 4 is set, else signed around `0x9000`.
pub open spec fn bg_win_tile_addr(unsigned_area: bool, id: u8, offset: u8) -> int {
    if unsigned_area {
        obj_tile_addr(id, offset)
    } else if id < 128 {
        0x9000 + id * 16 + offset
    } else {
        0x8800 + (id - 128) * 16 + offset
    }
}

/// Address of entry `id` of the tile map that `high_map` selects.
pub open spec fn tile_map_addr(high_map: bool, id: int) -> int {
    (if high_map {
        0x9C00int
    } else {
        0x9800
    }) + id
}

/// An array holding the eight pixels of `row`.
pub open spec fn row_array(row: Seq<u16>) -> [u16; 8] {
    let a = [0u16; 8usize];
    let a = spec_array_update(a, 0, row[0]);
    let a = spec_array_update(a, 1, row[1]);
    let a = spec_array_update(a, 2, row[2]);
    let a = spec_array_update(a, 3, row[3]);
    let a = spec_array_update(a, 4, row[4]);
    let a = spec_array_update(a, 5, row[5]);
    let a = spec_array_update(a, 6, row[6]);
    spec_array_update(a, 7, row[7])
}

proof fn lemma_row_array(row: Seq<u16>)
    requires
        row.len() == 8,
    ensures
        row_array(row)@ == row,
{
    assert(row_array(row)@ =~= row);
}

/// The queue after one pop: its front gone, or still empty.
pub open spec fn popped(q: Seq<u16>) -> Seq<u16> {
    if q.len() > 0 {
        q.drop_first()
    } else {
        q
    }
}

/// Byte offset in secondary OAM of the object, among its first `n`
/// entries, that covers column `x` and is leftmost: the smallest X byte, and
/// of equal ones the earliest entry.
pub open spec fn leftmost_sprite(sec: Seq<u8>, x: u8, n: int) -> Option<u8>
    decreases n,
{
    if n <= 0 {
        None
    } else {
        let best = leftmost_sprite(sec, x, n - 1);
        let i = n - 1;
        let sx = sec[4 * i + 1];
        if x.wrapping_sub(sx).wrapping_add(8) < 8 && (best is None || sx < sec[best->0 + 1]) {
            Some((4 * i) as u8)
        } else {
            best
        }
    }
}

/// Whether a write at `addr` can change what address `b` of the register
/// file reads: the register itself, STAT (whose LYC flag follows LYC), and
/// the other half of a colour palette's spec and data pair.
pub open spec fn write_touches(addr: u16, b: u16) -> bool {
    b == addr || b == 0xFF41 || ((addr == 0xFF68 || addr == 0xFF69) && (b == 0xFF68 || b
        == 0xFF69)) || ((addr == 0xFF6A || addr == 0xFF6B) && (b == 0xFF6A || b == 0xFF6B))
}

/// The bytes that the OAM scan of line `line` copies from the first `n`
/// entries of `oam`: each entry on the line, in OAM order, until ten are
/// taken.
pub open spec fn selection(oam: Seq<u8>, line: u8, tall: bool, n: int) -> Seq<u8>
    decreases n,
{
    if n <= 0 {
        Seq::empty()
    } else {
        let s = selection(oam, line, tall, n - 1);
        let e = n - 1;
        if s.len() < 40 && entry_on_line(line, oam[4 * e], oam[4 * e + 1], tall) {
            s + oam.subrange(4 * e, 4 * e + 4)
        } else {
            s
        }
    }
}

proof fn lemma_selection_len(oam: Seq<u8>, line: u8, tall: bool, n: int)
    requires
        oam.len() == 0xA0,
        n <= 40,
    ensures
        selection(oam, line, tall, n).len() <= 40,
        selection(oam, line, tall, n).len() % 4 == 0,
    decreases n,
{
    if n > 0 {
        lemma_selection_len(oam, line, tall, n - 1);
    }
}

/// Dots the fetch in progress has taken: two per step before the push.
pub open spec fn fetch_dots(d: DrawingState) -> int {
    match d.pixel_fetcher {
        PixelFetcherState::GetTile => d.cycle as int,
        PixelFetcherState::GetTileLow => 2 + d.cycle,
        PixelFetcherState::GetTileHigh => 4 + d.cycle,
        PixelFetcherState::Push => 6,
    }
}

/// The pixel processing unit.
pub struct Ppu {
    x: u8,
    y: u8,
    window_y_counter: u8,
    window_y_flag: bool,
    y_compare: u8,
    window_x: u8,
    window_y: u8,
    scroll_x: u8,
    scroll_y: u8,
    vram: [u8; 0x4000],
    vram_bank_register: bool,
    oam: [u8; 0xA0],
    secondary_oam: [u8; 40],
    cgb_bg_palette: CgbPalette,
    cgb_obj_palette: CgbPalette,
    greyscale_bg_palette: u8,
    greyscale_obj_palette: [u8; 2],
    lcd_control: u8,
    /// The writable interrupt-source bits 3..6 of STAT.
    lcd_status: u8,
    background_pixel_pipeline: PixelFifo,
    sprite_pixel_pipeline: PixelFifo,
    cycle: u16,
    fifo_mode: FifoMode,
    frame: Frame,
    /// The current frame has been handed out since the last dot.
    frame_taken: bool,
}

proof fn lemma_vram_address(addr: u16)
    by (bit_vector)
    ensures
        addr & 0x1FFF == addr % 0x2000,
        (addr & 0x1FFF) | 0x2000 == addr % 0x2000 + 0x2000,
{
}

proof fn lemma_low_byte(addr: u16)
    by (bit_vector)
    ensures
        addr & 0xFF == addr % 256,
{
}

proof fn lemma_status_bits(d: u8)
    by (bit_vector)
    ensures
        (d & 0x78) % 8 == 0,
        (d & 0x78) < 128,
        d & 0x78 == ((d / 8) % 16) * 8,
{
}

proof fn lemma_stat_read(s: u8, e: u8, m: u8)
    by (bit_vector)
    requires
        s % 8 == 0,
        s < 128,
        e == 0 || e == 4,
        m < 4,
    ensures
        (((s + e + m) as u8 / 4) % 2 == 1) == (e == 4),
        (s + e + m) as u8 % 4 == m,
        (s + e + m) as u8 & 0x78 == s,
{
}

impl Ppu {
    /// The invariant, with the OAM scan having read the entries of the
    /// first `scan_dots` dots of the line.
    closed spec fn inv(&self, scan_dots: int) -> bool {
        &&& self.y < 154
        &&& self.cycle < 456
        &&& self.x <= 160
        &&& self.frame@.len() == FRAME_BYTES
        &&& frame_encoded(self.frame@)
        &&& self.background_pixel_pipeline.wf()
        &&& self.sprite_pixel_pipeline.wf()
        &&& self.cgb_bg_palette.wf()
        &&& self.cgb_obj_palette.wf()
        &&& self.lcd_status % 8 == 0
        &&& self.lcd_status < 128
        &&& self.window_y_counter as int <= self.y as int + if self.fifo_mode is HBlank {
            1int
        } else {
            0
        }
        &&& (self.fifo_mode is VBlank <==> self.y >= 144)
        &&& self.y < 144 ==> (self.fifo_mode is OamScan <==> self.cycle < 80)
        &&& match self.fifo_mode {
            FifoMode::OamScan(s) => {
                &&& s.oam_pointer == 4 * (scan_dots / 2)
                &&& s.secondary_oam_pointer <= 40
                &&& s.secondary_oam_pointer % 4 == 0
                &&& self.x == 0
                &&& self.background_pixel_pipeline@.len() == 0
            },
            FifoMode::Drawing(d) => {
                &&& self.x < 160
                &&& d.sprite_idx <= 36
                &&& d.sprite_idx % 4 == 0
                &&& self.drawing_timing(d, scan_dots - 1)
            },
            FifoMode::HBlank => self.x == 160 && scan_dots - 1 >= 252,
            FifoMode::VBlank => self.x == 0,
        }
    }

    /// How far drawing can have come by the end of dot `c`. The fetcher has
    /// spent at most one dot per step since dot 80; the first, discarded
    /// fetch ends no earlier than dot 86; and since the first row was loaded,
    /// at dot 93 or later, at most one pixel a dot went out.
    closed spec fn drawing_timing(&self, d: DrawingState, c: int) -> bool {
        let loaded = self.x > 0 || self.background_pixel_pipeline@.len() > 0;
        &&& d.cycle <= 1
        &&& !d.primed ==> !loaded && fetch_dots(d) <= c - 79
        &&& d.primed && !loaded ==> fetch_dots(d) + 86 <= c
        &&& loaded ==> d.primed && c >= 92 + self.x
    }

    /// The invariant between two dots.
    pub closed spec fn wf(&self) -> bool {
        self.inv(self.cycle + 1)
    }

    /// Whether the mode (drawing) blocks the video memory port.
    pub open spec fn vram_blocked(&self) -> bool {
        self.spec_mode_number() == 3
    }

    /// Whether the mode (OAM scan or drawing) blocks the OAM port.
    pub open spec fn oam_blocked(&self) -> bool {
        self.spec_mode_number() == 2 || self.spec_mode_number() == 3
    }

    /// Position, mode, frame, bank and every register as it reads agree.
    pub open spec fn same_outside_memory(a: &Ppu, b: &Ppu) -> bool {
        &&& a.spec_y() == b.spec_y()
        &&& a.spec_cycle() == b.spec_cycle()
        &&& a.spec_x() == b.spec_x()
        &&& a.spec_mode_number() == b.spec_mode_number()
        &&& a.spec_frame() == b.spec_frame()
        &&& a.spec_frame_taken() == b.spec_frame_taken()
        &&& a.spec_vram_bank() == b.spec_vram_bank()
        &&& forall|addr: u16| #[trigger] a.spec_read(addr) == b.spec_read(addr)
    }

    /// Position, registers and memories other than video memory and OAM
    /// agree.
    pub closed spec fn same_but_memory(a: &Ppu, b: &Ppu) -> bool {
        &&& a.x == b.x
        &&& a.y == b.y
        &&& a.cycle == b.cycle
        &&& a.window_y_counter == b.window_y_counter
        &&& a.window_y_flag == b.window_y_flag
        &&& a.y_compare == b.y_compare
        &&& a.window_x == b.window_x
        &&& a.window_y == b.window_y
        &&& a.scroll_x == b.scroll_x
        &&& a.scroll_y == b.scroll_y
        &&& a.vram_bank_register == b.vram_bank_register
        &&& a.secondary_oam == b.secondary_oam
        &&& a.cgb_bg_palette == b.cgb_bg_palette
        &&& a.cgb_obj_palette == b.cgb_obj_palette
        &&& a.greyscale_bg_palette == b.greyscale_bg_palette
        &&& a.greyscale_obj_palette == b.greyscale_obj_palette
        &&& a.lcd_control == b.lcd_control
        &&& a.lcd_status == b.lcd_status
        &&& a.background_pixel_pipeline == b.background_pixel_pipeline
        &&& a.sprite_pixel_pipeline == b.sprite_pixel_pipeline
        &&& a.fifo_mode == b.fifo_mode
        &&& a.frame@ == b.frame@
        &&& a.frame_taken == b.frame_taken
    }

    /// Registers, memories, scanline, dot and frame hand-off agree: what a
    /// dot of drawing reads and does not write.
    pub closed spec fn same_inputs(a: &Ppu, b: &Ppu) -> bool {
        &&& a.y == b.y
        &&& a.cycle == b.cycle
        &&& a.y_compare == b.y_compare
        &&& a.window_x == b.window_x
        &&& a.window_y == b.window_y
        &&& a.scroll_x == b.scroll_x
        &&& a.scroll_y == b.scroll_y
        &&& a.vram == b.vram
        &&& a.vram_bank_register == b.vram_bank_register
        &&& a.oam == b.oam
        &&& a.cgb_bg_palette == b.cgb_bg_palette
        &&& a.cgb_obj_palette == b.cgb_obj_palette
        &&& a.greyscale_bg_palette == b.greyscale_bg_palette
        &&& a.greyscale_obj_palette == b.greyscale_obj_palette
        &&& a.lcd_control == b.lcd_control
        &&& a.lcd_status == b.lcd_status
        &&& a.frame_taken == b.frame_taken
    }


    /// The byte at bus address `addr` of the video memory bank in use.
    closed spec fn vram_at(&self, addr: int) -> u8 {
        self.vram@[vram_index(addr as u16, self.vram_bank_register)]
    }

    /// The tile index that a fetch in state `st` reads: byte 2 of the
    /// object's OAM entry; for the window the map entry at row
    /// `window_y_counter >> 3`, column `(fetcher_x - (window_x >> 3)) & 31`;
    /// for the background the entry at row `(y + scroll_y) >> 3`, column
    /// `((scroll_x >> 3) + fetcher_x) & 31`.
    closed spec fn tile_index_at(&self, st: DrawingState) -> u8 {
        if st.is_sprite {
            self.secondary_oam@[st.sprite_idx + 2]
        } else if st.is_window {
            let col = st.fetcher_x.wrapping_sub(self.window_x >> 3) & 0x1F;
            let row = self.window_y_counter >> 3;
            self.vram_at(
                tile_map_addr(
                    bit(self.lcd_control, LCDC_WINDOW_TILE_MAP),
                    (((row as u16) << 5u16) | (col as u16)) as int,
                ),
            )
        } else {
            let col = (self.scroll_x >> 3).wrapping_add(st.fetcher_x) & 0x1F;
            let row = self.y.wrapping_add(self.scroll_y) >> 3;
            self.vram_at(
                tile_map_addr(
                    bit(self.lcd_control, LCDC_BG_TILE_MAP),
                    (((row as u16) << 5u16) | (col as u16)) as int,
                ),
            )
        }
    }

    /// The row of an object tile that line `y` crosses, flipped by
    /// attribute bit 6.
    closed spec fn sprite_fine_y(&self, st: DrawingState) -> u8 {
        let mask: u8 = if bit(self.lcd_control, LCDC_OBJ_SIZE) {
            15
        } else {
            7
        };
        let top = self.secondary_oam@[st.sprite_idx as int];
        let fine_y = self.y.wrapping_sub(top).wrapping_add(16) & mask;
        if self.secondary_oam@[st.sprite_idx + 3] & 0x40 != 0 {
            (mask - fine_y) as u8
        } else {
            fine_y
        }
    }

    /// Bit plane `high` of the tile row that a fetch in state `st` reads.
    /// Objects use the unsigned area, and 8x16 objects the lower tile of the
    /// pair for rows 8..16; background and window rows come from
    /// `window_y_counter` or `y + scroll_y`.
    closed spec fn plane_at(&self, st: DrawingState, high: u8) -> u8 {
        if st.is_sprite {
            let fine_y = self.sprite_fine_y(st);
            let tile_id = if bit(self.lcd_control, LCDC_OBJ_SIZE) {
                (st.tile_idx & 0xFE) | ((fine_y & 0x08) >> 3u8)
            } else {
                st.tile_idx
            };
            self.vram_at(obj_tile_addr(tile_id, ((fine_y & 7) << 1u8) | high))
        } else {
            let line = if st.is_window {
                self.window_y_counter
            } else {
                self.y.wrapping_add(self.scroll_y)
            };
            self.vram_at(
                bg_win_tile_addr(
                    bit(self.lcd_control, LCDC_TILE_DATA),
                    st.tile_idx,
                    ((line & 7) << 1u8) | high,
                ),
            )
        }
    }

    /// The window flag during a drawing dot: set once a line matches WY.
    pub closed spec fn window_flag_now(&self) -> bool {
        self.window_y_flag || self.y == self.window_y
    }

    /// The fetcher `st` after the window and object triggers of a drawing
    /// dot: the window restarts the fetch at column 0 once the line reached
    /// WY and x >= WX - 7; an object covering the current column, the
    /// leftmost one, starts an object fetch.
    pub closed spec fn triggered(&self, st: DrawingState) -> DrawingState {
        let st1 = if !st.is_window && bit(self.lcd_control, LCDC_WINDOW_ENABLE)
            && self.window_flag_now() && self.x >= self.window_x.wrapping_sub(7) {
            DrawingState { is_window: true, fetcher_x: 0, ..reset_of(st) }
        } else {
            st
        };
        if !st1.is_sprite && bit(self.lcd_control, LCDC_OBJ_ENABLE) {
            match leftmost_sprite(self.secondary_oam@, self.x, 10) {
                Some(k) => DrawingState { is_sprite: true, sprite_idx: k, ..reset_of(st1) },
                None => st1,
            }
        } else {
            st1
        }
    }

    /// Pixels the fine horizontal scroll drops from a background row.
    closed spec fn bg_drain(&self, st: DrawingState) -> int {
        if !st.is_window && self.x == 0 {
            self.scroll_x as int % 8
        } else {
            0
        }
    }

    /// Pixels the left edge clips from the object being pushed.
    closed spec fn sprite_drain(&self, st: DrawingState) -> int {
        let sx = self.secondary_oam@[st.sprite_idx + 1];
        if sx < 8 {
            8 - sx as int
        } else {
            0
        }
    }

    /// The fetcher after one step from `st`.
    pub closed spec fn fetched_state(&self, st: DrawingState) -> DrawingState {
        match st.pixel_fetcher {
            PixelFetcherState::GetTile => if st.cycle == 0 {
                DrawingState { tile_idx: self.tile_index_at(st), cycle: 1, ..st }
            } else {
                DrawingState { pixel_fetcher: PixelFetcherState::GetTileLow, cycle: 0, ..st }
            },
            PixelFetcherState::GetTileLow => if st.cycle == 0 {
                DrawingState {
                    buffer: row_array(low_plane_row(self.plane_at(st, 0))),
                    cycle: 1,
                    ..st
                }
            } else {
                DrawingState { pixel_fetcher: PixelFetcherState::GetTileHigh, cycle: 0, ..st }
            },
            PixelFetcherState::GetTileHigh => if st.cycle == 0 {
                DrawingState {
                    buffer: row_array(with_high_plane(st.buffer@, self.plane_at(st, 1))),
                    cycle: 1,
                    ..st
                }
            } else {
                DrawingState { pixel_fetcher: PixelFetcherState::Push, cycle: 0, ..st }
            },
            PixelFetcherState::Push => if st.is_sprite {
                DrawingState {
                    pixel_fetcher: PixelFetcherState::GetTile,
                    cycle: 0,
                    is_sprite: false,
                    ..st
                }
            } else if !st.primed {
                DrawingState {
                    pixel_fetcher: PixelFetcherState::GetTile,
                    cycle: 0,
                    primed: true,
                    ..st
                }
            } else if self.background_pixel_pipeline@.len() == 0 {
                DrawingState {
                    pixel_fetcher: PixelFetcherState::GetTile,
                    cycle: 0,
                    fetcher_x: st.fetcher_x.wrapping_add(1),
                    ..st
                }
            } else {
                st
            },
        }
    }

    /// The background queue after one fetcher step from `st`: a pushed row
    /// fills the empty queue, less the fine scroll; the line's first row is
    /// discarded.
    pub closed spec fn bg_after_fetch(&self, st: DrawingState) -> Seq<u16> {
        if st.pixel_fetcher is Push && !st.is_sprite && st.primed
            && self.background_pixel_pipeline@.len() == 0 {
            st.buffer@.skip(self.bg_drain(st))
        } else {
            self.background_pixel_pipeline@
        }
    }

    /// The object queue after one fetcher step from `st`: a pushed object
    /// row, less the pixels the left edge clips, is laid under the pixels
    /// already queued.
    pub closed spec fn sp_after_fetch(&self, st: DrawingState) -> Seq<u16> {
        if st.pixel_fetcher is Push && st.is_sprite {
            overlay(
                self.sprite_pixel_pipeline@,
                sprite_row(st.buffer@, self.secondary_oam@[st.sprite_idx + 3]).skip(
                    self.sprite_drain(st),
                ),
            )
        } else {
            self.sprite_pixel_pipeline@
        }
    }

    /// Secondary OAM after one fetcher step from `st`: a pushed object's X
    /// byte is cleared.
    pub closed spec fn sec_after_fetch(&self, st: DrawingState) -> Seq<u8> {
        if st.pixel_fetcher is Push && st.is_sprite {
            self.secondary_oam@.update(st.sprite_idx + 1, 0)
        } else {
            self.secondary_oam@
        }
    }

    /// Whether this drawing dot puts a pixel out: after the triggers and the
    /// fetcher step the background queue holds a pixel and no object fetch
    /// is pending.
    pub closed spec fn pixel_ready(&self) -> bool {
        match self.fifo_mode {
            FifoMode::Drawing(st) => {
                let t = self.triggered(st);
                !self.fetched_state(t).is_sprite && self.bg_after_fetch(t).len() > 0
            },
            _ => false,
        }
    }

    /// The 2-bit colour of the pixel this drawing dot puts out: the mix of
    /// the fronts of both queues after the fetcher step.
    pub closed spec fn pixel_color(&self) -> u8 {
        match self.fifo_mode {
            FifoMode::Drawing(st) => {
                let t = self.triggered(st);
                spec_mix(
                    self.lcd_control,
                    self.greyscale_bg_palette,
                    self.greyscale_obj_palette[0],
                    self.greyscale_obj_palette[1],
                    front(self.bg_after_fetch(t)),
                    front(self.sp_after_fetch(t)),
                )
            },
            _ => 0,
        }
    }

    /// The exact work of a drawing dot from `a` to `b`, with `m` the mode
    /// after it: the triggers and a fetcher step; then, if a pixel is ready,
    /// the pixel at `(a.x, a.y)` in the shade of its mixed colour and a move
    /// right, ending the line's drawing in H-Blank at column 160.
    pub closed spec fn drawing_dot(a: &Ppu, b: &Ppu, m: FifoMode) -> bool {
        match a.fifo_mode {
            FifoMode::Drawing(st) => {
                let t = a.triggered(st);
                let f = a.fetched_state(t);
                &&& b.window_y_flag == a.window_flag_now()
                &&& a.pixel_ready() ==> {
                    &&& b.x == a.x + 1
                    &&& b.frame@ == put_pixel(
                        a.frame@,
                        a.y * FRAME_WIDTH + a.x,
                        shade(a.pixel_color() as int),
                    )
                }
                &&& !a.pixel_ready() ==> {
                    &&& b.x == a.x
                    &&& b.frame@ == a.frame@
                    &&& m == FifoMode::Drawing(f)
                    &&& b.background_pixel_pipeline@ == a.bg_after_fetch(t)
                    &&& b.sprite_pixel_pipeline@ == a.sp_after_fetch(t)
                    &&& b.secondary_oam@ == a.sec_after_fetch(t)
                    &&& b.window_y_counter == a.window_y_counter
                }
                &&& a.pixel_ready() && a.x + 1 < 160 ==> {
                    &&& m == FifoMode::Drawing(f)
                    &&& b.background_pixel_pipeline@ == popped(a.bg_after_fetch(t))
                    &&& b.sprite_pixel_pipeline@ == popped(a.sp_after_fetch(t))
                    &&& b.secondary_oam@ == a.sec_after_fetch(t)
                    &&& b.window_y_counter == a.window_y_counter
                }
                &&& a.pixel_ready() && a.x + 1 == 160 ==> {
                    &&& m is HBlank
                    &&& b.background_pixel_pipeline@.len() == 0
                    &&& b.sprite_pixel_pipeline@.len() == 0
                    &&& forall|i: int| 0 <= i < 40 ==> #[trigger] b.secondary_oam@[i] == 0
                    &&& b.window_y_counter == a.window_y_counter + if f.is_window {
                        1int
                    } else {
                        0
                    }
                }
            },
            _ => false,
        }
    }

    /// Whether the entry under inspection is on this line, as its copy dot
    /// sees it: the result of its test dot, or, where that dot was not run
    /// (the first line after power-on), a test of the entry as it is now.
    pub closed spec fn scan_visible(&self, st: OamScanState) -> bool {
        if st.tested {
            st.is_visible
        } else {
            entry_on_line(
                self.y,
                self.oam@[st.oam_pointer as int],
                self.oam@[st.oam_pointer + 1],
                bit(self.lcd_control, LCDC_OBJ_SIZE),
            )
        }
    }

    /// The OAM scan state after a scan dot from `st`: even dots test the
    /// entry against the line, odd dots move to the next entry.
    pub closed spec fn scan_after(&self, st: OamScanState) -> OamScanState {
        if self.cycle % 2 == 0 {
            OamScanState {
                is_visible: entry_on_line(
                    self.y,
                    self.oam@[st.oam_pointer as int],
                    self.oam@[st.oam_pointer + 1],
                    bit(self.lcd_control, LCDC_OBJ_SIZE),
                ),
                tested: true,
                ..st
            }
        } else {
            OamScanState {
                oam_pointer: (st.oam_pointer + 4) as usize,
                secondary_oam_pointer: if self.scan_visible(st) && st.secondary_oam_pointer < 40 {
                    (st.secondary_oam_pointer + 4) as usize
                } else {
                    st.secondary_oam_pointer
                },
                is_visible: false,
                tested: false,
            }
        }
    }

    /// Secondary OAM after a scan dot from `st`: on an odd dot a visible
    /// entry is appended while there is room for it (ten entries).
    pub closed spec fn scan_sec_after(&self, st: OamScanState) -> Seq<u8> {
        let p = st.oam_pointer as int;
        let q = st.secondary_oam_pointer as int;
        if self.cycle % 2 == 1 && self.scan_visible(st) && q < 40 {
            self.secondary_oam@.update(q, self.oam@[p]).update(q + 1, self.oam@[p + 1]).update(
                q + 2,
                self.oam@[p + 2],
            ).update(q + 3, self.oam@[p + 3])
        } else {
            self.secondary_oam@
        }
    }

    /// The exact work of one dot of the mode `a` is in, leading to `b`.
    pub closed spec fn dot_work(a: &Ppu, b: &Ppu) -> bool {
        match a.fifo_mode {
            FifoMode::OamScan(st) => {
                &&& *b == (Ppu {
                    secondary_oam: b.secondary_oam,
                    fifo_mode: FifoMode::OamScan(a.scan_after(st)),
                    ..*a
                })
                &&& b.secondary_oam@ == a.scan_sec_after(st)
            },
            FifoMode::Drawing(_) => Self::same_inputs(a, b) && Self::drawing_dot(a, b, b.fifo_mode),
            _ => *b == *a,
        }
    }

    /// The unit as the work of the next dot finds it: the dot counter
    /// advanced; at dot 456 the next line started with empty pixel queues
    /// (the next frame after line 153, with the window line counter and flag
    /// cleared), in the OAM scan or V-Blank; at dot 80 of a visible line,
    /// drawing begun.
    pub closed spec fn dot_start(&self) -> Ppu {
        if self.cycle + 1 == LINE_DOTS {
            let y = if self.y + 1 == FRAME_LINES {
                0
            } else {
                self.y + 1
            };
            Ppu {
                cycle: 0,
                x: 0,
                y: y as u8,
                background_pixel_pipeline: PixelFifo::empty(),
                sprite_pixel_pipeline: PixelFifo::empty(),
                window_y_counter: if y == 0 {
                    0
                } else {
                    self.window_y_counter
                },
                window_y_flag: if y == 0 {
                    false
                } else {
                    self.window_y_flag
                },
                fifo_mode: if y >= 144 {
                    FifoMode::VBlank
                } else {
                    FifoMode::OamScan(
                        OamScanState {
                            oam_pointer: 0,
                            secondary_oam_pointer: 0,
                            is_visible: false,
                            tested: false,
                        },
                    )
                },
                frame_taken: false,
                ..*self
            }
        } else {
            Ppu {
                cycle: (self.cycle + 1) as u16,
                fifo_mode: if self.y < 144 && self.cycle + 1 == 80 {
                    FifoMode::Drawing(drawing_start())
                } else {
                    self.fifo_mode
                },
                frame_taken: false,
                ..*self
            }
        }
    }

    /// The STAT register as it reads: the interrupt sources, the LYC=LY flag
    /// in bit 2 and the mode in bits 0..1.
    pub open spec fn spec_stat(&self) -> u8 {
        (self.spec_stat_sources() + if self.spec_y() == self.spec_y_compare() {
            4u8
        } else {
            0u8
        } + self.spec_mode_number()) as u8
    }

    /// The byte at `addr` of the register file, as it reads.
    pub open spec fn spec_read(&self, addr: u16) -> u8 {
        if addr == 0xFF40 {
            self.spec_lcd_control()
        } else if addr == 0xFF41 {
            self.spec_stat()
        } else if addr == 0xFF42 {
            self.spec_scroll_y()
        } else if addr == 0xFF43 {
            self.spec_scroll_x()
        } else if addr == 0xFF44 {
            self.spec_y()
        } else if addr == 0xFF45 {
            self.spec_y_compare()
        } else if addr == 0xFF47 {
            self.spec_bg_palette()
        } else if addr == 0xFF48 {
            self.spec_obj_palette(0)
        } else if addr == 0xFF49 {
            self.spec_obj_palette(1)
        } else if addr == 0xFF4A {
            self.spec_window_y()
        } else if addr == 0xFF4B {
            self.spec_window_x()
        } else if addr == 0xFF4C {
            0xFF
        } else if addr == 0xFF68 {
            self.spec_cgb_bg_spec()
        } else if addr == 0xFF69 {
            if self.vram_blocked() {
                0xFF
            } else {
                self.spec_cgb_bg_data()
            }
        } else if addr == 0xFF6A {
            self.spec_cgb_obj_spec()
        } else if addr == 0xFF6B {
            if self.vram_blocked() {
                0xFF
            } else {
                self.spec_cgb_obj_data()
            }
        } else {
            0
        }
    }

    pub closed spec fn spec_lcd_control(&self) -> u8 {
        self.lcd_control
    }

    pub closed spec fn spec_scroll_x(&self) -> u8 {
        self.scroll_x
    }

    pub closed spec fn spec_scroll_y(&self) -> u8 {
        self.scroll_y
    }

    pub closed spec fn spec_window_x(&self) -> u8 {
        self.window_x
    }

    pub closed spec fn spec_window_y(&self) -> u8 {
        self.window_y
    }

    pub closed spec fn spec_bg_palette(&self) -> u8 {
        self.greyscale_bg_palette
    }

    /// Object palette `i` (0 or 1).
    pub closed spec fn spec_obj_palette(&self, i: int) -> u8 {
        self.greyscale_obj_palette[i]
    }

    /// The colour background palette's spec register.
    pub closed spec fn spec_cgb_bg_spec(&self) -> u8 {
        self.cgb_bg_palette.spec_read_spec()
    }

    /// The colour background palette byte under its index.
    pub closed spec fn spec_cgb_bg_data(&self) -> u8 {
        self.cgb_bg_palette.data@[self.cgb_bg_palette.index as int]
    }

    /// The colour object palette's spec register.
    pub closed spec fn spec_cgb_obj_spec(&self) -> u8 {
        self.cgb_obj_palette.spec_read_spec()
    }

    /// The colour object palette byte under its index.
    pub closed spec fn spec_cgb_obj_data(&self) -> u8 {
        self.cgb_obj_palette.data@[self.cgb_obj_palette.index as int]
    }

    /// The palette memory after a data write, blocked while drawing.
    pub closed spec fn palette_after_write(&self, p: CgbPalette, data: u8) -> CgbPalette {
        if self.vram_blocked() {
            p
        } else {
            CgbPalette {
                data: spec_array_update(p.data, p.index as int, data),
                index: if p.auto_increment {
                    ((p.index + 1) % 64) as u8
                } else {
                    p.index
                },
                ..p
            }
        }
    }

    /// The unit after `data` is written at `addr` of the register file.
    pub closed spec fn spec_write(&self, addr: u16, data: u8) -> Ppu {
        if addr == 0xFF40 {
            Ppu { lcd_control: data, ..*self }
        } else if addr == 0xFF41 {
            Ppu { lcd_status: ((data / 8) % 16 * 8) as u8, ..*self }
        } else if addr == 0xFF42 {
            Ppu { scroll_y: data, ..*self }
        } else if addr == 0xFF43 {
            Ppu { scroll_x: data, ..*self }
        } else if addr == 0xFF45 {
            Ppu { y_compare: data, ..*self }
        } else if addr == 0xFF47 {
            Ppu { greyscale_bg_palette: data, ..*self }
        } else if addr == 0xFF48 || addr == 0xFF49 {
            Ppu {
                greyscale_obj_palette: spec_array_update(
                    self.greyscale_obj_palette,
                    addr - 0xFF48,
                    data,
                ),
                ..*self
            }
        } else if addr == 0xFF4A {
            Ppu { window_y: data, ..*self }
        } else if addr == 0xFF4B {
            Ppu { window_x: data, ..*self }
        } else if addr == 0xFF68 {
            Ppu {
                cgb_bg_palette: CgbPalette {
                    index: data % 64,
                    auto_increment: data >= 128,
                    ..self.cgb_bg_palette
                },
                ..*self
            }
        } else if addr == 0xFF69 {
            Ppu { cgb_bg_palette: self.palette_after_write(self.cgb_bg_palette, data), ..*self }
        } else if addr == 0xFF6A {
            Ppu {
                cgb_obj_palette: CgbPalette {
                    index: data % 64,
                    auto_increment: data >= 128,
                    ..self.cgb_obj_palette
                },
                ..*self
            }
        } else if addr == 0xFF6B {
            Ppu { cgb_obj_palette: self.palette_after_write(self.cgb_obj_palette, data), ..*self }
        } else {
            *self
        }
    }

    /// The current scanline.
    pub closed spec fn spec_y(&self) -> u8 {
        self.y
    }

    /// The dot within the current scanline.
    pub closed spec fn spec_cycle(&self) -> u16 {
        self.cycle
    }

    /// The frame being drawn.
    pub closed spec fn spec_frame(&self) -> Seq<u8> {
        self.frame@
    }

    /// The mode number that STAT reports: 0 H-Blank, 1 V-Blank, 2 OAM scan,
    /// 3 drawing.
    pub closed spec fn spec_mode_number(&self) -> u8 {
        mode_number(self.fifo_mode)
    }

    /// The video memory bank register.
    pub closed spec fn spec_vram_bank(&self) -> bool {
        self.vram_bank_register
    }

    /// The column of the next pixel out.
    pub closed spec fn spec_x(&self) -> u8 {
        self.x
    }

    /// The interrupt-source bits of STAT.
    pub closed spec fn spec_stat_sources(&self) -> u8 {
        self.lcd_status
    }

    /// The LYC register.
    pub closed spec fn spec_y_compare(&self) -> u8 {
        self.y_compare
    }

    /// Every register of the file and both memories agree.
    pub closed spec fn same_registers(a: &Ppu, b: &Ppu) -> bool {
        &&& a.y_compare == b.y_compare
        &&& a.window_x == b.window_x
        &&& a.window_y == b.window_y
        &&& a.scroll_x == b.scroll_x
        &&& a.scroll_y == b.scroll_y
        &&& a.vram == b.vram
        &&& a.vram_bank_register == b.vram_bank_register
        &&& a.oam == b.oam
        &&& a.cgb_bg_palette == b.cgb_bg_palette
        &&& a.cgb_obj_palette == b.cgb_obj_palette
        &&& a.greyscale_bg_palette == b.greyscale_bg_palette
        &&& a.greyscale_obj_palette == b.greyscale_obj_palette
        &&& a.lcd_control == b.lcd_control
        &&& a.lcd_status == b.lcd_status
    }

    /// Video memory, both banks.
    pub closed spec fn spec_vram(&self) -> Seq<u8> {
        self.vram@
    }

    /// Object attribute memory.
    pub closed spec fn spec_oam(&self) -> Seq<u8> {
        self.oam@
    }

    /// The frame was handed out at this dot already.
    pub closed spec fn spec_frame_taken(&self) -> bool {
        self.frame_taken
    }

    /// The state at power-on: top of a frame in the OAM scan, every
    /// register clear, memories zero, the colour palettes white and a blank
    /// frame not yet handed out.
    pub open spec fn powered_on(&self) -> bool {
        &&& self.wf()
        &&& self.spec_y() == 0
        &&& self.spec_cycle() == 0
        &&& self.spec_x() == 0
        &&& self.spec_mode_number() == 2
        &&& !self.spec_vram_bank()
        &&& !self.spec_frame_taken()
        &&& self.spec_frame() == Seq::new(FRAME_BYTES as nat, |i: int| 0u8)
        &&& self.spec_vram() == Seq::new(0x4000, |i: int| 0u8)
        &&& self.spec_oam() == Seq::new(0xA0, |i: int| 0u8)
        &&& forall|addr: u16|
            #[trigger] self.spec_read(addr) == if addr == 0xFF41 {
                6u8
            } else if addr == 0xFF4C || addr == 0xFF69 || addr == 0xFF6B {
                0xFFu8
            } else {
                0u8
            }
        &&& self.spec_cgb_bg_palette_data() == Seq::new(64, |i: int| 0xFFu8)
        &&& self.spec_cgb_obj_palette_data() == Seq::new(64, |i: int| 0xFFu8)
    }

    /// The colour background palette memory.
    pub closed spec fn spec_cgb_bg_palette_data(&self) -> Seq<u8> {
        self.cgb_bg_palette.data@
    }

    /// The colour object palette memory.
    pub closed spec fn spec_cgb_obj_palette_data(&self) -> Seq<u8> {
        self.cgb_obj_palette.data@
    }

    /// A unit at the top of a frame, with every register clear, the colour
    /// palettes white and a blank frame.
    pub fn new() -> (r: Ppu)
        ensures
            r.powered_on(),
            r.scan_on_track(),
    {
        let frame = allocate_new_frame();
        let r = Ppu {
            x: 0,
            y: 0,
            window_y_counter: 0,
            window_y_flag: false,
            y_compare: 0,
            window_x: 0,
            window_y: 0,
            scroll_x: 0,
            scroll_y: 0,
            vram: [0u8; 0x4000],
            vram_bank_register: false,
            oam: [0u8; 0xA0],
            secondary_oam: [0u8; 40],
            cgb_bg_palette: CgbPalette::new(0xFF),
            cgb_obj_palette: CgbPalette::new(0xFF),
            greyscale_bg_palette: 0,
            greyscale_obj_palette: [0u8; 2],
            lcd_control: 0,
            lcd_status: 0,
            background_pixel_pipeline: PixelFifo::new(),
            sprite_pixel_pipeline: PixelFifo::new(),
            cycle: 0,
            fifo_mode: FifoMode::OamScan(OamScanState::new()),
            frame,
            frame_taken: false,
        };
        assert(r.vram@ =~= Seq::new(0x4000, |i: int| 0u8));
        assert(r.oam@ =~= Seq::new(0xA0, |i: int| 0u8));
        assert(r.greyscale_obj_palette[0] == 0 && r.greyscale_obj_palette[1] == 0);
        assert(r.cgb_bg_palette.data@[0] == 0xFF && r.cgb_obj_palette.data@[0] == 0xFF);
        assert(r.cgb_bg_palette.data@ =~= Seq::new(64, |i: int| 0xFFu8));
        assert(r.cgb_obj_palette.data@ =~= Seq::new(64, |i: int| 0xFFu8));
        proof {
            r.lemma_scan_start();
        }
        r
    }

    /// Writes video memory, unless the drawing mode holds it.
    pub fn write_vram(&mut self, addr: u16, data: u8)
        requires
            old(self).wf(),
        ensures
            final(self).wf(),
            Self::same_but_memory(old(self), final(self)),
            Self::same_outside_memory(old(self), final(self)),
            final(self).spec_oam() == old(self).spec_oam(),
            final(self).spec_vram() == if old(self).vram_blocked() {
                old(self).spec_vram()
            } else {
                old(self).spec_vram().update(vram_index(addr, old(self).spec_vram_bank()), data)
            },
    {
        match self.fifo_mode {
            FifoMode::Drawing(_) => {},
            _ => {
                let i = self.vram_offset(addr);
                self.vram[i] = data;
            },
        }
    }

    /// Reads video memory; `0xFF` while the drawing mode holds it.
    pub fn read_vram(&self, addr: u16) -> (r: u8)
        ensures
            r == if self.vram_blocked() {
                0xFFu8
            } else {
                self.spec_vram()[vram_index(addr, self.spec_vram_bank())]
            },
    {
        match self.fifo_mode {
            FifoMode::Drawing(_) => 0xFF,
            _ => self.read_vram_unblocked(addr),
        }
    }

    fn vram_offset(&self, addr: u16) -> (r: usize)
        ensures
            r == vram_index(addr, self.vram_bank_register),
            r < 0x4000,
    {
        proof {
            lemma_vram_address(addr);
        }
        let a = if self.vram_bank_register {
            (addr & 0x1FFF) | 0x2000
        } else {
            addr & 0x1FFF
        };
        a as usize
    }

    fn read_vram_unblocked(&self, addr: u16) -> (r: u8)
        ensures
            r == self.vram@[vram_index(addr, self.vram_bank_register)],
    {
        self.vram[self.vram_offset(addr)]
    }

    /// Writes OAM, unless the scan or drawing mode holds it and the write
    /// does not come from the OAM DMA (`force`).
    pub fn write_oam(&mut self, addr: u16, data: u8, force: bool)
        requires
            old(self).wf(),
            oam_index(addr) < 0xA0,
        ensures
            final(self).wf(),
            Self::same_but_memory(old(self), final(self)),
            Self::same_outside_memory(old(self), final(self)),
            final(self).spec_vram() == old(self).spec_vram(),
            final(self).spec_oam() == if old(self).oam_blocked() && !force {
                old(self).spec_oam()
            } else {
                old(self).spec_oam().update(oam_index(addr), data)
            },
    {
        let blocked = match self.fifo_mode {
            FifoMode::OamScan(_) | FifoMode::Drawing(_) => true,
            _ => false,
        };
        if force || !blocked {
            proof {
                lemma_low_byte(addr);
            }
            self.oam[(addr & 0xFF) as usize] = data;
        }
    }

    /// Reads OAM; `0xFF` while the scan or drawing mode holds it, unless the
    /// read comes from the OAM DMA (`force`).
    pub fn read_oam(&self, addr: u16, force: bool) -> (r: u8)
        requires
            oam_index(addr) < 0xA0,
        ensures
            r == if self.oam_blocked() && !force {
                0xFFu8
            } else {
                self.spec_oam()[oam_index(addr)]
            },
    {
        let blocked = match self.fifo_mode {
            FifoMode::OamScan(_) | FifoMode::Drawing(_) => true,
            _ => false,
        };
        if blocked && !force {
            0xFF
        } else {
            proof {
                lemma_low_byte(addr);
            }
            self.oam[(addr & 0xFF) as usize]
        }
    }

    /// Writes a register of the file at `0xFF40..=0xFF6B`; other addresses,
    /// LY and the locked KEY0 ignore the write.
    pub fn write(&mut self, addr: u16, data: u8)
        requires
            old(self).wf(),
        ensures
            final(self).wf(),
            *final(self) == old(self).spec_write(addr, data),
            addr == 0xFF40 || addr == 0xFF42 || addr == 0xFF43 || addr == 0xFF45 || addr == 0xFF47
                || addr == 0xFF48 || addr == 0xFF49 || addr == 0xFF4A || addr == 0xFF4B
                ==> final(self).spec_read(addr) == data,
            addr == 0xFF41 ==> final(self).spec_stat_sources() == (data / 8) % 16 * 8,
            addr != 0xFF41 ==> final(self).spec_stat_sources() == old(self).spec_stat_sources(),
            addr == 0xFF68 ==> final(self).spec_cgb_bg_spec() == data % 64 + if data >= 128 {
                128int
            } else {
                0
            },
            addr == 0xFF6A ==> final(self).spec_cgb_obj_spec() == data % 64 + if data >= 128 {
                128int
            } else {
                0
            },
            forall|b: u16|
                !write_touches(addr, b) ==> #[trigger] final(self).spec_read(b) == old(
                    self,
                ).spec_read(b),
            addr != 0xFF69 ==> final(self).spec_cgb_bg_palette_data() == old(
                self,
            ).spec_cgb_bg_palette_data(),
            addr != 0xFF6B ==> final(self).spec_cgb_obj_palette_data() == old(
                self,
            ).spec_cgb_obj_palette_data(),
            addr == 0xFF69 && !old(self).vram_blocked() ==> {
                let spec = old(self).spec_cgb_bg_spec();
                &&& final(self).spec_cgb_bg_palette_data() == old(
                    self,
                ).spec_cgb_bg_palette_data().update(spec as int % 64, data)
                &&& final(self).spec_cgb_bg_spec() == if spec >= 128 {
                    128 + (spec % 64 + 1) % 64
                } else {
                    spec as int
                }
            },
            addr == 0xFF6B && !old(self).vram_blocked() ==> {
                let spec = old(self).spec_cgb_obj_spec();
                &&& final(self).spec_cgb_obj_palette_data() == old(
                    self,
                ).spec_cgb_obj_palette_data().update(spec as int % 64, data)
                &&& final(self).spec_cgb_obj_spec() == if spec >= 128 {
                    128 + (spec % 64 + 1) % 64
                } else {
                    spec as int
                }
            },
            (addr == 0xFF69 || addr == 0xFF6B) && old(self).vram_blocked() ==> *final(self) == *old(
                self,
            ),
            final(self).spec_y() == old(self).spec_y(),
            final(self).spec_cycle() == old(self).spec_cycle(),
            final(self).spec_x() == old(self).spec_x(),
            final(self).spec_mode_number() == old(self).spec_mode_number(),
            final(self).spec_frame() == old(self).spec_frame(),
            final(self).spec_frame_taken() == old(self).spec_frame_taken(),
            final(self).spec_vram_bank() == old(self).spec_vram_bank(),
            final(self).spec_vram() == old(self).spec_vram(),
            final(self).spec_oam() == old(self).spec_oam(),
    {
        let blocked = match self.fifo_mode {
            FifoMode::Drawing(_) => true,
            _ => false,
        };
        match addr {
            0xFF40 => self.write_lcd_control(data),
            0xFF41 => self.write_lcd_status(data),
            0xFF42 => self.scroll_y = data,
            0xFF43 => self.scroll_x = data,
            0xFF45 => self.y_compare = data,
            0xFF47 => self.greyscale_bg_palette = data,
            0xFF48 | 0xFF49 => {
                self.greyscale_obj_palette[(addr - 0xFF48) as usize] = data;
                assert(self.greyscale_obj_palette =~= spec_array_update(
                    old(self).greyscale_obj_palette,
                    addr - 0xFF48,
                    data,
                ));
            },
            0xFF4A => self.window_y = data,
            0xFF4B => self.window_x = data,
            0xFF68 => self.cgb_bg_palette.write_spec(data),
            0xFF69 => {
                self.cgb_bg_palette.write_data(data, blocked);
                assert(self.cgb_bg_palette.data =~= old(self).palette_after_write(
                    old(self).cgb_bg_palette,
                    data,
                ).data);
            },
            0xFF6A => self.cgb_obj_palette.write_spec(data),
            0xFF6B => {
                self.cgb_obj_palette.write_data(data, blocked);
                assert(self.cgb_obj_palette.data =~= old(self).palette_after_write(
                    old(self).cgb_obj_palette,
                    data,
                ).data);
            },
            _ => {},
        }
    }

    /// Reads a register of the file at `0xFF40..=0xFF6B`; other addresses
    /// read 0.
    pub fn read(&self, addr: u16) -> (r: u8)
        requires
            self.wf(),
        ensures
            r == self.spec_read(addr),
            addr == 0xFF41 ==> (bit(r, 2) <==> self.spec_y() == self.spec_read(0xFF45)),
            addr == 0xFF41 ==> r % 4 == self.spec_mode_number(),
    {
        let blocked = match self.fifo_mode {
            FifoMode::Drawing(_) => true,
            _ => false,
        };
        match addr {
            0xFF40 => self.read_lcd_control(),
            0xFF41 => self.read_lcd_status(),
            0xFF42 => self.scroll_y,
            0xFF43 => self.scroll_x,
            0xFF44 => self.y,
            0xFF45 => self.y_compare,
            0xFF47 => self.greyscale_bg_palette,
            0xFF48 | 0xFF49 => self.greyscale_obj_palette[(addr - 0xFF48) as usize],
            0xFF4A => self.window_y,
            0xFF4B => self.window_x,
            0xFF4C => 0xFF,
            0xFF68 => self.cgb_bg_palette.read_spec(),
            0xFF69 => self.cgb_bg_palette.read_data(blocked),
            0xFF6A => self.cgb_obj_palette.read_spec(),
            0xFF6B => self.cgb_obj_palette.read_data(blocked),
            _ => 0,
        }
    }

    fn write_lcd_control(&mut self, data: u8)
        ensures
            *final(self) == (Ppu { lcd_control: data, ..*old(self) }),
    {
        self.lcd_control = data;
    }

    fn read_lcd_control(&self) -> (r: u8)
        ensures
            r == self.lcd_control,
    {
        self.lcd_control
    }

    /// Only the interrupt-source bits 3..6 are writable.
    fn write_lcd_status(&mut self, data: u8)
        requires
            old(self).wf(),
        ensures
            final(self).wf(),
            *final(self) == (Ppu { lcd_status: ((data / 8) % 16 * 8) as u8, ..*old(self) }),
    {
        proof {
            lemma_status_bits(data);
        }
        self.lcd_status = data & 0x78;
    }

    /// The sources, with the LYC=LY flag in bit 2 and the mode in bits 0..1.
    fn read_lcd_status(&self) -> (r: u8)
        requires
            self.wf(),
        ensures
            r == self.spec_stat(),
            bit(r, 2) <==> self.y == self.y_compare,
            r % 4 == mode_number(self.fifo_mode),
    {
        let lyc: u8 = if self.y == self.y_compare {
            4
        } else {
            0
        };
        let mode = self.fifo_mode.number();
        proof {
            lemma_stat_read(self.lcd_status, lyc, mode);
        }
        self.lcd_status + lyc + mode
    }

    /// Hands out the finished frame and starts a blank one, once per frame:
    /// at the first call made at the top of a frame. Other calls give `None`.
    pub fn ready_frame(&mut self) -> (r: Option<Frame>)
        requires
            old(self).wf(),
        ensures
            final(self).wf(),
            old(self).spec_y() == 0 && old(self).spec_cycle() == 0
                && !old(self).spec_frame_taken() ==> {
                &&& r matches Some(f) && f@ == old(self).spec_frame()
                &&& final(self).spec_frame() == Seq::new(FRAME_BYTES as nat, |i: int| 0u8)
                &&& final(self).spec_frame_taken()
                &&& final(self).spec_y() == 0
                &&& final(self).spec_cycle() == 0
                &&& final(self).spec_x() == old(self).spec_x()
                &&& final(self).spec_mode_number() == old(self).spec_mode_number()
                &&& final(self).spec_vram() == old(self).spec_vram()
                &&& final(self).spec_oam() == old(self).spec_oam()
                &&& final(self).spec_vram_bank() == old(self).spec_vram_bank()
                &&& Self::same_registers(old(self), final(self))
                &&& forall|a: u16| #[trigger] final(self).spec_read(a) == old(self).spec_read(a)
            },
            !(old(self).spec_y() == 0 && old(self).spec_cycle() == 0
                && !old(self).spec_frame_taken()) ==> r is None && *final(self) == *old(self),
            r matches Some(f) ==> f@.len() == FRAME_BYTES && frame_encoded(f@),
    {
        if self.y == 0 && self.cycle == 0 && !self.frame_taken {
            let mut frame = allocate_new_frame();
            core::mem::swap(&mut self.frame, &mut frame);
            self.frame_taken = true;
            Some(frame)
        } else {
            None
        }
    }

    fn read_bg_win_tile(&self, id: u8, offset: u8) -> (r: u8)
        requires
            offset < 16,
        ensures
            r == self.vram@[vram_index(
                bg_win_tile_addr(bit(self.lcd_control, LCDC_TILE_DATA), id, offset) as u16,
                self.vram_bank_register,
            )],
    {
        proof {
            lemma_tile_data_address(id, offset);
        }
        if bit_of(self.lcd_control, LCDC_TILE_DATA) {
            self.read_obj_tile(id, offset)
        } else if id & 0x80 == 0 {
            assert(id & 0x80 == 0 ==> id < 128) by (bit_vector);
            self.read_vram_unblocked(0x9000 | ((id as u16) << 4) | (offset as u16))
        } else {
            assert(id & 0x80 != 0 ==> id >= 128) by (bit_vector);
            self.read_vram_unblocked(0x8800 | (((id as u16) << 4) & 0x7FF) | (offset as u16))
        }
    }

    fn read_obj_tile(&self, id: u8, offset: u8) -> (r: u8)
        requires
            offset < 16,
        ensures
            r == self.vram@[vram_index(obj_tile_addr(id, offset) as u16, self.vram_bank_register)],
    {
        proof {
            lemma_tile_data_address(id, offset);
        }
        self.read_vram_unblocked(0x8000 | ((id as u16) << 4) | (offset as u16))
    }

    fn read_bg_tile_index(&self, id: u16) -> (r: u8)
        requires
            id < 0x400,
        ensures
            r == self.vram@[vram_index(
                tile_map_addr(bit(self.lcd_control, LCDC_BG_TILE_MAP), id as int) as u16,
                self.vram_bank_register,
            )],
    {
        proof {
            lemma_tile_map_address(id);
        }
        if bit_of(self.lcd_control, LCDC_BG_TILE_MAP) {
            self.read_vram_unblocked(0x9C00 | id)
        } else {
            self.read_vram_unblocked(0x9800 | id)
        }
    }

    fn read_win_tile_index(&self, id: u16) -> (r: u8)
        requires
            id < 0x400,
        ensures
            r == self.vram@[vram_index(
                tile_map_addr(bit(self.lcd_control, LCDC_WINDOW_TILE_MAP), id as int) as u16,
                self.vram_bank_register,
            )],
    {
        proof {
            lemma_tile_map_address(id);
        }
        if bit_of(self.lcd_control, LCDC_WINDOW_TILE_MAP) {
            self.read_vram_unblocked(0x9C00 | id)
        } else {
            self.read_vram_unblocked(0x9800 | id)
        }
    }

    /// The tile index that a fetch in state `st` works on: from the object's
    /// OAM entry, or from the window or background tile map.
    fn fetch_tile_index(&self, st: &DrawingState) -> (r: u8)
        requires
            st.sprite_idx <= 36,
        ensures
            r == self.tile_index_at(*st),
    {
        if st.is_sprite {
            self.secondary_oam[(st.sprite_idx + 2) as usize]
        } else if st.is_window {
            let col = st.fetcher_x.wrapping_sub(self.window_x >> 3) & 0x1F;
            let row = self.window_y_counter >> 3;
            proof {
                lemma_small_fields(st.fetcher_x.wrapping_sub(self.window_x >> 3), 0);
                lemma_small_fields(self.window_y_counter, 0);
                lemma_tile_map_index(row, col);
            }
            self.read_win_tile_index(((row as u16) << 5) | (col as u16))
        } else {
            let col = (self.scroll_x >> 3).wrapping_add(st.fetcher_x) & 0x1F;
            let row = self.y.wrapping_add(self.scroll_y) >> 3;
            proof {
                lemma_small_fields((self.scroll_x >> 3).wrapping_add(st.fetcher_x), 0);
                lemma_small_fields(self.y.wrapping_add(self.scroll_y), 0);
                lemma_tile_map_index(row, col);
            }
            self.read_bg_tile_index(((row as u16) << 5) | (col as u16))
        }
    }

    /// One bit plane (`high` 0 or 1) of the tile row that a fetch in state
    /// `st` works on.
    fn fetch_tile_plane(&self, st: &DrawingState, high: u8) -> (r: u8)
        requires
            st.sprite_idx <= 36,
            high < 2,
        ensures
            r == self.plane_at(*st, high),
    {
        if st.is_sprite {
            let tall = bit_of(self.lcd_control, LCDC_OBJ_SIZE);
            let size_mask: u8 = if tall {
                15
            } else {
                7
            };
            let top = self.secondary_oam[st.sprite_idx as usize];
            let mut fine_y = self.y.wrapping_sub(top).wrapping_add(16) & size_mask;
            proof {
                let v = self.y.wrapping_sub(top).wrapping_add(16);
                assert(v & 15u8 <= 15 && v & 7u8 <= 7) by (bit_vector);
            }
            if self.secondary_oam[(st.sprite_idx + 3) as usize] & 0x40 != 0 {
                // vertical flip
                fine_y = size_mask - fine_y;
            }
            // An 8x16 object takes its lower tile for rows 8..16.
            let tile_id = if tall {
                (st.tile_idx & 0xFE) | ((fine_y & 0x08) >> 3)
            } else {
                st.tile_idx
            };
            proof {
                lemma_small_fields(fine_y, high);
            }
            self.read_obj_tile(tile_id, ((fine_y & 7) << 1) | high)
        } else {
            let line = if st.is_window {
                self.window_y_counter
            } else {
                self.y.wrapping_add(self.scroll_y)
            };
            proof {
                lemma_small_fields(line, high);
            }
            self.read_bg_win_tile(st.tile_idx, ((line & 7) << 1) | high)
        }
    }

    /// The entry of secondary OAM, as its byte offset, whose object covers
    /// the current column and is leftmost (ties: the earlier entry).
    fn find_sprite(&self) -> (r: Option<u8>)
        ensures
            r == leftmost_sprite(self.secondary_oam@, self.x, 10),
            r matches Some(k) ==> k <= 36 && k % 4 == 0,
    {
        let mut best: Option<u8> = None;
        let mut i: usize = 0;
        while i < 10
            invariant
                i <= 10,
                best == leftmost_sprite(self.secondary_oam@, self.x, i as int),
                best matches Some(k) ==> k < 4 * i && k % 4 == 0,
            decreases 10 - i,
        {
            let sx = self.secondary_oam[4 * i + 1];
            if self.x.wrapping_sub(sx).wrapping_add(8) < 8 {
                let better = match best {
                    None => true,
                    Some(k) => sx < self.secondary_oam[k as usize + 1],
                };
                if better {
                    best = Some((4 * i) as u8);
                }
            }
            i = i + 1;
        }
        best
    }

    /// Loads the assembled row into its queue, if it can be loaded now.
    fn push_row(&mut self, st: DrawingState) -> (r: DrawingState)
        requires
            old(self).background_pixel_pipeline.wf(),
            old(self).sprite_pixel_pipeline.wf(),
            st.sprite_idx <= 36,
        ensures
            final(self).background_pixel_pipeline.wf(),
            final(self).sprite_pixel_pipeline.wf(),
            Self::same_inputs(old(self), final(self)),
            final(self).x == old(self).x,
            final(self).frame == old(self).frame,
            final(self).window_y_counter == old(self).window_y_counter,
            final(self).window_y_flag == old(self).window_y_flag,
            final(self).fifo_mode == old(self).fifo_mode,
            r.sprite_idx == st.sprite_idx,
            r.is_window == st.is_window,
            !r.is_sprite,
            st.is_sprite ==> {
                let attrs = old(self).secondary_oam@[st.sprite_idx + 3];
                let sx = old(self).secondary_oam@[st.sprite_idx + 1];
                &&& final(self).sprite_pixel_pipeline@ == overlay(
                    old(self).sprite_pixel_pipeline@,
                    sprite_row(st.buffer@, attrs).skip(
                        if sx < 8 {
                            8 - sx as int
                        } else {
                            0
                        },
                    ),
                )
                &&& final(self).secondary_oam@ == old(self).secondary_oam@.update(
                    st.sprite_idx + 1,
                    0,
                )
                &&& final(self).background_pixel_pipeline == old(self).background_pixel_pipeline
                &&& r == (DrawingState {
                    pixel_fetcher: PixelFetcherState::GetTile,
                    cycle: 0,
                    is_sprite: false,
                    ..st
                })
            },
            !st.is_sprite && !st.primed ==> {
                &&& final(self).background_pixel_pipeline == old(self).background_pixel_pipeline
                &&& r == (DrawingState {
                    pixel_fetcher: PixelFetcherState::GetTile,
                    cycle: 0,
                    primed: true,
                    ..st
                })
            },
            !st.is_sprite && st.primed && old(self).background_pixel_pipeline@.len() == 0 ==> {
                &&& final(self).background_pixel_pipeline@ == st.buffer@.skip(
                    if !st.is_window && old(self).x == 0 {
                        old(self).scroll_x as int % 8
                    } else {
                        0
                    },
                )
                &&& r == (DrawingState {
                    pixel_fetcher: PixelFetcherState::GetTile,
                    cycle: 0,
                    fetcher_x: st.fetcher_x.wrapping_add(1),
                    ..st
                })
            },
            !st.is_sprite ==> final(self).sprite_pixel_pipeline == old(self).sprite_pixel_pipeline
                && final(self).secondary_oam == old(self).secondary_oam,
            !st.is_sprite && st.primed && old(self).background_pixel_pipeline@.len() > 0 ==> r == st
                && final(self).background_pixel_pipeline == old(self).background_pixel_pipeline,
    {
        if st.is_sprite {
            let props = self.secondary_oam[(st.sprite_idx + 3) as usize];
            let b = st.buffer;
            let mut row = if props & 0x20 != 0 {
                // horizontal flip
                [b[7], b[6], b[5], b[4], b[3], b[2], b[1], b[0]]
            } else {
                b
            };
            // palette (bit 4) and priority (bit 7) ride along with each pixel
            let flags = (props & 0x90) as u16;
            let ghost flipped = row@;
            let mut k: usize = 0;
            while k < 8
                invariant
                    k <= 8,
                    flipped.len() == 8,
                    forall|j: int| 0 <= j < k ==> #[trigger] row@[j] == flipped[j] | flags,
                    forall|j: int| k <= j < 8 ==> #[trigger] row@[j] == flipped[j],
                decreases 8 - k,
            {
                row[k] = row[k] | flags;
                k = k + 1;
            }
            assert(row@ =~= sprite_row(st.buffer@, props));
            let sx = self.secondary_oam[(st.sprite_idx + 1) as usize];
            // the columns left of the screen are clipped from the row
            let clipped: usize = if sx < 8 {
                (8 - sx) as usize
            } else {
                0
            };
            self.sprite_pixel_pipeline.load(row, clipped);
            // the object is drawn: it no longer covers any column
            self.secondary_oam[(st.sprite_idx + 1) as usize] = 0;
            DrawingState {
                pixel_fetcher: PixelFetcherState::GetTile,
                cycle: 0,
                is_sprite: false,
                ..st
            }
        } else if !st.primed {
            // the line's first fetch is discarded
            DrawingState {
                pixel_fetcher: PixelFetcherState::GetTile,
                cycle: 0,
                primed: true,
                ..st
            }
        } else if self.background_pixel_pipeline.is_empty() {
            // fine horizontal scroll drops the first pixels of the line
            let scrolled: usize = if !st.is_window && self.x == 0 {
                (self.scroll_x % 8) as usize
            } else {
                0
            };
            self.background_pixel_pipeline.load(st.buffer, scrolled);
            assert(overlay(Seq::empty(), st.buffer@.skip(scrolled as int)) =~= st.buffer@.skip(
                scrolled as int,
            ));
            DrawingState {
                pixel_fetcher: PixelFetcherState::GetTile,
                cycle: 0,
                fetcher_x: st.fetcher_x.wrapping_add(1),
                ..st
            }
        } else {
            // wait for the background queue to run dry
            st
        }
    }

    /// One dot of the pixel fetcher.
    fn fetch_step(&mut self, st: DrawingState) -> (r: DrawingState)
        requires
            old(self).background_pixel_pipeline.wf(),
            old(self).sprite_pixel_pipeline.wf(),
            st.sprite_idx <= 36,
        ensures
            final(self).background_pixel_pipeline.wf(),
            final(self).sprite_pixel_pipeline.wf(),
            Self::same_inputs(old(self), final(self)),
            final(self).x == old(self).x,
            final(self).frame == old(self).frame,
            final(self).window_y_counter == old(self).window_y_counter,
            final(self).window_y_flag == old(self).window_y_flag,
            final(self).fifo_mode == old(self).fifo_mode,
            r.sprite_idx == st.sprite_idx,
            r.is_window == st.is_window,
            r == old(self).fetched_state(st),
            final(self).background_pixel_pipeline@ == old(self).bg_after_fetch(st),
            final(self).sprite_pixel_pipeline@ == old(self).sp_after_fetch(st),
            final(self).secondary_oam@ == old(self).sec_after_fetch(st),
            !(st.pixel_fetcher is Push) ==> *final(self) == *old(self),
            st.pixel_fetcher is GetTile && st.cycle == 0 ==> r == (DrawingState {
                tile_idx: old(self).tile_index_at(st),
                cycle: 1,
                ..st
            }),
            st.pixel_fetcher is GetTile && st.cycle != 0 ==> r == (DrawingState {
                pixel_fetcher: PixelFetcherState::GetTileLow,
                cycle: 0,
                ..st
            }),
            st.pixel_fetcher is GetTileLow && st.cycle == 0 ==> r == (DrawingState {
                buffer: r.buffer,
                cycle: 1,
                ..st
            }) && r.buffer@ == low_plane_row(old(self).plane_at(st, 0)),
            st.pixel_fetcher is GetTileLow && st.cycle != 0 ==> r == (DrawingState {
                pixel_fetcher: PixelFetcherState::GetTileHigh,
                cycle: 0,
                ..st
            }),
            st.pixel_fetcher is GetTileHigh && st.cycle == 0 ==> r == (DrawingState {
                buffer: r.buffer,
                cycle: 1,
                ..st
            }) && r.buffer@ == with_high_plane(st.buffer@, old(self).plane_at(st, 1)),
            st.pixel_fetcher is GetTileHigh && st.cycle != 0 ==> r == (DrawingState {
                pixel_fetcher: PixelFetcherState::Push,
                cycle: 0,
                ..st
            }),
    {
        match st.pixel_fetcher {
            PixelFetcherState::GetTile => {
                if st.cycle == 0 {
                    DrawingState { tile_idx: self.fetch_tile_index(&st), cycle: 1, ..st }
                } else {
                    DrawingState { pixel_fetcher: PixelFetcherState::GetTileLow, cycle: 0, ..st }
                }
            },
            PixelFetcherState::GetTileLow => {
                if st.cycle == 0 {
                    let plane = self.fetch_tile_plane(&st, 0);
                    let mut buffer = [0u16; 8];
                    let mut k: usize = 0;
                    while k < 8
                        invariant
                            k <= 8,
                            forall|j: int| 0 <= j < k ==> #[trigger] buffer@[j] == low_plane_row(plane)[j],
                        decreases 8 - k,
                    {
                        // the leftmost pixel is bit 7
                        buffer[k] = ((plane >> (7 - k) as u8) & 1) as u16;
                        k = k + 1;
                    }
                    assert(buffer@ =~= low_plane_row(plane));
                    proof {
                        lemma_row_array(low_plane_row(plane));
                        assert(buffer =~= row_array(low_plane_row(plane)));
                    }
                    DrawingState { buffer, cycle: 1, ..st }
                } else {
                    DrawingState { pixel_fetcher: PixelFetcherState::GetTileHigh, cycle: 0, ..st }
                }
            },
            PixelFetcherState::GetTileHigh => {
                if st.cycle == 0 {
                    let plane = self.fetch_tile_plane(&st, 1);
                    let mut buffer = st.buffer;
                    let mut k: usize = 0;
                    while k < 8
                        invariant
                            k <= 8,
                            forall|j: int|
                                0 <= j < k ==> #[trigger] buffer@[j] == with_high_plane(st.buffer@, plane)[j],
                            forall|j: int| k <= j < 8 ==> #[trigger] buffer@[j] == st.buffer@[j],
                        decreases 8 - k,
                    {
                        buffer[k] = buffer[k] | ((((plane >> (7 - k) as u8) & 1) as u16) << 1u16);
                        k = k + 1;
                    }
                    assert(buffer@ =~= with_high_plane(st.buffer@, plane));
                    proof {
                        lemma_row_array(with_high_plane(st.buffer@, plane));
                        assert(buffer =~= row_array(with_high_plane(st.buffer@, plane)));
                    }
                    DrawingState { buffer, cycle: 1, ..st }
                } else {
                    DrawingState { pixel_fetcher: PixelFetcherState::Push, cycle: 0, ..st }
                }
            },
            PixelFetcherState::Push => self.push_row(st),
        }
    }

    /// Mixes the front pixels of both queues onto the frame at the current
    /// position and moves right; the line's drawing ends at column 160.
    fn output_pixel(&mut self, st: DrawingState, bus: &mut PpuBus) -> (r: FifoMode)
        requires
            old(self).background_pixel_pipeline.wf(),
            old(self).sprite_pixel_pipeline.wf(),
            old(self).x < 160,
            old(self).y < 144,
            old(self).frame@.len() == FRAME_BYTES,
            frame_encoded(old(self).frame@),
            old(self).window_y_counter <= old(self).y,
        ensures
            final(self).background_pixel_pipeline.wf(),
            final(self).sprite_pixel_pipeline.wf(),
            Self::same_inputs(old(self), final(self)),
            final(self).window_y_flag == old(self).window_y_flag,
            final(self).x == old(self).x + 1,
            final(self).frame@.len() == FRAME_BYTES,
            frame_encoded(final(self).frame@),
            final(self).frame@ == put_pixel(
                old(self).frame@,
                old(self).y * FRAME_WIDTH + old(self).x,
                shade(
                    spec_mix(
                        old(self).lcd_control,
                        old(self).greyscale_bg_palette,
                        old(self).greyscale_obj_palette[0],
                        old(self).greyscale_obj_palette[1],
                        front(old(self).background_pixel_pipeline@),
                        front(old(self).sprite_pixel_pipeline@),
                    ) as int,
                ),
            ),
            r == FifoMode::Drawing(st) || r == FifoMode::HBlank,
            r is HBlank <==> final(self).x == 160,
            r is Drawing ==> final(self).window_y_counter == old(self).window_y_counter,
            r is Drawing ==> {
                &&& final(self).background_pixel_pipeline@ == popped(
                    old(self).background_pixel_pipeline@,
                )
                &&& final(self).sprite_pixel_pipeline@ == popped(old(self).sprite_pixel_pipeline@)
                &&& final(self).secondary_oam == old(self).secondary_oam
            },
            r is HBlank ==> {
                &&& final(self).window_y_counter == old(self).window_y_counter + if st.is_window {
                    1int
                } else {
                    0
                }
                &&& final(self).background_pixel_pipeline@.len() == 0
                &&& final(self).sprite_pixel_pipeline@.len() == 0
                &&& forall|i: int| 0 <= i < 40 ==> #[trigger] final(self).secondary_oam@[i] == 0
            },
            final(bus)@ == old(bus)@ + if r is HBlank && bit(old(self).lcd_status, STAT_HBLANK_SOURCE) {
                seq![Interrupt::LcdStat]
            } else {
                Seq::empty()
            },
    {
        let bg = self.background_pixel_pipeline.pop();
        let sp = self.sprite_pixel_pipeline.pop();
        let color = mix_pixel(
            self.lcd_control,
            self.greyscale_bg_palette,
            self.greyscale_obj_palette[0],
            self.greyscale_obj_palette[1],
            bg,
            sp,
        );
        let shade = shade_of(color);
        let p = self.y as usize * FRAME_WIDTH + self.x as usize;
        draw_pixel(&mut self.frame, p, shade);
        assert(is_shade(shade) && self.frame@ == put_pixel(old(self).frame@, p as int, shade));
        self.x = self.x + 1;
        if self.x >= FRAME_WIDTH as u8 {
            // horizontal blank: the line is done
            self.background_pixel_pipeline = PixelFifo::new();
            self.sprite_pixel_pipeline = PixelFifo::new();
            self.secondary_oam = [0u8; 40];
            if st.is_window {
                self.window_y_counter = self.window_y_counter + 1;
            }
            if bit_of(self.lcd_status, STAT_HBLANK_SOURCE) {
                bus.request_interrupt(Interrupt::LcdStat);
            }
            assert(old(bus)@ + seq![Interrupt::LcdStat] =~= old(bus)@.push(Interrupt::LcdStat));
            assert(old(bus)@ + Seq::empty() =~= old(bus)@);
            FifoMode::HBlank
        } else {
            assert(old(bus)@ + Seq::empty() =~= old(bus)@);
            FifoMode::Drawing(st)
        }
    }

    /// One dot of drawing: the window and object triggers, a fetcher step,
    /// then at most one pixel out.
    fn drawing_step(&mut self, st: DrawingState, bus: &mut PpuBus) -> (r: FifoMode)
        requires
            old(self).background_pixel_pipeline.wf(),
            old(self).sprite_pixel_pipeline.wf(),
            old(self).x < 160,
            old(self).y < 144,
            old(self).frame@.len() == FRAME_BYTES,
            frame_encoded(old(self).frame@),
            old(self).window_y_counter <= old(self).y,
            old(self).fifo_mode == FifoMode::Drawing(st),
            st.sprite_idx <= 36,
            st.sprite_idx % 4 == 0,
        ensures
            final(self).background_pixel_pipeline.wf(),
            final(self).sprite_pixel_pipeline.wf(),
            Self::same_inputs(old(self), final(self)),
            final(self).frame@.len() == FRAME_BYTES,
            frame_encoded(final(self).frame@),
            r is Drawing || r is HBlank,
            Self::drawing_dot(old(self), final(self), r),
            r matches FifoMode::Drawing(d) ==> {
                &&& d.sprite_idx <= 36
                &&& d.sprite_idx % 4 == 0
                &&& final(self).x < 160
                &&& final(self).window_y_counter == old(self).window_y_counter
            },
            r is HBlank ==> final(self).x == 160 && final(self).window_y_counter
                <= old(self).window_y_counter + 1,
            final(self).x == old(self).x ==> final(self).frame@ == old(self).frame@,
            final(self).x == old(self).x || final(self).x == old(self).x + 1,
            final(self).window_y_flag == (old(self).window_y_flag || old(self).y
                == old(self).window_y),
            final(bus)@ == old(bus)@ + if r is HBlank && bit(old(self).lcd_status, STAT_HBLANK_SOURCE) {
                seq![Interrupt::LcdStat]
            } else {
                Seq::empty()
            },
    {
        let mut st = st;
        // the window starts on the line that matches WY and stays for the frame
        if self.y == self.window_y {
            self.window_y_flag = true;
        }
        if !st.is_window && bit_of(self.lcd_control, LCDC_WINDOW_ENABLE) && self.window_y_flag
            && self.x >= self.window_x.wrapping_sub(7) {
            st.reset();
            st.is_window = true;
            st.fetcher_x = 0;
        }
        if !st.is_sprite && bit_of(self.lcd_control, LCDC_OBJ_ENABLE) {
            match self.find_sprite() {
                Some(idx) => {
                    st.reset();
                    st.is_sprite = true;
                    st.sprite_idx = idx;
                },
                None => {},
            }
        }
        let st = self.fetch_step(st);
        if !st.is_sprite && !self.background_pixel_pipeline.is_empty() {
            self.output_pixel(st, bus)
        } else {
            assert(old(bus)@ + Seq::empty() =~= old(bus)@);
            FifoMode::Drawing(st)
        }
    }

    /// One dot of the OAM scan: even dots test an entry against the line,
    /// odd dots copy a visible entry to secondary OAM while it has room.
    fn oam_scan_step(&mut self, st: OamScanState) -> (r: OamScanState)
        requires
            old(self).cycle < 80,
            st.oam_pointer == 4 * (old(self).cycle / 2),
            st.secondary_oam_pointer <= 40,
            st.secondary_oam_pointer % 4 == 0,
        ensures
            *final(self) == (Ppu { secondary_oam: final(self).secondary_oam, ..*old(self) }),
            r.oam_pointer == 4 * ((old(self).cycle + 1) / 2),
            r.secondary_oam_pointer <= 40,
            r.secondary_oam_pointer % 4 == 0,
            r == old(self).scan_after(st),
            final(self).secondary_oam@ == old(self).scan_sec_after(st),
    {
        let ptr = st.oam_pointer;
        if self.cycle % 2 == 0 {
            OamScanState { is_visible: self.entry_visible(ptr), tested: true, ..st }
        } else {
            let visible = if st.tested {
                st.is_visible
            } else {
                self.entry_visible(ptr)
            };
            let sec = st.secondary_oam_pointer;
            let mut copied = sec;
            if visible && sec < 40 {
                self.secondary_oam[sec] = self.oam[ptr];
                self.secondary_oam[sec + 1] = self.oam[ptr + 1];
                self.secondary_oam[sec + 2] = self.oam[ptr + 2];
                self.secondary_oam[sec + 3] = self.oam[ptr + 3];
                copied = sec + 4;
            }
            OamScanState {
                oam_pointer: ptr + 4,
                secondary_oam_pointer: copied,
                is_visible: false,
                tested: false,
            }
        }
    }

    /// Whether the OAM entry at byte `ptr` is on the current line.
    fn entry_visible(&self, ptr: usize) -> (r: bool)
        requires
            ptr + 1 < 0xA0,
        ensures
            r == entry_on_line(
                self.y,
                self.oam@[ptr as int],
                self.oam@[ptr + 1],
                bit(self.lcd_control, LCDC_OBJ_SIZE),
            ),
    {
        let top = self.oam[ptr];
        let height: u8 = if bit_of(self.lcd_control, LCDC_OBJ_SIZE) {
            16
        } else {
            8
        };
        let row = self.y.wrapping_sub(top).wrapping_add(16);
        row < height && self.oam[ptr + 1] > 0
    }

    /// The work of the current mode for one dot.
    fn render(&mut self, bus: &mut PpuBus)
        requires
            old(self).inv(old(self).cycle as int),
        ensures
            final(self).wf(),
            Self::same_inputs(old(self), final(self)),
            Self::dot_work(old(self), final(self)),
            old(self).fifo_mode is OamScan ==> final(self).fifo_mode is OamScan,
            old(self).fifo_mode is HBlank ==> final(self).fifo_mode is HBlank,
            old(self).fifo_mode is VBlank ==> final(self).fifo_mode is VBlank,
            old(self).fifo_mode is Drawing ==> final(self).fifo_mode is Drawing
                || final(self).fifo_mode is HBlank,
            final(self).x == old(self).x ==> final(self).frame@ == old(self).frame@,
            final(self).x == old(self).x || (old(self).fifo_mode is Drawing && final(self).x
                == old(self).x + 1),
            final(bus)@ == old(bus)@ + if old(self).fifo_mode is Drawing
                && final(self).fifo_mode is HBlank && bit(old(self).lcd_status, STAT_HBLANK_SOURCE) {
                seq![Interrupt::LcdStat]
            } else {
                Seq::empty()
            },
    {
        // work on a copy of the mode and store it back
        match self.fifo_mode {
            FifoMode::OamScan(st) => {
                let next = self.oam_scan_step(st);
                self.fifo_mode = FifoMode::OamScan(next);
            },
            FifoMode::Drawing(st) => {
                let next = self.drawing_step(st, bus);
                self.fifo_mode = next;
            },
            _ => {},
        }
        assert(old(bus)@ + Seq::empty() =~= old(bus)@);
    }

    /// On a visible line the first 80 dots are the OAM scan and the other 376
    /// are drawing then horizontal blank, drawing taking at least dots
    /// 80..252 (172 dots); the last ten lines are vertical blank throughout.
    pub proof fn lemma_mode_by_dot(&self)
        requires
            self.wf(),
        ensures
            self.spec_y() < 144 ==> (self.spec_mode_number() == 2 <==> self.spec_cycle() < 80),
            self.spec_y() < 144 && self.spec_cycle() >= 80 ==> (self.spec_mode_number() == 3
                || self.spec_mode_number() == 0),
            self.spec_mode_number() == 1 <==> self.spec_y() >= 144,
            self.spec_mode_number() == 0 ==> self.spec_cycle() >= 252,
    {
    }

    /// Secondary OAM: the entries the scan picked for this line.
    pub closed spec fn spec_secondary_oam(&self) -> Seq<u8> {
        self.secondary_oam@
    }

    /// The OAM scan so far agrees with `selection`: secondary OAM starts with
    /// the picks from the entries scanned, and a tested entry's result is
    /// that of the entry as OAM holds it.
    pub closed spec fn scan_on_track(&self) -> bool {
        match self.fifo_mode {
            FifoMode::OamScan(st) => {
                let n = st.oam_pointer as int / 4;
                let tall = bit(self.lcd_control, LCDC_OBJ_SIZE);
                let sel = selection(self.oam@, self.y, tall, n);
                &&& st.secondary_oam_pointer == sel.len()
                &&& self.secondary_oam@.subrange(0, sel.len() as int) == sel
                &&& st.tested ==> st.is_visible == entry_on_line(
                    self.y,
                    self.oam@[4 * n],
                    self.oam@[4 * n + 1],
                    tall,
                )
            },
            _ => false,
        }
    }

    proof fn lemma_scan_start(&self)
        requires
            self.fifo_mode matches FifoMode::OamScan(st) && st.oam_pointer == 0
                && st.secondary_oam_pointer == 0 && !st.tested,
        ensures
            self.scan_on_track(),
    {
        let tall = bit(self.lcd_control, LCDC_OBJ_SIZE);
        assert(selection(self.oam@, self.y, tall, 0) == Seq::<u8>::empty());
        assert(self.secondary_oam@.subrange(0, 0) =~= Seq::<u8>::empty());
    }

    proof fn lemma_scan_step(a: &Ppu, b: &Ppu)
        requires
            a.fifo_mode matches FifoMode::OamScan(st) && st.oam_pointer == 4 * (a.cycle / 2)
                && st.secondary_oam_pointer <= 40,
            a.cycle < 80,
            a.scan_on_track(),
            Self::dot_work(a, b),
        ensures
            b.scan_on_track(),
    {
        let st = a.fifo_mode->OamScan_0;
        let n = st.oam_pointer as int / 4;
        let tall = bit(a.lcd_control, LCDC_OBJ_SIZE);
        let sel = selection(a.oam@, a.y, tall, n);
        assert(n < 40);
        lemma_selection_len(a.oam@, a.y, tall, n);
        if a.cycle % 2 == 1 {
            let q = sel.len() as int;
            assert((st.oam_pointer + 4) as int / 4 == n + 1);
            assert(a.scan_visible(st) == entry_on_line(a.y, a.oam@[4 * n], a.oam@[4 * n + 1], tall));
            let sel2 = selection(a.oam@, a.y, tall, n + 1);
            if a.scan_visible(st) && q < 40 {
                assert(st.oam_pointer as int == 4 * n);
                assert(st.secondary_oam_pointer as int == q);
                assert(sel2 == sel + a.oam@.subrange(4 * n, 4 * n + 4));
                let bs = b.secondary_oam@;
                assert(bs == a.scan_sec_after(st));
                assert forall|i: int| 0 <= i < q + 4 implies #[trigger] bs.subrange(0, q + 4)[i]
                    == sel2[i] by {
                    if i < q {
                        assert(sel[i] == a.secondary_oam@.subrange(0, q)[i]);
                    }
                }
                assert(b.secondary_oam@.subrange(0, q + 4) =~= sel2);
            } else {
                assert(sel2 == sel);
            }
        }
    }

    /// What the invariant gives a caller: the ranges of LY, the dot counter
    /// and the column, the sizes of the memories and the frame, the STAT
    /// source bits, and where each mode can be.
    pub proof fn lemma_wf_facts(&self)
        requires
            self.wf(),
        ensures
            self.spec_y() < 154,
            self.spec_cycle() < 456,
            self.spec_x() <= 160,
            self.spec_vram().len() == 0x4000,
            self.spec_oam().len() == 0xA0,
            self.spec_frame().len() == FRAME_BYTES,
            self.spec_stat_sources() % 8 == 0,
            self.spec_stat_sources() < 128,
            self.spec_cgb_bg_palette_data().len() == 64,
            self.spec_cgb_obj_palette_data().len() == 64,
            self.spec_cgb_bg_data() == self.spec_cgb_bg_palette_data()[self.spec_cgb_bg_spec() as int % 64],
            self.spec_cgb_obj_data() == self.spec_cgb_obj_palette_data()[self.spec_cgb_obj_spec()
                as int % 64],
            self.spec_mode_number() < 4,
            self.spec_mode_number() == 1 <==> self.spec_y() >= 144,
            self.spec_mode_number() == 0 ==> self.spec_x() == 160 && self.spec_cycle() >= 252,
            self.spec_mode_number() == 3 ==> self.spec_x() < 160 && self.spec_cycle() >= 80,
            self.spec_mode_number() == 2 ==> self.spec_x() == 0 && self.spec_cycle() < 80,
    {
    }

    /// Every frame the unit holds is encoded: the four bytes of a pixel are
    /// equal, and each is one of the four shades.
    pub proof fn lemma_frame_encoded(&self)
        requires
            self.wf(),
        ensures
            self.spec_frame().len() == FRAME_BYTES,
            frame_encoded(self.spec_frame()),
    {
    }

    /// Advances the unit by one dot: the line and frame timing, the mode
    /// changes with their interrupt requests, then the work of the mode.
    #[verifier::rlimit(80)]
    pub fn clock(&mut self, bus: &mut PpuBus)
        requires
            old(self).wf(),
        ensures
            final(self).wf(),
            (final(self).spec_cycle() as int, final(self).spec_y() as int) == next_dot(
                old(self).spec_cycle() as int,
                old(self).spec_y() as int,
            ),
            !final(self).spec_frame_taken(),
            final(self).spec_mode_number() == 0 ==> final(self).spec_cycle() >= 252,
            // the OAM scan picks the first ten entries on the line
            old(self).spec_cycle() == 455 && final(self).spec_y() < 144
                ==> final(self).scan_on_track(),
            old(self).spec_cycle() < 79 && old(self).spec_y() < 144 && old(self).scan_on_track()
                ==> final(self).scan_on_track(),
            old(self).spec_cycle() == 79 && old(self).spec_y() < 144 && old(self).scan_on_track()
                ==> {
                let sel = selection(
                    old(self).spec_oam(),
                    old(self).spec_y(),
                    bit(old(self).spec_lcd_control(), LCDC_OBJ_SIZE),
                    40,
                );
                final(self).spec_secondary_oam().subrange(0, sel.len() as int) == sel
            },
            Self::same_registers(old(self), final(self)),
            Self::dot_work(&old(self).dot_start(), final(self)),
            // what a dot leaves alone
            final(self).spec_vram() == old(self).spec_vram(),
            final(self).spec_oam() == old(self).spec_oam(),
            final(self).spec_vram_bank() == old(self).spec_vram_bank(),
            final(self).spec_stat_sources() == old(self).spec_stat_sources(),
            final(self).spec_cgb_bg_data() == old(self).spec_cgb_bg_data(),
            final(self).spec_cgb_obj_data() == old(self).spec_cgb_obj_data(),
            forall|a: u16|
                a != 0xFF41 && a != 0xFF44 && a != 0xFF69 && a != 0xFF6B
                    ==> #[trigger] final(self).spec_read(a) == old(self).spec_read(a),
            // a drawing dot
            old(self).spec_cycle() != 455 && old(self).spec_mode_number() == 3 ==> {
                &&& final(self).spec_x() == old(self).spec_x() + 1 <==> old(self).pixel_ready()
                &&& old(self).pixel_ready() ==> final(self).spec_frame() == put_pixel(
                    old(self).spec_frame(),
                    old(self).spec_y() * FRAME_WIDTH + old(self).spec_x(),
                    shade(old(self).pixel_color() as int),
                )
                &&& !old(self).pixel_ready() ==> final(self).spec_frame() == old(self).spec_frame()
                &&& final(self).spec_mode_number() == 0 <==> final(self).spec_x() == 160
                &&& final(self).spec_mode_number() == 0 || final(self).spec_mode_number() == 3
            },
            // a new line starts
            old(self).spec_cycle() == 455 ==> {
                &&& final(bus)@ == old(bus)@ + line_start_requests(
                    final(self).spec_y() as int,
                    old(self).spec_stat_sources(),
                    old(self).spec_y_compare(),
                )
                &&& final(self).spec_mode_number() == if final(self).spec_y() >= 144 {
                    1u8
                } else {
                    2u8
                }
                &&& final(self).spec_x() == 0
                &&& final(self).spec_frame() == old(self).spec_frame()
            },
            // within a line
            old(self).spec_cycle() != 455 ==> {
                &&& final(bus)@ == old(bus)@ + if old(self).spec_mode_number() == 3
                    && final(self).spec_mode_number() == 0 && bit(
                    old(self).spec_stat_sources(),
                    STAT_HBLANK_SOURCE,
                ) {
                    seq![Interrupt::LcdStat]
                } else {
                    Seq::empty()
                }
                &&& old(self).spec_y() < 144 && old(self).spec_cycle() == 79
                    ==> final(self).spec_mode_number() == 3
                &&& old(self).spec_mode_number() == 3 ==> (final(self).spec_mode_number() == 3
                    || final(self).spec_mode_number() == 0)
                &&& old(self).spec_mode_number() != 3 && !(old(self).spec_y() < 144
                    && old(self).spec_cycle() == 79) ==> final(self).spec_mode_number()
                    == old(self).spec_mode_number()
                &&& final(self).spec_x() == old(self).spec_x() ==> final(self).spec_frame()
                    == old(self).spec_frame()
                &&& final(self).spec_x() != old(self).spec_x() ==> final(self).spec_x()
                    == old(self).spec_x() + 1 && (old(self).spec_mode_number() == 3 || (
                    old(self).spec_y() < 144 && old(self).spec_cycle() == 79))
            },
    {
        self.cycle = self.cycle + 1;
        self.frame_taken = false;
        if self.y < 144 && self.cycle == 80 {
            self.fifo_mode = FifoMode::Drawing(DrawingState::new());
        }
        let ghost bus_before = bus@;
        if self.cycle == LINE_DOTS {
            self.cycle = 0;
            self.x = 0;
            self.background_pixel_pipeline = PixelFifo::new();
            self.sprite_pixel_pipeline = PixelFifo::new();
            self.y = self.y + 1;
            if self.y == FRAME_LINES {
                // end of the frame
                self.y = 0;
                self.window_y_counter = 0;
                self.window_y_flag = false;
            }
            if self.y >= 144 {
                self.fifo_mode = FifoMode::VBlank;
                if self.y == 144 {
                    bus.request_interrupt(Interrupt::VBlank);
                    if bit_of(self.lcd_status, STAT_VBLANK_SOURCE) {
                        bus.request_interrupt(Interrupt::LcdStat);
                    }
                }
            } else {
                self.fifo_mode = FifoMode::OamScan(OamScanState::new());
                if bit_of(self.lcd_status, STAT_OAM_SOURCE) {
                    bus.request_interrupt(Interrupt::LcdStat);
                }
            }
            if self.y == self.y_compare && bit_of(self.lcd_status, STAT_LYC_SOURCE) {
                bus.request_interrupt(Interrupt::LcdStat);
            }
            assert(bus@ =~= bus_before + line_start_requests(
                self.y as int,
                self.lcd_status,
                self.y_compare,
            ));
        }
        assert(*self == old(self).dot_start());
        let ghost pre = *self;
        if self.cycle == 0 && self.y < 144 {
            proof {
                self.lemma_scan_start();
            }
        }
        self.render(bus);
        proof {
            if old(self).cycle < 79 && old(self).y < 144 && old(self).scan_on_track() {
                assert(pre.scan_on_track());
                Self::lemma_scan_step(&pre, self);
            }
        }
    }

}

impl Default for Ppu {
    fn default() -> (r: Ppu)
        ensures
            r.powered_on(),
    {
        Ppu::new()
    }
}

} // verus!
