use gband::interrupt::{Interrupt, PpuBus};
use gband::compose::{mix_pixel, palette_lookup};
use gband::frame::{shade_of, FRAME_BYTES};
use gband::ppu::Ppu;

const DOTS_PER_FRAME: usize = 456 * 154;

fn ly(ppu: &Ppu) -> u8 {
    ppu.read(0xFF44)
}

fn mode(ppu: &Ppu) -> u8 {
    ppu.read(0xFF41) & 3
}

/// Clocks one full frame and returns the frames handed out on the way.
fn run_frame(ppu: &mut Ppu, bus: &mut PpuBus) -> Vec<Vec<u8>> {
    let mut frames = Vec::new();
    for _ in 0..DOTS_PER_FRAME {
        ppu.clock(bus);
        if let Some(f) = ppu.ready_frame() {
            frames.push(f);
        }
    }
    frames
}

fn one_frame(ppu: &mut Ppu) -> Vec<u8> {
    let mut bus = PpuBus::new();
    let mut frames = run_frame(ppu, &mut bus);
    assert_eq!(frames.len(), 1);
    frames.pop().unwrap()
}

fn pixel(frame: &[u8], x: usize, y: usize) -> u8 {
    let base = (y * 160 + x) * 4;
    let v = frame[base];
    assert!(frame[base + 1] == v && frame[base + 2] == v && frame[base + 3] == v);
    v
}

fn assert_encoded(frame: &[u8]) {
    assert_eq!(frame.len(), FRAME_BYTES);
    for px in frame.chunks(4) {
        assert!([0xC0, 0x80, 0x40, 0x00].contains(&px[0]));
        assert!(px.iter().all(|b| *b == px[0]));
    }
}

#[test]
fn scanline_period() {
    let mut ppu = Ppu::new();
    let mut bus = PpuBus::new();
    for _ in 0..455 {
        ppu.clock(&mut bus);
        assert_eq!(ly(&ppu), 0);
    }
    ppu.clock(&mut bus);
    assert_eq!(ly(&ppu), 1);
}

#[test]
fn frame_period_hands_out_one_frame() {
    let mut ppu = Ppu::new();
    let mut bus = PpuBus::new();
    let mut handed = Vec::new();
    for n in 1..=DOTS_PER_FRAME {
        ppu.clock(&mut bus);
        if ppu.ready_frame().is_some() {
            handed.push(n);
        }
    }
    assert_eq!(handed, vec![DOTS_PER_FRAME]);
    assert_eq!(ly(&ppu), 0);
}

#[test]
fn default_is_new() {
    let a = Ppu::default();
    assert_eq!(a.read(0xFF44), 0);
    assert_eq!(a.read(0xFF41), 6);
}

#[test]
fn ready_frame_only_once_at_top() {
    let mut ppu = Ppu::new();
    assert!(ppu.ready_frame().is_some());
    assert!(ppu.ready_frame().is_none());
    let mut bus = PpuBus::new();
    ppu.clock(&mut bus);
    assert!(ppu.ready_frame().is_none());
}

#[test]
fn mode_coverage_on_visible_line() {
    let mut ppu = Ppu::new();
    let mut bus = PpuBus::new();
    ppu.write(0xFF40, 0x91);
    let mut dots = [0usize; 4];
    // dot 0 of line 0 is the state the unit starts in
    dots[mode(&ppu) as usize] += 1;
    for _ in 0..455 {
        ppu.clock(&mut bus);
        dots[mode(&ppu) as usize] += 1;
    }
    assert_eq!(dots[2], 80);
    assert_eq!(dots[3] + dots[0], 376);
    assert_eq!(dots[1], 0);
    assert!(dots[3] >= 172, "drawing took {} dots", dots[3]);
}

#[test]
fn vblank_once_per_frame() {
    let mut ppu = Ppu::new();
    let mut bus = PpuBus::new();
    let mut at = Vec::new();
    for n in 1..=DOTS_PER_FRAME {
        let before = bus.requests().len();
        ppu.clock(&mut bus);
        if bus.requests()[before..].contains(&Interrupt::VBlank) {
            at.push((n, ly(&ppu)));
        }
    }
    assert_eq!(at, vec![(144 * 456, 144)]);
    assert_eq!(mode(&ppu), 2);
}

#[test]
fn lyc_flag_tracks_line() {
    let mut ppu = Ppu::new();
    let mut bus = PpuBus::new();
    ppu.write(0xFF45, 5);
    for _ in 0..DOTS_PER_FRAME {
        let stat = ppu.read(0xFF41);
        assert_eq!(stat & 4 != 0, ly(&ppu) == 5);
        ppu.clock(&mut bus);
    }
}

#[test]
fn lyc_interrupt() {
    let mut ppu = Ppu::new();
    let mut bus = PpuBus::new();
    ppu.write(0xFF45, 64);
    ppu.write(0xFF41, 0x40);
    let mut n = 0;
    while ly(&ppu) != 64 {
        ppu.clock(&mut bus);
        n += 1;
    }
    assert_eq!(n, 64 * 456);
    assert_eq!(bus.requests(), &vec![Interrupt::LcdStat]);
}

#[test]
fn stat_sources_raise_requests() {
    let mut ppu = Ppu::new();
    let mut bus = PpuBus::new();
    ppu.write(0xFF41, 0x08 | 0x10 | 0x20);
    let mut frames = run_frame(&mut ppu, &mut bus);
    assert_eq!(frames.len(), 1);
    frames.clear();
    let stat = bus.requests().iter().filter(|i| **i == Interrupt::LcdStat).count();
    // 144 H-Blank entries, 1 V-Blank entry, 144 OAM scans (lines 1..143 and line 0)
    assert_eq!(stat, 144 + 1 + 144);
}

#[test]
fn oam_dma_bypass() {
    let mut ppu = Ppu::new();
    let mut bus = PpuBus::new();
    for _ in 0..80 {
        ppu.clock(&mut bus);
    }
    assert_eq!(mode(&ppu), 3);
    ppu.write_oam(0xFE10, 0x55, false);
    assert_eq!(ppu.read_oam(0xFE10, true), 0x00);
    assert_eq!(ppu.read_oam(0xFE10, false), 0xFF);
    ppu.write_oam(0xFE10, 0x55, true);
    assert_eq!(ppu.read_oam(0xFE10, true), 0x55);
}

#[test]
fn oam_open_outside_scan_and_drawing() {
    let mut ppu = Ppu::new();
    let mut bus = PpuBus::new();
    while mode(&ppu) != 0 {
        ppu.clock(&mut bus);
    }
    ppu.write_oam(0xFE03, 0x12, false);
    assert_eq!(ppu.read_oam(0xFE03, false), 0x12);
}

#[test]
fn vram_read_block() {
    let mut ppu = Ppu::new();
    let mut bus = PpuBus::new();
    ppu.write_vram(0x8123, 0x42);
    assert_eq!(ppu.read_vram(0x8123), 0x42);
    for _ in 0..80 {
        ppu.clock(&mut bus);
    }
    assert_eq!(mode(&ppu), 3);
    assert_eq!(ppu.read_vram(0x8123), 0xFF);
    assert_eq!(ppu.read_vram(0x9FFF), 0xFF);
    ppu.write_vram(0x8123, 0x99);
    while mode(&ppu) != 0 {
        ppu.clock(&mut bus);
    }
    assert_eq!(ppu.read_vram(0x8123), 0x42);
    // the address is taken modulo 8 KiB
    assert_eq!(ppu.read_vram(0xA123), 0x42);
}

#[test]
fn blank_frame_with_palettes_zero() {
    let mut ppu = Ppu::new();
    ppu.write(0xFF40, 0x80);
    let frame = one_frame(&mut ppu);
    assert_encoded(&frame);
    assert!(frame.iter().all(|b| *b == 0xC0));
}

#[test]
fn solid_color_background() {
    let mut ppu = Ppu::new();
    for addr in 0x9800u16..0x9C00 {
        ppu.write_vram(addr, 0);
    }
    for addr in 0x8000u16..0x8010 {
        ppu.write_vram(addr, 0xFF);
    }
    ppu.write(0xFF47, 0b11100100);
    ppu.write(0xFF40, 0x91);
    let frame = one_frame(&mut ppu);
    assert_encoded(&frame);
    assert!(frame.iter().all(|b| *b == 0x00));
}

#[test]
fn single_sprite_at_top_left() {
    let mut ppu = Ppu::new();
    let entry = [16u8, 8, 0, 0];
    for (i, v) in entry.iter().enumerate() {
        ppu.write_oam(0xFE00 + i as u16, *v, true);
    }
    for addr in 0x8000u16..0x8010 {
        ppu.write_vram(addr, 0xFF);
    }
    ppu.write(0xFF48, 0b11100100);
    ppu.write(0xFF40, 0x82);
    let frame = one_frame(&mut ppu);
    assert_encoded(&frame);
    for y in 0..144 {
        for x in 0..160 {
            let expected = if x < 8 && y < 8 { 0x00 } else { 0xC0 };
            assert_eq!(pixel(&frame, x, y), expected, "({}, {})", x, y);
        }
    }
}

#[test]
fn sprite_clipped_by_left_edge() {
    let mut ppu = Ppu::new();
    // X = 4: only the right half of the object is on screen
    let entry = [16u8, 4, 0, 0];
    for (i, v) in entry.iter().enumerate() {
        ppu.write_oam(0xFE00 + i as u16, *v, true);
    }
    // left half colour 1, right half colour 3
    for row in 0..8u16 {
        ppu.write_vram(0x8000 + 2 * row, 0xFF);
        ppu.write_vram(0x8001 + 2 * row, 0x0F);
    }
    ppu.write(0xFF48, 0b11100100);
    ppu.write(0xFF40, 0x82);
    let frame = one_frame(&mut ppu);
    for y in 0..8 {
        for x in 0..4 {
            assert_eq!(pixel(&frame, x, y), 0x00);
        }
        assert_eq!(pixel(&frame, 4, y), 0xC0);
    }
}

#[test]
fn window_activation() {
    let mut ppu = Ppu::new();
    // background map at 0x9800: tile 0, blank
    // window map at 0x9C00: tile 1, colour 1 on even tile rows, 0 on odd
    for addr in 0x9C00u16..0xA000 {
        ppu.write_vram(addr, 1);
    }
    for row in 0..8u16 {
        let low = if row % 2 == 0 { 0xFF } else { 0x00 };
        ppu.write_vram(0x8010 + 2 * row, low);
    }
    ppu.write(0xFF47, 0b11100100);
    ppu.write(0xFF4A, 72);
    ppu.write(0xFF4B, 7);
    // LCD on, window map 0x9C00, window on, tile data 0x8000, BG on
    ppu.write(0xFF40, 0x80 | 0x40 | 0x20 | 0x10 | 0x01);
    let frame = one_frame(&mut ppu);
    assert_encoded(&frame);
    for y in 0..144 {
        for x in 0..160 {
            let expected = if y < 72 {
                0xC0
            } else if (y - 72) % 2 == 0 {
                0x80
            } else {
                0xC0
            };
            assert_eq!(pixel(&frame, x, y), expected, "({}, {})", x, y);
        }
    }
}

#[test]
fn fine_scroll_shifts_background() {
    let mut ppu = Ppu::new();
    // tile 0 has its leftmost column in colour 3; tile map all 0
    for row in 0..8u16 {
        ppu.write_vram(0x8000 + 2 * row, 0x80);
        ppu.write_vram(0x8001 + 2 * row, 0x80);
    }
    ppu.write(0xFF47, 0b11100100);
    ppu.write(0xFF43, 3);
    ppu.write(0xFF40, 0x91);
    let frame = one_frame(&mut ppu);
    for x in 0..160 {
        let expected = if (x + 3) % 8 == 0 { 0x00 } else { 0xC0 };
        assert_eq!(pixel(&frame, x, 10), expected, "x = {}", x);
    }
}

#[test]
fn register_file_round_trip() {
    let mut ppu = Ppu::new();
    for (addr, v) in [
        (0xFF40u16, 0x91u8),
        (0xFF42, 0x12),
        (0xFF43, 0x34),
        (0xFF45, 0x56),
        (0xFF47, 0xE4),
        (0xFF48, 0x1B),
        (0xFF49, 0x27),
        (0xFF4A, 0x40),
        (0xFF4B, 0x50),
    ] {
        ppu.write(addr, v);
        assert_eq!(ppu.read(addr), v, "{:#06X}", addr);
    }
    // LY is read-only, KEY0 is locked, unknown addresses read 0
    ppu.write(0xFF44, 9);
    assert_eq!(ppu.read(0xFF44), 0);
    ppu.write(0xFF4C, 9);
    assert_eq!(ppu.read(0xFF4C), 0xFF);
    ppu.write(0xFF46, 9);
    assert_eq!(ppu.read(0xFF46), 0);
}

#[test]
fn stat_writable_bits() {
    let mut ppu = Ppu::new();
    ppu.write(0xFF45, 1);
    ppu.write(0xFF41, 0xFF);
    // sources 3..6 kept, LYC flag clear (LY 0, LYC 1), mode 2
    assert_eq!(ppu.read(0xFF41), 0x78 | 2);
    ppu.write(0xFF45, 0);
    assert_eq!(ppu.read(0xFF41), 0x78 | 4 | 2);
}

#[test]
fn cgb_palette_ports() {
    let mut ppu = Ppu::new();
    assert_eq!(ppu.read(0xFF69), 0xFF);
    ppu.write(0xFF68, 0x80);
    ppu.write(0xFF69, 0x11);
    ppu.write(0xFF69, 0x22);
    assert_eq!(ppu.read(0xFF68), 0x82);
    ppu.write(0xFF68, 0x01);
    assert_eq!(ppu.read(0xFF69), 0x22);
    ppu.write(0xFF68, 0x00);
    assert_eq!(ppu.read(0xFF69), 0x11);
    ppu.write(0xFF6A, 0x3F);
    ppu.write(0xFF6B, 0x33);
    assert_eq!(ppu.read(0xFF6B), 0x33);
    assert_eq!(ppu.read(0xFF6A), 0x3F);
}

#[test]
fn cgb_palette_blocked_while_drawing() {
    let mut ppu = Ppu::new();
    let mut bus = PpuBus::new();
    for _ in 0..80 {
        ppu.clock(&mut bus);
    }
    ppu.write(0xFF68, 0x00);
    ppu.write(0xFF69, 0x11);
    assert_eq!(ppu.read(0xFF69), 0xFF);
    while mode(&ppu) != 0 {
        ppu.clock(&mut bus);
    }
    assert_eq!(ppu.read(0xFF69), 0xFF);
}

#[test]
fn shades_of_colours() {
    assert_eq!(shade_of(0), 0xC0);
    assert_eq!(shade_of(1), 0x80);
    assert_eq!(shade_of(2), 0x40);
    assert_eq!(shade_of(3), 0x00);
}

#[test]
fn palette_entries() {
    let p = 0b11_10_01_00;
    assert_eq!(palette_lookup(p, 0), 0);
    assert_eq!(palette_lookup(p, 1), 1);
    assert_eq!(palette_lookup(p, 2), 2);
    assert_eq!(palette_lookup(p, 3), 3);
    assert_eq!(palette_lookup(0b00_01_10_11, 0), 3);
}

#[test]
fn pixel_mixing_rules() {
    let bgp = 0b11_10_01_00;
    let obp0 = 0b00_01_10_11;
    let obp1 = 0b01_01_01_01;
    // objects on, BG on
    let lcdc = 0x03;
    // transparent object: background shows
    assert_eq!(mix_pixel(lcdc, bgp, obp0, obp1, 2, 0), 2);
    // opaque object above the background
    assert_eq!(mix_pixel(lcdc, bgp, obp0, obp1, 2, 1), 2);
    assert_eq!(mix_pixel(lcdc, bgp, obp0, obp1, 0, 3), 0);
    // palette bit 4 picks OBP1
    assert_eq!(mix_pixel(lcdc, bgp, obp0, obp1, 0, 0x10 | 3), 1);
    // priority bit 7: background colours 1..3 win, colour 0 does not
    assert_eq!(mix_pixel(lcdc, bgp, obp0, obp1, 1, 0x80 | 2), 1);
    assert_eq!(mix_pixel(lcdc, bgp, obp0, obp1, 0, 0x80 | 2), 1);
    // objects off
    assert_eq!(mix_pixel(0x01, bgp, obp0, obp1, 3, 1), 3);
    // BG priority bit clear: background forced to entry 0
    assert_eq!(mix_pixel(0x00, 0b11_10_01_10, obp0, obp1, 3, 0), 2);
}

#[test]
fn bus_keeps_requests_in_order() {
    let mut ppu = Ppu::new();
    let mut bus = PpuBus::new();
    // V-Blank and LYC sources; LYC matches line 144
    ppu.write(0xFF41, 0x10 | 0x40);
    ppu.write(0xFF45, 144);
    for _ in 0..144 * 456 {
        ppu.clock(&mut bus);
    }
    assert_eq!(
        bus.requests(),
        &vec![Interrupt::VBlank, Interrupt::LcdStat, Interrupt::LcdStat]
    );
    bus.clear();
    assert!(bus.requests().is_empty());
    ppu.clock(&mut bus);
    assert!(bus.requests().is_empty());
}

#[test]
fn leftmost_object_wins_overlap() {
    let mut ppu = Ppu::new();
    // entry 0: X = 12 (columns 4..12), tile 0 in colour 3
    // entry 1: X = 8 (columns 0..8), tile 1 in colour 1
    let entries = [16u8, 12, 0, 0, 16, 8, 1, 0];
    for (i, v) in entries.iter().enumerate() {
        ppu.write_oam(0xFE00 + i as u16, *v, true);
    }
    for row in 0..8u16 {
        ppu.write_vram(0x8000 + 2 * row, 0xFF);
        ppu.write_vram(0x8001 + 2 * row, 0xFF);
        ppu.write_vram(0x8010 + 2 * row, 0xFF);
        ppu.write_vram(0x8011 + 2 * row, 0x00);
    }
    ppu.write(0xFF48, 0b11100100);
    ppu.write(0xFF40, 0x82);
    let frame = one_frame(&mut ppu);
    for y in 0..8 {
        for x in 0..8 {
            assert_eq!(pixel(&frame, x, y), 0x80, "({}, {})", x, y);
        }
        for x in 8..12 {
            assert_eq!(pixel(&frame, x, y), 0x00, "({}, {})", x, y);
        }
        assert_eq!(pixel(&frame, 12, y), 0xC0);
    }
}

#[test]
fn leftmost_object_wins_at_left_edge() {
    let mut ppu = Ppu::new();
    // entry 0: X = 6 (columns 0..6 on screen), tile 1 in colour 1
    // entry 1: X = 4 (columns 0..4 on screen), tile 0 in colour 3
    let entries = [16u8, 6, 1, 0, 16, 4, 0, 0];
    for (i, v) in entries.iter().enumerate() {
        ppu.write_oam(0xFE00 + i as u16, *v, true);
    }
    for row in 0..8u16 {
        ppu.write_vram(0x8000 + 2 * row, 0xFF);
        ppu.write_vram(0x8001 + 2 * row, 0xFF);
        ppu.write_vram(0x8010 + 2 * row, 0xFF);
        ppu.write_vram(0x8011 + 2 * row, 0x00);
    }
    ppu.write(0xFF48, 0b11100100);
    ppu.write(0xFF40, 0x82);
    let frame = one_frame(&mut ppu);
    for y in 0..8 {
        for x in 0..4 {
            assert_eq!(pixel(&frame, x, y), 0x00, "({}, {})", x, y);
        }
        for x in 4..6 {
            assert_eq!(pixel(&frame, x, y), 0x80, "({}, {})", x, y);
        }
        assert_eq!(pixel(&frame, 6, y), 0xC0);
    }
}

#[test]
fn first_line_after_power_on_scans_entry_zero() {
    let mut ppu = Ppu::new();
    let entry = [16u8, 8, 0, 0];
    for (i, v) in entry.iter().enumerate() {
        ppu.write_oam(0xFE00 + i as u16, *v, true);
    }
    for addr in 0x8000u16..0x8010 {
        ppu.write_vram(addr, 0xFF);
    }
    ppu.write(0xFF48, 0b11100100);
    ppu.write(0xFF40, 0x82);
    let frame = one_frame(&mut ppu);
    for x in 0..8 {
        assert_eq!(pixel(&frame, x, 0), 0x00);
    }
}

#[test]
fn hblank_starts_no_earlier_than_dot_252() {
    let mut ppu = Ppu::new();
    let mut bus = PpuBus::new();
    ppu.write(0xFF40, 0x91);
    ppu.write(0xFF43, 5);
    let mut dot = 0;
    while mode(&ppu) != 0 {
        ppu.clock(&mut bus);
        dot += 1;
    }
    assert!(dot >= 252, "H-Blank at dot {}", dot);
}
