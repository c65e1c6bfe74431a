use vstd::prelude::*;

verus! {

/// The four steps of the pixel fetcher, taken in this order.
#[derive(Clone, Copy, PartialEq, Eq, Structural, Debug)]
pub enum PixelFetcherState {
    GetTile,
    GetTileLow,
    GetTileHigh,
    Push,
}

/// Progress of the OAM scan: the next entry to read, the bytes already copied
/// to secondary OAM, and whether the entry under inspection is on this line.
#[derive(Clone, Copy, PartialEq, Eq, Structural, Debug)]
pub struct OamScanState {
    pub oam_pointer: usize,
    pub secondary_oam_pointer: usize,
    pub is_visible: bool,
    /// The entry under inspection has been tested. A unit switched on at
    /// dot 0 starts with the test of entry 0 not done; the copy dot then
    /// tests the entry itself.
    pub tested: bool,
}

/// The pixel fetcher while drawing.
#[derive(Clone, Copy, Debug)]
pub struct DrawingState {
    pub pixel_fetcher: PixelFetcherState,
    /// Which of the two dots of a step this is.
    pub cycle: u8,
    pub is_sprite: bool,
    pub is_window: bool,
    /// The first tile fetch of the line, which is discarded, is done.
    pub primed: bool,
    /// Tile column of the next background or window fetch.
    pub fetcher_x: u8,
    pub tile_idx: u8,
    /// Byte offset in secondary OAM of the object being fetched.
    pub sprite_idx: u8,
    /// The row being assembled, one 2-bit colour index per pixel.
    pub buffer: [u16; 8],
}

/// The mode of the pixel processing unit, with the state of the modes that
/// have one.
#[derive(Clone, Copy, Debug)]
pub enum FifoMode {
    OamScan(OamScanState),
    Drawing(DrawingState),
    HBlank,
    VBlank,
}

/// The mode number that STAT reports.
pub open spec fn mode_number(m: FifoMode) -> u8 {
    match m {
        FifoMode::HBlank => 0,
        FifoMode::VBlank => 1,
        FifoMode::OamScan(_) => 2,
        FifoMode::Drawing(_) => 3,
    }
}

/// The fetcher at the start of a line: a background fetch of column 0.
pub open spec fn drawing_start() -> DrawingState {
    DrawingState {
        pixel_fetcher: PixelFetcherState::GetTile,
        cycle: 0,
        is_sprite: false,
        is_window: false,
        primed: false,
        fetcher_x: 0,
        tile_idx: 0,
        sprite_idx: 0,
        buffer: [0u16; 8usize],
    }
}

/// `st` with the fetch in progress abandoned: the next step starts a new
/// tile from an empty row.
pub open spec fn reset_of(st: DrawingState) -> DrawingState {
    DrawingState { pixel_fetcher: PixelFetcherState::GetTile, cycle: 0, buffer: [0u16; 8usize], ..st }
}

impl OamScanState {
    pub fn new() -> (r: OamScanState)
        ensures
            r.oam_pointer == 0,
            r.secondary_oam_pointer == 0,
            !r.is_visible,
            !r.tested,
    {
        OamScanState { oam_pointer: 0, secondary_oam_pointer: 0, is_visible: false, tested: false }
    }
}

impl DrawingState {
    /// The fetcher at the start of a line: a background fetch of column 0.
    pub fn new() -> (r: DrawingState)
        ensures
            r == drawing_start(),
            r.buffer@ == Seq::new(8, |i: int| 0u16),
    {
        DrawingState {
            pixel_fetcher: PixelFetcherState::GetTile,
            cycle: 0,
            is_sprite: false,
            is_window: false,
            primed: false,
            fetcher_x: 0,
            tile_idx: 0,
            sprite_idx: 0,
            buffer: [0u16; 8usize],
        }
    }

    /// Abandons the fetch in progress; the next step starts a new tile.
    pub fn reset(&mut self)
        ensures
            *final(self) == reset_of(*old(self)),
    {
        self.pixel_fetcher = PixelFetcherState::GetTile;
        self.cycle = 0;
        self.buffer = [0u16; 8];
        assert(self.buffer =~= [0u16; 8usize]);
    }
}

impl FifoMode {
    /// The mode number that STAT reports.
    pub fn number(&self) -> (r: u8)
        ensures
            r == mode_number(*self),
    {
        match self {
            FifoMode::HBlank => 0,
            FifoMode::VBlank => 1,
            FifoMode::OamScan(_) => 2,
            FifoMode::Drawing(_) => 3,
        }
    }
}

} // verus!
