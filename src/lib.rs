//! Core of a dot-clocked Game Boy emulator: the primary-page instruction
//! decoder of the Sharp LR35902 and the pixel processing unit.

pub mod decoder;

pub mod compose;
pub mod frame;
pub mod interrupt;
pub mod pixel_fifo;
pub mod ppu;
pub mod registers;
pub mod timing;

mod cgb_palette;
mod fifo_mode;
