use vstd::prelude::*;

verus! {

/// One colour palette memory of the colour model: 8 palettes of 4 colours of
/// 2 bytes, reached through an index register that can step on each write.
#[derive(Clone, Copy, Debug)]
pub struct CgbPalette {
    pub data: [u8; 64],
    /// Bits 0..5 of the spec register.
    pub index: u8,
    /// Bit 7 of the spec register.
    pub auto_increment: bool,
}

impl CgbPalette {
    pub open spec fn wf(&self) -> bool {
        self.index < 64
    }

    /// The spec register as it reads.
    pub open spec fn spec_read_spec(&self) -> u8 {
        (self.index + if self.auto_increment {
            128u8
        } else {
            0u8
        }) as u8
    }

    /// A palette memory filled with `fill`, index 0, no auto-increment.
    pub fn new(fill: u8) -> (r: CgbPalette)
        ensures
            r.wf(),
            r.index == 0,
            !r.auto_increment,
            forall|i: int| 0 <= i < 64 ==> r.data@[i] == fill,
    {
        CgbPalette { data: [fill; 64], index: 0, auto_increment: false }
    }

    pub fn write_spec(&mut self, v: u8)
        ensures
            final(self).wf(),
            final(self).index == v % 64,
            final(self).auto_increment == (v >= 128),
            final(self).data == old(self).data,
    {
        self.index = v % 64;
        self.auto_increment = v >= 128;
    }

    pub fn read_spec(&self) -> (r: u8)
        requires
            self.wf(),
        ensures
            r == self.spec_read_spec(),
    {
        self.index + if self.auto_increment {
            128
        } else {
            0
        }
    }

    /// Writes the byte under the index, then steps the index if asked to.
    /// While `blocked` (the drawing mode) nothing happens.
    pub fn write_data(&mut self, v: u8, blocked: bool)
        requires
            old(self).wf(),
        ensures
            final(self).wf(),
            blocked ==> *final(self) == *old(self),
            !blocked ==> final(self).data@ == old(self).data@.update(old(self).index as int, v),
            !blocked ==> final(self).index == if old(self).auto_increment {
                (old(self).index + 1) % 64
            } else {
                old(self).index as int
            },
            final(self).auto_increment == old(self).auto_increment,
    {
        if !blocked {
            self.data[self.index as usize] = v;
            if self.auto_increment {
                self.index = (self.index + 1) % 64;
            }
        }
    }

    /// The byte under the index; `0xFF` while `blocked`.
    pub fn read_data(&self, blocked: bool) -> (r: u8)
        requires
            self.wf(),
        ensures
            r == if blocked {
                0xFFu8
            } else {
                self.data@[self.index as int]
            },
    {
        if blocked {
            0xFF
        } else {
            self.data[self.index as usize]
        }
    }
}

} // verus!
