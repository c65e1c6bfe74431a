use vstd::prelude::*;

verus! {

/// Number of pixels a fetch produces, and the capacity of the queue.
pub const ROW_PIXELS: usize = 8;

/// A pixel is transparent when its 2-bit colour index is 0.
pub open spec fn is_transparent(px: u16) -> bool {
    px % 4 == 0
}

/// The pixel a pop gives: the front one, or a transparent 0 from an empty
/// queue.
pub open spec fn front(q: Seq<u16>) -> u16 {
    if q.len() > 0 {
        q[0]
    } else {
        0
    }
}

/// The queue after a row of pixels is laid over `q`, both aligned at the
/// front: a queued pixel that is not transparent stays, every other slot the
/// row covers takes the row's pixel, and slots past the row keep theirs.
pub open spec fn overlay(q: Seq<u16>, row: Seq<u16>) -> Seq<u16> {
    let n = if q.len() >= row.len() {
        q.len()
    } else {
        row.len()
    };
    Seq::new(
        n,
        |i: int|
            if i < q.len() && (i >= row.len() || !is_transparent(q[i])) {
                q[i]
            } else {
                row[i]
            },
    )
}

/// A queue of at most eight pixel words, front first. Each word holds a 2-bit
/// colour index in its low bits and, for objects, palette and priority flags.
#[derive(Clone, Copy, Debug)]
pub struct PixelFifo {
    pixels: [u16; 8],
    len: usize,
}

impl View for PixelFifo {
    type V = Seq<u16>;

    closed spec fn view(&self) -> Seq<u16> {
        self.pixels@.subrange(0, self.len as int)
    }
}

impl PixelFifo {
    pub closed spec fn wf(&self) -> bool {
        self.len <= 8
    }

    pub proof fn lemma_empty()
        ensures
            PixelFifo::empty().wf(),
            PixelFifo::empty()@.len() == 0,
    {
    }

    /// The empty queue.
    pub closed spec fn empty() -> PixelFifo {
        PixelFifo { pixels: [0u16; 8usize], len: 0 }
    }

    /// An empty queue.
    pub fn new() -> (r: PixelFifo)
        ensures
            r.wf(),
            r@.len() == 0,
            r == PixelFifo::empty(),
    {
        let r = PixelFifo { pixels: [0u16; 8], len: 0 };
        assert(r.pixels =~= [0u16; 8usize]);
        r
    }

    pub fn is_empty(&self) -> (r: bool)
        requires
            self.wf(),
        ensures
            r == (self@.len() == 0),
    {
        self.len == 0
    }

    /// Lays the row of eight pixels, less its first `skip`, over the queue;
    /// on an empty queue this loads those pixels as they are.
    pub fn load(&mut self, row: [u16; 8], skip: usize)
        requires
            old(self).wf(),
            skip <= 8,
        ensures
            final(self).wf(),
            final(self)@ == overlay(old(self)@, row@.skip(skip as int)),
    {
        let ghost laid = row@.skip(skip as int);
        let n = ROW_PIXELS - skip;
        let mut i: usize = 0;
        while i < n
            invariant
                0 <= i <= n,
                n == 8 - skip,
                skip <= 8,
                laid == row@.skip(skip as int),
                self.len == old(self).len,
                self.len <= 8,
                forall|j: int|
                    0 <= j < i ==> #[trigger] self.pixels@[j] == overlay(old(self)@, laid)[j],
                forall|j: int| i <= j < 8 ==> #[trigger] self.pixels@[j] == old(self).pixels@[j],
            decreases n - i,
        {
            if i >= self.len || self.pixels[i] % 4 == 0 {
                self.pixels[i] = row[i + skip];
            }
            i = i + 1;
        }
        if self.len < n {
            self.len = n;
        }
        assert(self@ =~= overlay(old(self)@, laid));
    }

    /// Takes the front pixel; an empty queue gives a transparent 0.
    pub fn pop(&mut self) -> (r: u16)
        requires
            old(self).wf(),
        ensures
            final(self).wf(),
            r == front(old(self)@),
            old(self)@.len() == 0 ==> r == 0 && final(self)@ == old(self)@,
            old(self)@.len() > 0 ==> r == old(self)@[0] && final(self)@ == old(self)@.drop_first(),
    {
        if self.len == 0 {
            return 0;
        }
        let front = self.pixels[0];
        let mut i: usize = 0;
        while i + 1 < self.len
            invariant
                0 <= i < self.len,
                self.len == old(self).len,
                self.len <= 8,
                forall|j: int| 0 <= j < i ==> #[trigger] self.pixels@[j] == old(self).pixels@[j + 1],
                forall|j: int| i <= j < 8 ==> #[trigger] self.pixels@[j] == old(self).pixels@[j],
            decreases self.len - i,
        {
            self.pixels[i] = self.pixels[i + 1];
            i = i + 1;
        }
        self.len = self.len - 1;
        assert(self@ =~= old(self)@.drop_first());
        front
    }
}

} // verus!
