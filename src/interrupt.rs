use vstd::prelude::*;

verus! {

/// Interrupt lines the pixel processing unit can raise.
#[derive(Clone, Copy, PartialEq, Eq, Structural, Debug)]
pub enum Interrupt {
    VBlank,
    LcdStat,
}

/// The bus side that receives interrupt requests, in the order they are made.
pub struct PpuBus {
    requests: Vec<Interrupt>,
}

impl View for PpuBus {
    type V = Seq<Interrupt>;

    closed spec fn view(&self) -> Seq<Interrupt> {
        self.requests@
    }
}

impl PpuBus {
    /// A bus with no request yet.
    pub fn new() -> (r: PpuBus)
        ensures
            r@ == Seq::<Interrupt>::empty(),
    {
        PpuBus { requests: Vec::new() }
    }

    /// Records one request.
    pub fn request_interrupt(&mut self, kind: Interrupt)
        ensures
            final(self)@ == old(self)@.push(kind),
    {
        self.requests.push(kind);
    }

    /// Every request made so far, oldest first.
    pub fn requests(&self) -> (r: &Vec<Interrupt>)
        ensures
            r@ == self@,
    {
        &self.requests
    }

    /// Forgets the requests made so far.
    pub fn clear(&mut self)
        ensures
            final(self)@ == Seq::<Interrupt>::empty(),
    {
        self.requests.clear();
    }
}

} // verus!
