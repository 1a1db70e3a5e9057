use vstd::prelude::*;

verus! {

/// A physical frame, named by its base address.
#[derive(Debug)]
pub struct Frame(u64);

impl View for Frame {
    type V = u64;

    closed spec fn view(&self) -> u64 {
        self.0
    }
}

impl Frame {
    pub fn from_addr(addr: u64) -> (r: Self)
        ensures
            r@ == addr,
    {
        Frame(addr)
    }

    pub fn addr(&self) -> (r: u64)
        ensures
            r == self@,
    {
        self.0
    }
}

} // verus!
