use vstd::prelude::*;

verus! {

/// A region of source text, as a half-open range of byte offsets.
#[derive(Clone, Copy, Debug, PartialEq, Eq, Structural)]
pub struct Span {
    pub lo: u32,
    pub hi: u32,
}

impl Span {
    /// The span that stands for "no location known".
    pub fn dummy() -> (r: Span)
        ensures
            r.spec_is_dummy(),
    {
        Span { lo: 0, hi: 0 }
    }

    pub open spec fn spec_is_dummy(self) -> bool {
        self.lo == 0 && self.hi == 0
    }

    pub fn new(lo: u32, hi: u32) -> (r: Span)
        ensures
            r.lo == lo,
            r.hi == hi,
    {
        Span { lo, hi }
    }

    /// Returns `true` if this is the dummy span.
    pub fn is_dummy(&self) -> (r: bool)
        ensures
            r == self.spec_is_dummy(),
    {
        self.lo == 0 && self.hi == 0
    }
}

} // verus!
