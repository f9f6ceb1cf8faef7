//! Handle numbering: each new object gets the next number.
use vstd::prelude::*;

verus! {

/// The number that the next object gets.
pub struct HandleCounter {
    pub next: usize,
}

impl HandleCounter {
    /// A counter that starts at `first`.
    pub fn new(first: usize) -> (c: Self)
        ensures
            c.next == first,
    {
        HandleCounter { next: first }
    }

    /// Hands out the next number.
    pub fn take(&mut self) -> (h: usize)
        requires
            old(self).next < usize::MAX,
        ensures
            h == old(self).next,
            final(self).next == old(self).next + 1,
    {
        let h = self.next;
        self.next = h + 1;
        h
    }
}

} // verus!
