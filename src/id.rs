//! A counter that hands out sequence numbers for messages.
use vstd::prelude::*;

verus! {

/// Hands out sequence numbers 0, 1, 2, ... in order, each once.
pub struct SequentialIdProvider {
    seq_no_counter: u64,
}

impl View for SequentialIdProvider {
    type V = nat;

    /// The number the next call hands out.
    closed spec fn view(&self) -> nat {
        self.seq_no_counter as nat
    }
}

impl SequentialIdProvider {
    /// A provider whose first number is 0.
    pub fn new() -> (r: Self)
        ensures
            r@ == 0,
    {
        Self { seq_no_counter: 0 }
    }

    /// Whether another number can be handed out.
    pub fn has_next(&self) -> (r: bool)
        ensures
            r == (self@ < u64::MAX),
    {
        self.seq_no_counter < u64::MAX
    }

    /// The next number: one more than the number before it.
    pub fn next_id(&mut self) -> (r: u64)
        requires
            old(self)@ < u64::MAX,
        ensures
            r == old(self)@,
            final(self)@ == old(self)@ + 1,
    {
        let r = self.seq_no_counter;
        self.seq_no_counter = self.seq_no_counter + 1;
        r
    }
}

} // verus!
