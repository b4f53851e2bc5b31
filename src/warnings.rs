//! The buffer that collects the warnings of a compile until a caller takes them.
use vstd::prelude::*;

verus! {

/// `taken` is what a take from a buffer holding `before` hands out, and
/// `after` what the buffer holds once it is done.
pub open spec fn is_take<W>(before: Seq<W>, taken: Seq<W>, after: Seq<W>) -> bool {
    taken == before && after == Seq::<W>::empty()
}

/// An append-only buffer of warnings with a take-and-clear read.
#[derive(Debug)]
pub struct WarningSink<W> {
    pending: Vec<W>,
}

impl<W> View for WarningSink<W> {
    type V = Seq<W>;

    closed spec fn view(&self) -> Seq<W> {
        self.pending@
    }
}

impl<W> WarningSink<W> {
    /// An empty buffer.
    pub fn new() -> (r: Self)
        ensures
            r@ == Seq::<W>::empty(),
    {
        WarningSink { pending: Vec::new() }
    }

    /// Adds one warning after those already held.
    pub fn emit(&mut self, warning: W)
        ensures
            final(self)@ == old(self)@.push(warning),
    {
        self.pending.push(warning);
    }

    /// Adds `warnings`, in order, after those already held.
    pub fn extend(&mut self, warnings: Vec<W>)
        ensures
            final(self)@ == old(self)@ + warnings@,
    {
        let mut warnings = warnings;
        self.pending.append(&mut warnings);
    }

    /// Hands out every warning held, in the order they came, and empties the
    /// buffer.
    pub fn take(&mut self) -> (r: Vec<W>)
        ensures
            is_take(old(self)@, r@, final(self)@),
    {
        let mut taken: Vec<W> = Vec::new();
        std::mem::swap(&mut taken, &mut self.pending);
        taken
    }
}

/// Two takes in a row: the first hands out what was held, the second hands out
/// nothing.
pub proof fn lemma_second_take_is_empty<W>(
    held: Seq<W>,
    first: Seq<W>,
    between: Seq<W>,
    second: Seq<W>,
    after: Seq<W>,
)
    requires
        is_take(held, first, between),
        is_take(between, second, after),
    ensures
        first == held,
        second.len() == 0,
        after.len() == 0,
{
}

} // verus!
