//! The per-connection serial counter. Serials start at 1 and go up by one
//! with each assignment; the counter also keeps the ghost history of every
//! serial it handed out, so the monotonicity of the whole sequence is part
//! of its invariant.

use vstd::prelude::*;

verus! {

/// Hands out the connection's serial numbers.
pub struct SerialAllocator {
    next: u32,
    issued: Ghost<Seq<u32>>,
}

impl SerialAllocator {
    /// The serial the next call will return.
    pub closed spec fn next_spec(&self) -> u32 {
        self.next
    }

    /// Every serial handed out so far, oldest first.
    pub closed spec fn issued_seq(&self) -> Seq<u32> {
        self.issued@
    }

    /// The history is exactly the run of consecutive integers ending just
    /// below `next`, and the first serial handed out was 1.
    pub open spec fn wf(&self) -> bool {
        &&& self.next_spec() >= 1
        &&& self.issued_seq().len() == self.next_spec() - 1
        &&& forall|i: int|
            0 <= i < self.issued_seq().len() ==> #[trigger] self.issued_seq()[i] == i + 1
    }

    /// The serial the next call will return, without advancing.
    pub fn peek_next(&self) -> (r: u32)
        ensures
            r == self.next_spec(),
    {
        self.next
    }

    /// A fresh counter: nothing issued, the first serial will be 1.
    pub fn new() -> (r: Self)
        ensures
            r.wf(),
            r.next_spec() == 1,
            r.issued_seq() == Seq::<u32>::empty(),
    {
        SerialAllocator { next: 1, issued: Ghost(Seq::empty()) }
    }

    /// Returns the next serial and advances the counter.
    ///
    /// Wrap-around is undefined for D-Bus serials, so the counter must not
    /// be exhausted.
    pub fn next_serial(&mut self) -> (r: u32)
        requires
            old(self).wf(),
            old(self).next_spec() < u32::MAX,
        ensures
            final(self).wf(),
            r == old(self).next_spec(),
            final(self).next_spec() == r + 1,
            final(self).issued_seq() == old(self).issued_seq().push(r),
    {
        let r = self.next;
        self.next = self.next + 1;
        proof {
            self.issued@ = self.issued@.push(r);
        }
        r
    }
}

/// The serials of one connection strictly increase, in steps of exactly 1:
/// of any two serials in the issued history, the later exceeds the earlier
/// by their distance in the history.
pub proof fn lemma_serials_strictly_increase(a: SerialAllocator, i: int, j: int)
    requires
        a.wf(),
        0 <= i < j < a.issued_seq().len(),
    ensures
        a.issued_seq()[i] < a.issued_seq()[j],
        a.issued_seq()[j] - a.issued_seq()[i] == j - i,
{
}

/// Each serial in the issued history is exactly one more than the serial
/// issued just before it.
pub proof fn lemma_serials_consecutive(a: SerialAllocator, i: int)
    requires
        a.wf(),
        0 <= i < a.issued_seq().len() - 1,
    ensures
        a.issued_seq()[i + 1] == a.issued_seq()[i] + 1,
{
}

} // verus!
