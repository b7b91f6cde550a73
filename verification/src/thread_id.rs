//! Monotonic thread identities.
//!
//! Wake dispatch compares the waking thread against the thread that created
//! a waker.  Instead of comparing host thread handles, whose lifetimes are
//! ambiguous, every thread is assigned a number from a process-wide counter
//! the first time it is seen.  The counter only grows, so an identity is
//! never reused.
use vstd::prelude::*;

verus! {

/// The process-wide counter that hands out thread identities.
pub struct ThreadIdSource {
    pub next: u64,
}

/// The identities issued by `n` successive assignments of a counter that
/// currently stands at `start`.
pub open spec fn issued_ids(start: int, n: nat) -> Seq<int> {
    Seq::new(n, |i: int| start + i)
}

impl ThreadIdSource {
    /// A fresh counter; no identity has been handed out yet.
    pub fn new() -> (s: Self)
        ensures
            s.next == 0,
    {
        ThreadIdSource { next: 0 }
    }

    /// Assign the next identity.  Identities grow strictly, so two
    /// allocations never return the same number.
    pub fn assign(&mut self) -> (id: u64)
        requires
            old(self).next < u64::MAX,
        ensures
            id == old(self).next,
            final(self).next == old(self).next + 1,
    {
        let id = self.next;
        self.next = self.next + 1;
        id
    }
}

/// Two distinct assignments from one counter yield distinct identities,
/// however many assignments lie between them.
pub proof fn lemma_issued_ids_distinct(start: int, n: nat, i: int, j: int)
    requires
        0 <= i < n,
        0 <= j < n,
        i != j,
    ensures
        issued_ids(start, n)[i] != issued_ids(start, n)[j],
{
}

} // verus!
