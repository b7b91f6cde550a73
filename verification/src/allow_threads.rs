//! Marker wrapper for computations polled outside the host's critical
//! section.
//!
//! Wrapping a computation in [`AllowThreads`] records that every poll of
//! it should run with the host's exclusive critical section released, so
//! that host threads may run concurrently with it.  The wrapper itself
//! only carries the computation; the embedder, which owns the critical
//! section, honours the marker when polling.
use vstd::prelude::*;

verus! {

/// A computation whose polls run with the host's exclusive critical
/// section released.
#[derive(Debug)]
pub struct AllowThreads<T>(pub T);

/// Extension for wrapping any computation in [`AllowThreads`].
pub trait AllowThreadsExt: Sized {
    /// Wrap `self`, releasing the host's critical section around polls.
    fn allow_threads(self) -> (r: AllowThreads<Self>)
        ensures
            r.0 == self,
    ;
}

impl<T> AllowThreadsExt for T {
    fn allow_threads(self) -> (r: AllowThreads<Self>) {
        AllowThreads(self)
    }
}

} // verus!
