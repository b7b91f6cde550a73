//! Marker wrapper for releasing the host's critical section inside
//! host-bound polls.
//!
//! Where [`AllowThreads`](crate::allow_threads::AllowThreads) acquires and
//! releases the critical section around a whole poll, [`GilUnbound`] marks
//! a computation polled from within a host-bound poll — the section is
//! already held — whose own work should run with it released.
use vstd::prelude::*;

verus! {

/// A computation whose work runs with the already-held critical section
/// temporarily released.
#[derive(Debug)]
pub struct GilUnbound<T>(pub T);

/// Extension for wrapping any computation in [`GilUnbound`].
pub trait UnbindGil: Sized {
    /// Wrap `self`, releasing the held critical section around its work.
    fn unbind_gil(self) -> (r: GilUnbound<Self>)
        ensures
            r.0 == self,
    ;
}

impl<T> UnbindGil for T {
    fn unbind_gil(self) -> (r: GilUnbound<Self>) {
        GilUnbound(self)
    }
}

} // verus!
