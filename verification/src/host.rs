//! Opaque handles for values owned by the host runtime.
//!
//! The bridge never inspects a host object or a host exception: it only
//! routes them.  Each is therefore represented by a plain token, which an
//! embedder maps to the real host value.
use vstd::prelude::*;

verus! {

/// Handle to a host-runtime object (an awaitable, a result value, ...).
#[derive(Clone, Copy, Debug, PartialEq, Eq, Structural)]
pub struct HostObj {
    pub id: u64,
}

/// Handle to a host-runtime exception.
#[derive(Clone, Copy, Debug, PartialEq, Eq, Structural)]
pub struct HostErr {
    pub id: u64,
}

} // verus!
