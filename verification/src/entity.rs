//! Handles the middleware uses to name instances.

use vstd::prelude::*;

verus! {

/// An opaque handle naming one instance (one key value) inside the
/// middleware.
#[derive(Debug, Copy, Clone, PartialEq, Eq, Structural, PartialOrd, Ord, Hash)]
pub struct InstanceHandle {
    pub inner: u64,
}

impl InstanceHandle {
    /// Wrap a raw handle value.
    pub fn from_raw(raw: u64) -> (h: Self)
        ensures
            h.inner == raw,
    {
        InstanceHandle { inner: raw }
    }

    /// The raw handle value.
    pub fn raw(&self) -> (r: u64)
        ensures
            r == self.inner,
    {
        self.inner
    }
}

impl Default for InstanceHandle {
    fn default() -> (h: Self)
        ensures
            h.inner == 0,
    {
        InstanceHandle { inner: 0 }
    }
}

} // verus!
