//! A relative span of time, counted in nanoseconds as the middleware
//! expresses timeouts and leases.

use vstd::prelude::*;

verus! {

/// The nanosecond count that stands for an infinite span.
pub const DURATION_INFINITE: i64 = 0x7fffffffffffffff;

/// A relative span of time.
#[derive(Debug, Copy, Clone, PartialEq, Eq, Structural, Hash)]
pub struct Duration {
    pub inner: i64,
}

impl Duration {
    /// Convert a span in nanoseconds to a [`Duration`].
    pub fn from_nanos(nanos: i64) -> (d: Self)
        ensures
            d.inner == nanos,
    {
        Duration { inner: nanos }
    }

    /// A span that never elapses.
    pub fn infinite() -> (d: Self)
        ensures
            d.inner == DURATION_INFINITE,
    {
        Duration { inner: DURATION_INFINITE }
    }

    /// The span in nanoseconds.
    pub fn nanos(&self) -> (n: i64)
        ensures
            n == self.inner,
    {
        self.inner
    }
}

impl Default for Duration {
    fn default() -> (d: Self)
        ensures
            d.inner == 0,
    {
        Duration { inner: 0 }
    }
}

} // verus!
