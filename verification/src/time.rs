//! An absolute point in time, counted in nanoseconds as the middleware
//! reports timestamps.

use vstd::prelude::*;

verus! {

/// An absolute point in time.
#[derive(Debug, Copy, Clone, PartialEq, Eq, Structural, Hash)]
pub struct Time {
    pub inner: i64,
}

impl Time {
    /// Convert a timestamp in nanoseconds to a [`Time`].
    pub fn from_nanos(nanos: i64) -> (t: Self)
        ensures
            t.inner == nanos,
    {
        Time { inner: nanos }
    }

    /// The timestamp in nanoseconds.
    pub fn nanos(&self) -> (n: i64)
        ensures
            n == self.inner,
    {
        self.inner
    }
}

impl Default for Time {
    /// The zero point of the timeline.
    fn default() -> (t: Self)
        ensures
            t.inner == 0,
    {
        Time { inner: 0 }
    }
}

} // verus!
