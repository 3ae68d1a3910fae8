//! The state mask of a sample: bit-flags describing the read state of the
//! sample, the view state of its instance, and the liveliness of the
//! instance, packed into one word as the middleware reports them.

use vstd::prelude::*;

verus! {

/// The sample has already been read.
pub const SAMPLE_STALE: u32 = 1;

/// The sample has not been read yet.
pub const SAMPLE_FRESH: u32 = 2;

/// The instance is being seen for the first time.
pub const VIEW_NEW: u32 = 4;

/// The instance has been seen before.
pub const VIEW_OLD: u32 = 8;

/// The instance has live writers.
pub const INSTANCE_ALIVE: u32 = 16;

/// The instance was disposed by a writer.
pub const INSTANCE_DISPOSED: u32 = 32;

/// The instance has no live writers left.
pub const INSTANCE_UNREGISTERED: u32 = 64;

/// Every flag that is defined.
pub const ALL_STATES: u32 = 127;

/// A set of state flags.
#[derive(Debug, Clone, Copy, PartialEq, Eq, Structural, Hash)]
pub struct State {
    pub bits: u32,
}

impl State {
    /// No flag set.
    pub fn empty() -> (s: State)
        ensures
            s.bits == 0,
    {
        State { bits: 0 }
    }

    /// The flags in `bits`, with undefined bits dropped.
    pub fn from_bits_truncate(bits: u32) -> (s: State)
        ensures
            s.bits == bits & ALL_STATES,
    {
        State { bits: bits & ALL_STATES }
    }

    /// Both sets of flags together.
    pub fn union(self, other: State) -> (s: State)
        ensures
            s.bits == self.bits | other.bits,
    {
        State { bits: self.bits | other.bits }
    }

    /// Whether every flag of `other` is set in `self`.
    pub fn contains(self, other: State) -> (b: bool)
        ensures
            b == (self.bits & other.bits == other.bits),
    {
        self.bits & other.bits == other.bits
    }
}

} // verus!
