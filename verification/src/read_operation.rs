//! The three ways samples leave a reader's cache. Each marker type names one
//! operation; the runtime layer maps the operation to the middleware routine
//! that collects the samples.

use vstd::prelude::*;

verus! {

/// Read samples and leave them in the cache, marked as read.
#[derive(Clone, Copy, Debug, PartialEq, Eq, Structural)]
pub struct Read;

/// Take samples out of the cache.
#[derive(Clone, Copy, Debug, PartialEq, Eq, Structural)]
pub struct Take;

/// Read samples without marking them as read.
#[derive(Clone, Copy, Debug, PartialEq, Eq, Structural)]
pub struct Peek;

/// One of the three cache operations.
#[derive(Clone, Copy, Debug, PartialEq, Eq, Structural, Hash)]
pub enum Operation {
    Read,
    Take,
    Peek,
}

/// A marker type that names a cache operation.
pub trait ReadOperation {
    /// The operation this marker names.
    spec fn spec_operation() -> Operation;

    fn operation() -> (r: Operation)
        ensures
            r == Self::spec_operation(),
    ;
}

impl ReadOperation for Read {
    open spec fn spec_operation() -> Operation {
        Operation::Read
    }

    fn operation() -> (r: Operation) {
        Operation::Read
    }
}

impl ReadOperation for Take {
    open spec fn spec_operation() -> Operation {
        Operation::Take
    }

    fn operation() -> (r: Operation) {
        Operation::Take
    }
}

impl ReadOperation for Peek {
    open spec fn spec_operation() -> Operation {
        Operation::Peek
    }

    fn operation() -> (r: Operation) {
        Operation::Peek
    }
}

} // verus!
