//! The forwarding delay carried in a routing entry: an opaque non-negative
//! duration, serialized as unsigned 64-bit little-endian nanoseconds.

use vstd::prelude::*;

verus! {

/// A forwarding delay in nanoseconds.
#[derive(Clone, Copy, Debug)]
pub struct Delay {
    nanos: u64,
}

impl View for Delay {
    type V = u64;

    closed spec fn view(&self) -> u64 {
        self.nanos
    }
}

impl Delay {
    /// Builds a delay from a number of nanoseconds.
    pub fn new_from_nanos(nanos: u64) -> (r: Delay)
        ensures
            r@ == nanos,
    {
        Delay { nanos }
    }

    /// The delay in nanoseconds.
    pub fn to_nanos(&self) -> (r: u64)
        ensures
            r == self@,
    {
        self.nanos
    }
}

} // verus!
