//! Measurements the services send as IEEE-754 doubles.
use vstd::prelude::*;

verus! {

/// A measurement sent as a double -- a rating, a distance, a coordinate, a
/// quantity by weight -- carried through unchanged as its bit pattern.
/// Nothing here computes with one: the caller converts at the edge, with
/// `to_bits` and `from_bits`, which lose nothing.
#[derive(Clone, Copy, Debug, PartialEq, Eq, Structural)]
pub struct Double {
    pub bits: u64,
}

} // verus!
