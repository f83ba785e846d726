//! The error values surfaced to callers of every fallible operation.

use vstd::prelude::*;
use crate::coordinate::GeoCoordinate;
use crate::georectangle::GeoRectangle;

verus! {

/// Why a positioning operation was rejected.  Every fallible operation either
/// fully succeeds or returns one of these synchronously, with no partial
/// mutation left behind.
#[derive(Debug, Clone)]
pub enum PositioningError {
    /// An input or receiver coordinate fails the validity predicate; carries
    /// the offending coordinate.
    InvalidCoordinate(GeoCoordinate),
    /// An operation required a valid rectangle and the receiver is not one.
    InvalidGeorectangle(GeoRectangle),
    /// A path index is out of bounds: the index, then the current length.
    IndexOutOfBounds(usize, usize),
}

} // verus!
