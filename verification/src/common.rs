//! General types.

use vstd::prelude::*;

verus! {

/// A simple three dimensional vector.
#[derive(Debug, PartialEq, Eq)]
pub struct Vector3<T> {
    pub x: T,
    pub y: T,
    pub z: T,
}

} // verus!
