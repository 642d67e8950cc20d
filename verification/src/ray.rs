//! A single light-path segment.

use vstd::prelude::*;
use crate::vec3::Vec3;

verus! {

/// One ray of the current sample: where it starts, where it goes, and
/// whether its path has already terminated.
///
/// `finished` is kept as a 32-bit flag (0 or 1), matching the flat layout
/// the compute buffers use.
#[derive(Clone, Copy, PartialEq, Eq, Structural, Debug)]
pub struct Ray {
    pub origin: Vec3,
    pub direction: Vec3,
    pub finished: u32,
}

impl Ray {
    /// Whether this ray's path has terminated.
    pub open spec fn is_finished(self) -> bool {
        self.finished != 0
    }

    /// A fresh, unfinished ray.
    pub fn new(origin: Vec3, direction: Vec3) -> (r: Ray)
        ensures
            r.origin == origin,
            r.direction == direction,
            r.finished == 0u32,
    {
        Ray { origin, direction, finished: 0 }
    }
}

} // verus!
