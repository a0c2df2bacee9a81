//! Vectors of the engine.

use vstd::prelude::*;
use crate::watchers::Watcher;

verus! {

/// A vector of three components, each watched by itself. `T` is how a
/// component is read.
#[verifier::reject_recursive_types(T)]
pub struct IdVec3<'a, T: Copy> {
    /// The first component.
    pub x: Watcher<'a, T>,
    /// The second component.
    pub y: Watcher<'a, T>,
    /// The third component.
    pub z: Watcher<'a, T>,
}

impl<'a, T: Copy> IdVec3<'a, T> {
    /// The vector of these three components.
    pub fn new(x: Watcher<'a, T>, y: Watcher<'a, T>, z: Watcher<'a, T>) -> (vector: Self)
        ensures
            vector.x == x,
            vector.y == y,
            vector.z == z,
    {
        IdVec3 { x, y, z }
    }

    /// Ends the tick for each of the three components.
    pub fn invalidate(&mut self)
        ensures
            final(self).x@ == old(self).x@.invalidated(),
            final(self).y@ == old(self).y@.invalidated(),
            final(self).z@ == old(self).z@.invalidated(),
            final(self).x.same_source(old(self).x),
            final(self).y.same_source(old(self).y),
            final(self).z.same_source(old(self).z),
    {
        self.x.invalidate();
        self.y.invalidate();
        self.z.invalidate();
    }
}

} // verus!
