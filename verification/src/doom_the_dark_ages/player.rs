//! The player.

use vstd::prelude::*;
use crate::doom_the_dark_ages::physics::IdVec3;
use crate::watchers::pointer_path::{can_extend, PointerPath};

verus! {

/// What is watched of the player.
#[verifier::reject_recursive_types(T)]
pub struct IdPlayer<'a, T: Copy> {
    /// How fast the player moves, and where to.
    pub velocity: IdVec3<'a, T>,
}

/// Where the velocity lies below the player.
///
/// The physics info of the player is reached through a pointer at
/// `physics_info` within the player. In it, the current state lies at
/// `current`, and the velocity at `velocity` within that state: no pointer is
/// followed between the two, so they are one offset.
pub open spec fn velocity_offsets(physics_info: u64, current: u64, velocity: u64) -> Seq<u64> {
    seq![physics_info, (current + velocity) as u64]
}

impl<'a, T: Copy> IdPlayer<'a, T> {
    /// The path to the velocity of the player at `path`, given the offsets
    /// of the three fields on the way.
    pub fn velocity_path<R>(
        path: &PointerPath<'a, R>,
        physics_info: u64,
        current: u64,
        velocity: u64,
    ) -> (made: PointerPath<'a, R>)
        requires
            current + velocity <= u64::MAX,
            can_extend(path@.offsets, velocity_offsets(physics_info, current, velocity)),
        ensures
            made@ == path@.child(velocity_offsets(physics_info, current, velocity)),
            made.readable() == path.readable(),
    {
        let mut extra: Vec<u64> = Vec::new();
        extra.push(physics_info);
        extra.push(current + velocity);
        proof {
            assert(extra@ =~= velocity_offsets(physics_info, current, velocity));
        }
        path.child(extra)
    }

    /// The player whose velocity is `velocity`.
    pub fn init(velocity: IdVec3<'a, T>) -> (player: Self)
        ensures
            player.velocity == velocity,
    {
        IdPlayer { velocity }
    }

    /// Ends the tick for all that is watched of the player.
    pub fn invalidate(&mut self)
        ensures
            final(self).velocity.x@ == old(self).velocity.x@.invalidated(),
            final(self).velocity.y@ == old(self).velocity.y@.invalidated(),
            final(self).velocity.z@ == old(self).velocity.z@.invalidated(),
            final(self).velocity.x.same_source(old(self).velocity.x),
            final(self).velocity.y.same_source(old(self).velocity.y),
            final(self).velocity.z.same_source(old(self).velocity.z),
    {
        self.velocity.invalidate();
    }
}

} // verus!
