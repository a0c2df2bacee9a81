//! A splitter for I Am Your Beast: what is watched of the game.

use vstd::prelude::*;
use crate::watchers::{ValueGetter, Watcher, WatcherView};

verus! {

/// All that is watched of the game. `F` is how a time in seconds is read.
#[verifier::reject_recursive_types(F)]
pub struct Memory<'a, F: Copy> {
    /// The time that the current fight has taken. It has no fallback: while
    /// it cannot be read, reading it fails.
    pub combat_time: Watcher<'a, F>,
}

impl<'a, F: Copy> Memory<'a, F> {
    /// A watcher over the source, which has seen nothing yet.
    pub fn new(combat_time: Box<dyn ValueGetter<F> + 'a>) -> (memory: Memory<'a, F>)
        ensures
            memory.combat_time@ == WatcherView::<F>::fresh(),
    {
        Memory { combat_time: Watcher::new(combat_time) }
    }

    /// Ends the tick for all that is watched.
    pub fn invalidate(&mut self)
        ensures
            final(self).combat_time@ == old(self).combat_time@.invalidated(),
            final(self).combat_time.same_source(old(self).combat_time),
    {
        self.combat_time.invalidate();
    }
}

} // verus!
