//! The offsets of a chain of fields, resolved one by one and kept.

use vstd::prelude::*;
use crate::error::WatchError;

verus! {

/// How many offsets an [`OffsetCache`] has room for.
pub const OFFSET_CAPACITY: usize = 128;

/// What an [`OffsetCache`] holds.
pub struct OffsetCacheView {
    /// The offsets that are resolved, in the order of the fields.
    pub resolved: Seq<u64>,
    /// The number of fields on the chain.
    pub depth: nat,
}

/// The offsets of a chain of fields, as far as they are known.
///
/// An offset is a property of a type of the target, not of an object, and is
/// taken not to change while the target runs. So the fields are resolved in
/// order, each once: what is recorded stays, and resolution goes on behind
/// it.
pub struct OffsetCache {
    offsets: [u64; 128],
    resolved_offsets: usize,
    depth: usize,
}

impl View for OffsetCache {
    type V = OffsetCacheView;

    closed spec fn view(&self) -> OffsetCacheView {
        OffsetCacheView {
            resolved: self.offsets@.take(self.resolved_offsets as int),
            depth: self.depth as nat,
        }
    }
}

impl OffsetCache {
    #[verifier::type_invariant]
    spec fn well_formed(self) -> bool {
        self.resolved_offsets <= self.depth <= OFFSET_CAPACITY
    }

    /// A cache for a chain of `depth` fields, none of them resolved.
    pub fn new(depth: usize) -> (made: Self)
        requires
            depth <= OFFSET_CAPACITY,
        ensures
            made@ == (OffsetCacheView { resolved: Seq::empty(), depth: depth as nat }),
    {
        let made = OffsetCache { offsets: [0; 128], resolved_offsets: 0, depth };
        proof {
            assert(made@.resolved =~= Seq::<u64>::empty());
        }
        made
    }

    /// The number of fields on the chain.
    pub fn depth(&self) -> (depth: usize)
        ensures
            depth == self@.depth,
            depth <= OFFSET_CAPACITY,
    {
        proof {
            use_type_invariant(self);
        }
        self.depth
    }

    /// The number of fields whose offset is known: the position at which
    /// resolution goes on.
    pub fn resolved_offsets(&self) -> (count: usize)
        ensures
            count == self@.resolved.len(),
            count <= self@.depth,
    {
        proof {
            use_type_invariant(self);
        }
        self.resolved_offsets
    }

    /// Whether every offset is known.
    pub fn is_complete(&self) -> (complete: bool)
        ensures
            complete == (self@.resolved.len() == self@.depth),
            self@.resolved.len() <= self@.depth,
    {
        proof {
            use_type_invariant(self);
        }
        self.resolved_offsets == self.depth
    }

    /// The offset of the field at `position`.
    pub fn offset(&self, position: usize) -> (offset: u64)
        requires
            position < self@.resolved.len(),
        ensures
            offset == self@.resolved[position as int],
    {
        proof {
            use_type_invariant(self);
        }
        self.offsets[position]
    }

    /// Records the offset of the first field that has none yet. The offsets
    /// before it are left as they are.
    pub fn record(&mut self, offset: u64)
        requires
            old(self)@.resolved.len() < old(self)@.depth,
        ensures
            final(self)@ == (OffsetCacheView {
                resolved: old(self)@.resolved.push(offset),
                depth: old(self)@.depth,
            }),
        no_unwind
    {
        proof {
            use_type_invariant(&*self);
        }
        let position = self.resolved_offsets;
        self.offsets[position] = offset;
        self.resolved_offsets = position + 1;
        proof {
            assert(self@.resolved =~= old(self)@.resolved.push(offset));
        }
    }

    /// Resolves the next field, where `offset` is what the type metadata said
    /// of it. An offset is recorded and handed back as the number of bytes
    /// that it is. Without one, the field is not there: the cache is left as
    /// it is, and the next request resolves the same field again.
    pub fn resolve_next(&mut self, offset: Option<u32>) -> (outcome: Result<u64, WatchError>)
        requires
            old(self)@.resolved.len() < old(self)@.depth,
        ensures
            match offset {
                Some(found) => outcome == Ok::<u64, WatchError>(found as u64) && final(self)@ == (
                OffsetCacheView {
                    resolved: old(self)@.resolved.push(found as u64),
                    depth: old(self)@.depth,
                }),
                None => outcome matches Err(WatchError::FieldNotFound) && final(self)@ == old(
                    self,
                )@,
            },
        no_unwind
    {
        match offset {
            Some(found) => {
                let found = found as u64;
                self.record(found);
                Ok(found)
            },
            None => Err(WatchError::FieldNotFound),
        }
    }

    /// The offsets that are known, in order.
    pub fn to_vec(&self) -> (offsets: Vec<u64>)
        ensures
            offsets@ == self@.resolved,
    {
        proof {
            use_type_invariant(self);
        }
        let mut offsets: Vec<u64> = Vec::new();
        let mut i: usize = 0;
        while i < self.resolved_offsets
            invariant
                i <= self.resolved_offsets <= OFFSET_CAPACITY,
                offsets@ == self.offsets@.take(i as int),
            decreases self.resolved_offsets - i,
        {
            offsets.push(self.offsets[i]);
            i = i + 1;
        }
        offsets
    }
}

/// Says what a lookup of a class comes to, where `class` is what the type
/// metadata said of the object at hand.
pub fn class_found(class: Option<u64>) -> (outcome: Result<u64, WatchError>)
    ensures
        match class {
            Some(found) => outcome == Ok::<u64, WatchError>(found),
            None => outcome matches Err(WatchError::ClassNotFound),
        },
{
    match class {
        Some(found) => Ok(found),
        None => Err(WatchError::ClassNotFound),
    }
}

/// Says what following a pointer on the chain comes to, where `pointer` is
/// what was read behind the offset. `known` tells whether the offset was
/// known before this request or was found in it: the two fail differently.
pub fn pointer_followed(pointer: Option<u64>, known: bool) -> (outcome: Result<u64, WatchError>)
    ensures
        match pointer {
            Some(next) => outcome == Ok::<u64, WatchError>(next),
            None => if known {
                outcome matches Err(WatchError::ResolvedDereference)
            } else {
                outcome matches Err(WatchError::RetrievedDereference)
            },
        },
{
    match pointer {
        Some(next) => Ok(next),
        None => if known {
            Err(WatchError::ResolvedDereference)
        } else {
            Err(WatchError::RetrievedDereference)
        },
    }
}

} // verus!
