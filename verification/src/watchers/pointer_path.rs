//! Pointer paths: a base address and the offsets that lead from it to a
//! value.

use vstd::prelude::*;
use vstd::string::StringExecFns;
use crate::error::WatchError;
use crate::hex;
use crate::watchers::{ValueGetter, Watcher, WatcherView};

verus! {

/// How wide a pointer of the target is.
#[derive(Clone, Copy, Debug, PartialEq, Eq, Structural, Hash)]
pub enum PointerSize {
    /// Two bytes.
    Bit16,
    /// Four bytes.
    Bit32,
    /// Eight bytes.
    Bit64,
}

/// Something that can read a value of type `T` by pointer path.
///
/// The path is walked as follows. Every offset but the last is added to the
/// address at hand, and the pointer found there is the next address. The
/// last offset is added to the address at hand, and the value is read there.
///
/// Code in this crate does not rely on a particular kind of backing store,
/// nor on anything that comes back: the same path may give another value, or
/// fail, the next time it is read. A path that is handed over is never empty.
pub trait PointerPathReadable<T> {
    /// Whether `outcome` is something that this store may answer when it is
    /// asked to read along `path` from `address`. A store says of itself what
    /// it may answer; one that says nothing allows every outcome.
    open spec fn may_answer(
        &self,
        address: u64,
        pointer_size: PointerSize,
        path: Seq<u64>,
        outcome: Result<T, WatchError>,
    ) -> bool {
        true
    }

    fn read_pointer_path(&self, address: u64, pointer_size: PointerSize, path: &[u64]) -> (outcome:
        Result<T, WatchError>)
        requires
            path@.len() > 0,
        ensures
            self.may_answer(address, pointer_size, path@, outcome),
    ;
}

/// The last of `offsets`, and zero where there is none: what the first offset
/// of an extension is added to.
pub open spec fn last_offset(offsets: Seq<u64>) -> u64 {
    if offsets.len() == 0 {
        0
    } else {
        offsets.last()
    }
}

/// Whether `offsets` can be extended by `extra`: there is something to
/// append, and the offset that the two share is still a `u64`.
pub open spec fn can_extend(offsets: Seq<u64>, extra: Seq<u64>) -> bool {
    extra.len() > 0 && last_offset(offsets) + extra[0] <= u64::MAX
}

/// `offsets` extended by `extra`.
///
/// The last offset of a path is added to an address without following a
/// pointer afterwards. So is the first offset of an extension: it names a
/// place inside the value that the path leads to. The two are therefore one
/// offset, their sum, and only what follows it in `extra` is appended.
pub open spec fn extend(offsets: Seq<u64>, extra: Seq<u64>) -> Seq<u64>
    recommends
        can_extend(offsets, extra),
{
    let kept = if offsets.len() == 0 {
        offsets
    } else {
        offsets.drop_last()
    };
    kept.push((last_offset(offsets) + extra[0]) as u64) + extra.drop_first()
}

/// The offsets as a log shows them: each in hexadecimal, with a comma and a
/// space between two of them.
pub open spec fn listing(offsets: Seq<u64>) -> Seq<char>
    decreases offsets.len(),
{
    if offsets.len() == 0 {
        Seq::empty()
    } else if offsets.len() == 1 {
        hex::literal(offsets[0] as nat)
    } else {
        listing(offsets.drop_last()) + seq![',', ' '] + hex::literal(offsets.last() as nat)
    }
}

/// What a [`PointerPath`] stands for, apart from the store that it reads.
pub struct PointerPathView {
    /// The label, if the path was given one.
    pub name: Option<Seq<char>>,
    /// Where the walk starts.
    pub base_address: u64,
    /// The width of the pointers on the way.
    pub pointer_size: PointerSize,
    /// The offsets, in the order in which they are applied.
    pub offsets: Seq<u64>,
}

impl PointerPathView {
    /// The offsets that a read hands to the store. A path without offsets
    /// reads at its base, which is the single offset zero.
    pub open spec fn read_offsets(self) -> Seq<u64> {
        if self.offsets.len() == 0 {
            seq![0u64]
        } else {
            self.offsets
        }
    }

    /// The path that `child` derives: the same base and pointer size, the
    /// offsets extended, and no label.
    pub open spec fn child(self, extra: Seq<u64>) -> Self
        recommends
            can_extend(self.offsets, extra),
    {
        PointerPathView {
            name: None,
            base_address: self.base_address,
            pointer_size: self.pointer_size,
            offsets: extend(self.offsets, extra),
        }
    }

    /// The same path under the label `name`.
    pub open spec fn named(self, name: Seq<char>) -> Self {
        PointerPathView { name: Some(name), ..self }
    }

    /// The chain in words: the base and the offsets in hexadecimal, in
    /// brackets, after the label where there is one.
    pub open spec fn description(self) -> Seq<char> {
        let chain = hex::literal(self.base_address as nat) + seq![',', ' '] + listing(
            self.offsets,
        );
        match self.name {
            Some(name) => seq!['('] + name + seq![':', ' '] + chain + seq![')'],
            None => seq!['('] + chain + seq![')'],
        }
    }
}

/// How a read of a path reports what the store answered: a failure under
/// the description of the path, with what the store said as its cause, and a
/// value as it is.
pub open spec fn reported<T>(
    raw: Result<T, WatchError>,
    description: Seq<char>,
    outcome: Result<T, WatchError>,
) -> bool {
    match raw {
        Ok(value) => outcome == Ok::<T, WatchError>(value),
        Err(failure) => outcome matches Err(WatchError::PointerPath { path, cause })
            && path@ == description && *cause == failure,
    }
}

/// PointerPath represents a "pointer path". This is a base address, and then
/// a sequence of offsets that should be followed to reach some final
/// address/value.
///
/// The base address is usually a module address plus an offset. Every offset
/// but the last leads to a pointer that is followed, the last one leads to
/// the value.
pub struct PointerPath<'a, R> {
    name: Option<String>,
    readable: &'a R,
    base_address: u64,
    path: Vec<u64>,
    pointer_size: PointerSize,
}

impl<'a, R> View for PointerPath<'a, R> {
    type V = PointerPathView;

    closed spec fn view(&self) -> PointerPathView {
        PointerPathView {
            name: match self.name {
                Some(name) => Some(name@),
                None => None,
            },
            base_address: self.base_address,
            pointer_size: self.pointer_size,
            offsets: self.path@,
        }
    }
}

impl<'a, R> PointerPath<'a, R> {
    /// The store that the path is read from.
    pub closed spec fn readable(self) -> &'a R {
        self.readable
    }

    /// The path that starts at `base_address` in `readable` and follows
    /// `path`.
    pub fn new(
        readable: &'a R,
        base_address: u64,
        pointer_size: PointerSize,
        path: Vec<u64>,
    ) -> (made: Self)
        ensures
            made@ == (PointerPathView {
                name: None,
                base_address,
                pointer_size,
                offsets: path@,
            }),
            made.readable() == readable,
    {
        PointerPath { name: None, readable, base_address, path, pointer_size }
    }

    /// Naming a pointer path is useful when interpreting logs. It changes
    /// nothing of what is read.
    pub fn named(self, name: &str) -> (made: Self)
        ensures
            made@ == self@.named(name@),
            made.readable() == self.readable(),
    {
        PointerPath {
            name: Some(String::from_str(name)),
            readable: self.readable,
            pointer_size: self.pointer_size,
            base_address: self.base_address,
            path: self.path,
        }
    }

    /// The chain in words, as failures quote it.
    pub fn describe(&self) -> (text: String)
        ensures
            text@ == self@.description(),
    {
        proof {
            reveal_strlit("(");
            reveal_strlit(": ");
            reveal_strlit(", ");
            reveal_strlit(")");
        }
        let mut text = String::from_str("(");
        if let Some(name) = &self.name {
            text.append(name.as_str());
            text.append(": ");
        }
        hex::push_literal(&mut text, self.base_address);
        text.append(", ");
        let ghost start = text@;
        let mut i: usize = 0;
        while i < self.path.len()
            invariant
                i <= self.path@.len(),
                text@ == start + listing(self.path@.take(i as int)),
            decreases self.path@.len() - i,
        {
            if i > 0 {
                text.append(", ");
            }
            hex::push_literal(&mut text, self.path[i]);
            proof {
                reveal_strlit(", ");
                assert(self.path@.take(i as int + 1).drop_last() =~= self.path@.take(i as int));
            }
            i = i + 1;
        }
        proof {
            assert(self.path@.take(i as int) =~= self.path@);
        }
        text.append(")");
        text
    }

    /// Whether `outcome` is what a read of this path returns where `raw` is
    /// what the store answered: `raw` is an answer of the store to the base,
    /// the pointer size and the offsets of this path, and `outcome` reports
    /// it.
    pub open spec fn answered<T>(
        self,
        raw: Result<T, WatchError>,
        outcome: Result<T, WatchError>,
    ) -> bool where R: PointerPathReadable<T> {
        &&& self.readable().may_answer(
            self@.base_address,
            self@.pointer_size,
            self@.read_offsets(),
            raw,
        )
        &&& reported(raw, self@.description(), outcome)
    }

    /// Says what a read of this path returns where `raw` is what the store
    /// answered.
    pub fn report<T>(&self, raw: Result<T, WatchError>) -> (outcome: Result<T, WatchError>)
        ensures
            reported(raw, self@.description(), outcome),
    {
        match raw {
            Ok(value) => Ok(value),
            Err(failure) => Err(
                WatchError::PointerPath { path: self.describe(), cause: Box::new(failure) },
            ),
        }
    }

    /// Reads the value pointed to by the pointer path.
    ///
    /// The walk itself is the store's work. It is handed the base, the
    /// pointer size and the offsets; a path without offsets is read with the
    /// single offset zero. Whatever goes wrong on the way comes back as one
    /// failure that quotes the whole chain.
    pub fn read<T>(&self) -> (outcome: Result<T, WatchError>) where R: PointerPathReadable<T>
        ensures
            exists|raw: Result<T, WatchError>| self.answered(raw, outcome),
    {
        let raw = if self.path.len() > 0 {
            self.readable.read_pointer_path(
                self.base_address,
                self.pointer_size,
                self.path.as_slice(),
            )
        } else {
            let at_base: Vec<u64> = vec![0];
            proof {
                assert(at_base@ =~= self@.read_offsets());
            }
            self.readable.read_pointer_path(
                self.base_address,
                self.pointer_size,
                at_base.as_slice(),
            )
        };
        let ghost answer = raw;
        let outcome = self.report(raw);
        proof {
            assert(self.answered(answer, outcome));
        }
        outcome
    }

    /// Whether this path can be extended by `extra`: whether `child` may be
    /// called with it.
    pub fn can_child(&self, extra: &Vec<u64>) -> (can: bool)
        ensures
            can == can_extend(self@.offsets, extra@),
    {
        if extra.len() == 0 {
            false
        } else if self.path.len() == 0 {
            true
        } else {
            self.path[self.path.len() - 1] <= u64::MAX - extra[0]
        }
    }

    /// Create a new pointer path, by attaching to the end of this pointer
    /// path.
    ///
    /// For example, if you have an instance of an object at base, offset1,
    /// offset2, you may wish to access a field at offset3 within it. You can
    /// do this by calling `my_object_path.child(vec![offset3])`: the field is
    /// then read at offset2 + offset3, with no pointer followed in between.
    ///
    /// This path is left as it is.
    pub fn child(&self, extra: Vec<u64>) -> (made: Self)
        requires
            can_extend(self@.offsets, extra@),
        ensures
            made@ == self@.child(extra@),
            made.readable() == self.readable(),
    {
        let mut path: Vec<u64> = Vec::new();
        let mut shared: u64 = extra[0];
        let parent = self.path.len();
        if parent > 0 {
            let mut i: usize = 0;
            while i < parent - 1
                invariant
                    parent == self.path@.len(),
                    parent > 0,
                    i <= parent - 1,
                    path@ == self.path@.take(i as int),
                decreases parent - i,
            {
                path.push(self.path[i]);
                i = i + 1;
            }
            shared = self.path[parent - 1] + extra[0];
        }
        path.push(shared);
        let ghost middle = path@;
        let mut j: usize = 1;
        while j < extra.len()
            invariant
                1 <= j <= extra@.len(),
                path@ == middle + extra@.subrange(1, j as int),
            decreases extra@.len() - j,
        {
            path.push(extra[j]);
            j = j + 1;
        }
        proof {
            assert(path@ =~= extend(self.path@, extra@));
        }
        PointerPath {
            name: None,
            readable: self.readable,
            pointer_size: self.pointer_size,
            base_address: self.base_address,
            path,
        }
    }
}

impl<'a, R> PointerPath<'a, R> {
    /// A watcher over the value at the end of this path extended by `extra`,
    /// as `child` extends it. The watcher has seen nothing yet.
    pub fn child_watcher<T: Copy>(&self, extra: Vec<u64>) -> (watcher: Watcher<'a, T>) where
        R: PointerPathReadable<T>,

        requires
            can_extend(self@.offsets, extra@),
        ensures
            watcher@ == WatcherView::<T>::fresh(),
    {
        Watcher::new(Box::new(self.child(extra)))
    }
}

impl<'a, R, T> ValueGetter<T> for PointerPath<'a, R> where R: PointerPathReadable<T> {
    /// What a read of the path may return.
    open spec fn may_yield(&self, outcome: Result<T, WatchError>) -> bool {
        exists|raw: Result<T, WatchError>| self.answered(raw, outcome)
    }

    fn get(&mut self) -> (outcome: Result<T, WatchError>)
        ensures
            *final(self) == *old(self),
    {
        self.read::<T>()
    }
}

/// Extending a path in two steps is extending it once by the two extensions
/// joined to one: `path.child(first).child(second)` is
/// `path.child(extend(first, second))`, offset by offset.
pub proof fn lemma_child_is_associative(path: PointerPathView, first: Seq<u64>, second: Seq<u64>)
    requires
        can_extend(path.offsets, first),
        can_extend(path.child(first).offsets, second),
    ensures
        can_extend(first, second),
        can_extend(path.offsets, extend(first, second)),
        path.child(first).child(second) == path.child(extend(first, second)),
{
    assert(extend(extend(path.offsets, first), second) =~= extend(
        path.offsets,
        extend(first, second),
    ));
}

/// Two paths into the same store with the same base, pointer size and
/// offsets read alike: whatever one of them may return, the other may
/// return, label apart. So it is with a path that was extended in two steps
/// and one that was extended once by the joined extension.
pub proof fn lemma_same_chain_reads_alike<'a, R: PointerPathReadable<T>, T>(
    one: PointerPath<'a, R>,
    other: PointerPath<'a, R>,
    raw: Result<T, WatchError>,
)
    requires
        one.readable() == other.readable(),
        one@.base_address == other@.base_address,
        one@.pointer_size == other@.pointer_size,
        one@.offsets == other@.offsets,
    ensures
        one.readable().may_answer(
            one@.base_address,
            one@.pointer_size,
            one@.read_offsets(),
            raw,
        ) == other.readable().may_answer(
            other@.base_address,
            other@.pointer_size,
            other@.read_offsets(),
            raw,
        ),
        raw is Ok ==> forall|outcome: Result<T, WatchError>|
            one.answered(raw, outcome) == other.answered(raw, outcome),
        one@.name == other@.name ==> forall|outcome: Result<T, WatchError>|
            one.answered(raw, outcome) == other.answered(raw, outcome),
{
}

} // verus!
