//! What is watched of the game, and where in its memory things are as far
//! as that depends on the build of the game.

use vstd::prelude::*;
use crate::cuphead::enums::Levels;
use crate::cuphead::rules::Mode;
use crate::error::WatchError;
use crate::watchers::pointer_path::PointerSize;
use crate::watchers::{ValueGetter, Watcher, WatcherView};

verus! {

/// Offsets that differ between the 32-bit and the 64-bit build.
#[derive(Clone, Copy, Debug)]
pub struct Offsets {
    /// Where the characters of a string start within the string object,
    /// written as the name of a field.
    pub string_contents: &'static str,
}

impl Offsets {
    /// The text of `string_contents` for pointers of that width.
    pub open spec fn string_contents_for(size: PointerSize) -> Seq<char> {
        match size {
            PointerSize::Bit64 => "0x14"@,
            PointerSize::Bit32 => "0xC"@,
            PointerSize::Bit16 => "0x0"@,
        }
    }

    /// The offsets for a build with pointers of width `size`. There is no
    /// 16-bit build: for that width the offsets are zero.
    pub fn new(size: PointerSize) -> (offsets: Offsets)
        ensures
            offsets.string_contents@ == Self::string_contents_for(size),
    {
        match size {
            PointerSize::Bit64 => Offsets { string_contents: "0x14" },
            PointerSize::Bit32 => Offsets { string_contents: "0xC" },
            _ => Offsets {
                string_contents: "0x0",  // n/a
            },
        }
    }
}

/// Where each value of a [`Memory`] is read from.
///
/// `F` is how a time in seconds is read, `S` how the name of a scene, `A` how
/// an address, and `G` how a grade.
#[verifier::reject_recursive_types(F)]
#[verifier::reject_recursive_types(S)]
#[verifier::reject_recursive_types(A)]
#[verifier::reject_recursive_types(G)]
pub struct Sources<'a, F, S, A, G> {
    /// The source of `done_loading`.
    pub done_loading: Box<dyn ValueGetter<bool> + 'a>,
    /// The source of `insta`.
    pub insta: Box<dyn ValueGetter<A> + 'a>,
    /// The source of `scene`.
    pub scene: Box<dyn ValueGetter<S> + 'a>,
    /// The source of `in_game`.
    pub in_game: Box<dyn ValueGetter<bool> + 'a>,
    /// The source of `level`.
    pub level: Box<dyn ValueGetter<Levels> + 'a>,
    /// The source of `level_won`.
    pub level_won: Box<dyn ValueGetter<bool> + 'a>,
    /// The source of `level_ending`.
    pub level_ending: Box<dyn ValueGetter<bool> + 'a>,
    /// The source of `level_time`.
    pub level_time: Box<dyn ValueGetter<F> + 'a>,
    /// The source of `level_grade`.
    pub level_grade: Box<dyn ValueGetter<G> + 'a>,
    /// The source of `level_difficulty`.
    pub level_difficulty: Box<dyn ValueGetter<Mode> + 'a>,
    /// The source of `lsd_time`.
    pub lsd_time: Box<dyn ValueGetter<F> + 'a>,
    /// The source of `kd_spaces_moved`.
    pub kd_spaces_moved: Box<dyn ValueGetter<i32> + 'a>,
    /// The source of `level_is_dice`.
    pub level_is_dice: Box<dyn ValueGetter<bool> + 'a>,
    /// The source of `level_is_dice_main`.
    pub level_is_dice_main: Box<dyn ValueGetter<bool> + 'a>,
    /// The source of `devil_bad_ending_active`.
    pub devil_bad_ending_active: Box<dyn ValueGetter<bool> + 'a>,
    /// The source of `difficulty_ticker_started_counting`.
    pub difficulty_ticker_started_counting: Box<dyn ValueGetter<bool> + 'a>,
    /// The source of `difficulty_ticker_finished_counting`.
    pub difficulty_ticker_finished_counting: Box<dyn ValueGetter<bool> + 'a>,
}

/// All that is watched of the game.
///
/// Every value has a fallback, so that reading it never fails: what cannot
/// be read is taken as the fallback says.
#[verifier::reject_recursive_types(F)]
#[verifier::reject_recursive_types(S)]
#[verifier::reject_recursive_types(A)]
#[verifier::reject_recursive_types(G)]
pub struct Memory<'a, F: Copy, S: Copy, A: Copy, G: Copy> {
    /// Whether the game is done loading a scene. Taken as done while it cannot
    /// be read.
    pub done_loading: Watcher<'a, bool>,
    /// The camera of the scene loader.
    pub insta: Watcher<'a, A>,
    /// The name of the scene.
    pub scene: Watcher<'a, S>,
    /// Whether a save is in play.
    pub in_game: Watcher<'a, bool>,
    /// The level that was played last.
    pub level: Watcher<'a, Levels>,
    /// Whether the level counts as won.
    pub level_won: Watcher<'a, bool>,
    /// Whether the level is ending.
    pub level_ending: Watcher<'a, bool>,
    /// The clock of the level, in seconds.
    pub level_time: Watcher<'a, F>,
    /// The grade on the scorecard.
    pub level_grade: Watcher<'a, G>,
    /// The difficulty of the level.
    pub level_difficulty: Watcher<'a, Mode>,
    /// The time on the scorecard, in seconds.
    pub lsd_time: Watcher<'a, F>,
    /// The spaces that the player has moved on the board of the dice palace.
    pub kd_spaces_moved: Watcher<'a, i32>,
    /// Whether the level belongs to the dice palace.
    pub level_is_dice: Watcher<'a, bool>,
    /// Whether the level is the board of the dice palace.
    pub level_is_dice_main: Watcher<'a, bool>,
    /// Whether the transition to the bad ending is active.
    pub devil_bad_ending_active: Watcher<'a, bool>,
    /// Whether the difficulty ticker of the scorecard has started to count.
    pub difficulty_ticker_started_counting: Watcher<'a, bool>,
    /// Whether the difficulty ticker of the scorecard is done counting.
    pub difficulty_ticker_finished_counting: Watcher<'a, bool>,
}

/// Whether `watcher` has seen nothing yet and falls back on the default of
/// its type.
pub open spec fn falls_back_on_default<T: Copy + Default>(watcher: WatcherView<T>) -> bool {
    exists|value: T|
        call_ensures(T::default, (), value) && watcher == WatcherView::<T>::fresh().with_fallback(
            value,
        )
}

impl<'a, F: Copy + Default, S: Copy + Default, A: Copy + Default, G: Copy + Default> Memory<
    'a,
    F,
    S,
    A,
    G,
> {
    /// Watchers over `sources`, none of which has seen anything yet, each
    /// with its fallback.
    pub fn new(sources: Sources<'a, F, S, A, G>) -> (made: Result<Self, WatchError>)
        ensures
            made matches Ok(memory) && {
                &&& memory.done_loading@ == WatcherView::<bool>::fresh().with_fallback(true)
                &&& falls_back_on_default(memory.insta@)
                &&& falls_back_on_default(memory.scene@)
                &&& memory.in_game@ == WatcherView::<bool>::fresh().with_fallback(false)
                &&& falls_back_on_default(memory.level@)
                &&& memory.level_won@ == WatcherView::<bool>::fresh().with_fallback(false)
                &&& memory.level_ending@ == WatcherView::<bool>::fresh().with_fallback(false)
                &&& falls_back_on_default(memory.level_time@)
                &&& falls_back_on_default(memory.level_grade@)
                &&& falls_back_on_default(memory.level_difficulty@)
                &&& falls_back_on_default(memory.lsd_time@)
                &&& falls_back_on_default(memory.kd_spaces_moved@)
                &&& falls_back_on_default(memory.level_is_dice@)
                &&& falls_back_on_default(memory.level_is_dice_main@)
                &&& falls_back_on_default(memory.devil_bad_ending_active@)
                &&& falls_back_on_default(memory.difficulty_ticker_started_counting@)
                &&& falls_back_on_default(memory.difficulty_ticker_finished_counting@)
            },
    {
        Ok(
            Memory {
                done_loading: Watcher::new(sources.done_loading).default_given(true),
                insta: Watcher::new(sources.insta).default(),
                scene: Watcher::new(sources.scene).default(),
                in_game: Watcher::new(sources.in_game).default_given(false),
                level: Watcher::new(sources.level).default(),
                level_won: Watcher::new(sources.level_won).default_given(false),
                level_ending: Watcher::new(sources.level_ending).default_given(false),
                level_time: Watcher::new(sources.level_time).default(),
                level_grade: Watcher::new(sources.level_grade).default(),
                level_difficulty: Watcher::new(sources.level_difficulty).default(),
                lsd_time: Watcher::new(sources.lsd_time).default(),
                kd_spaces_moved: Watcher::new(sources.kd_spaces_moved).default(),
                level_is_dice: Watcher::new(sources.level_is_dice).default(),
                level_is_dice_main: Watcher::new(sources.level_is_dice_main).default(),
                devil_bad_ending_active: Watcher::new(sources.devil_bad_ending_active).default(),
                difficulty_ticker_started_counting: Watcher::new(
                    sources.difficulty_ticker_started_counting,
                ).default(),
                difficulty_ticker_finished_counting: Watcher::new(
                    sources.difficulty_ticker_finished_counting,
                ).default(),
            },
        )
    }
}

impl<'a, F: Copy, S: Copy, A: Copy, G: Copy> Memory<'a, F, S, A, G> {
    /// Whether `after` is this memory at the start of the next tick: every
    /// watcher is invalidated, and asks the source that it asked.
    pub open spec fn invalidated_to(self, after: Self) -> bool {
        &&& after.done_loading@ == self.done_loading@.invalidated()
        &&& after.done_loading.same_source(self.done_loading)
        &&& after.insta@ == self.insta@.invalidated()
        &&& after.insta.same_source(self.insta)
        &&& after.scene@ == self.scene@.invalidated()
        &&& after.scene.same_source(self.scene)
        &&& after.in_game@ == self.in_game@.invalidated()
        &&& after.in_game.same_source(self.in_game)
        &&& after.level@ == self.level@.invalidated()
        &&& after.level.same_source(self.level)
        &&& after.level_won@ == self.level_won@.invalidated()
        &&& after.level_won.same_source(self.level_won)
        &&& after.level_ending@ == self.level_ending@.invalidated()
        &&& after.level_ending.same_source(self.level_ending)
        &&& after.level_time@ == self.level_time@.invalidated()
        &&& after.level_time.same_source(self.level_time)
        &&& after.level_grade@ == self.level_grade@.invalidated()
        &&& after.level_grade.same_source(self.level_grade)
        &&& after.level_difficulty@ == self.level_difficulty@.invalidated()
        &&& after.level_difficulty.same_source(self.level_difficulty)
        &&& after.lsd_time@ == self.lsd_time@.invalidated()
        &&& after.lsd_time.same_source(self.lsd_time)
        &&& after.kd_spaces_moved@ == self.kd_spaces_moved@.invalidated()
        &&& after.kd_spaces_moved.same_source(self.kd_spaces_moved)
        &&& after.level_is_dice@ == self.level_is_dice@.invalidated()
        &&& after.level_is_dice.same_source(self.level_is_dice)
        &&& after.level_is_dice_main@ == self.level_is_dice_main@.invalidated()
        &&& after.level_is_dice_main.same_source(self.level_is_dice_main)
        &&& after.devil_bad_ending_active@ == self.devil_bad_ending_active@.invalidated()
        &&& after.devil_bad_ending_active.same_source(self.devil_bad_ending_active)
        &&& after.difficulty_ticker_started_counting@
            == self.difficulty_ticker_started_counting@.invalidated()
        &&& after.difficulty_ticker_started_counting.same_source(
            self.difficulty_ticker_started_counting,
        )
        &&& after.difficulty_ticker_finished_counting@
            == self.difficulty_ticker_finished_counting@.invalidated()
        &&& after.difficulty_ticker_finished_counting.same_source(
            self.difficulty_ticker_finished_counting,
        )
    }

    /// Ends the tick for all that is watched.
    pub fn invalidate(&mut self)
        ensures
            old(self).invalidated_to(*final(self)),
    {
        self.done_loading.invalidate();
        self.insta.invalidate();
        self.scene.invalidate();
        self.in_game.invalidate();
        self.level.invalidate();
        self.level_won.invalidate();
        self.level_ending.invalidate();
        self.level_time.invalidate();
        self.level_grade.invalidate();
        self.level_difficulty.invalidate();
        self.lsd_time.invalidate();
        self.kd_spaces_moved.invalidate();
        self.level_is_dice.invalidate();
        self.level_is_dice_main.invalidate();
        self.devil_bad_ending_active.invalidate();
        self.difficulty_ticker_started_counting.invalidate();
        self.difficulty_ticker_finished_counting.invalidate();
    }

    /// Whether the game is loading: whether it is not done loading. The
    /// loading flag is read as `current()` reads it, and nothing else is
    /// touched.
    pub fn is_loading(&mut self) -> (loading: Result<bool, WatchError>)
        ensures
            exists|raw: Result<bool, WatchError>| #[trigger]
                old(self).done_loading.polls(
                    raw,
                    old(self).done_loading@.reading(raw),
                    final(self).done_loading@,
                ) && loading == negated(old(self).done_loading@.reading(raw)),
            *final(self) == (Memory { done_loading: final(self).done_loading, ..*old(self) }),
    {
        let done = self.done_loading.current();
        match done {
            Ok(done) => Ok(!done),
            Err(failure) => Err(failure),
        }
    }
}

/// A reading of a flag, turned around. A failure stays what it is.
pub open spec fn negated(reading: Result<bool, WatchError>) -> Result<bool, WatchError> {
    match reading {
        Ok(flag) => Ok(!flag),
        Err(failure) => Err(failure),
    }
}

} // verus!
