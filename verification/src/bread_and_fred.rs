//! A splitter for Bread & Fred: what is watched of the game, and the rules by
//! which its timer is driven.
//!
//! The game keeps a timer of its own for the run. It says whether that timer
//! runs, and how long it has run for, in ticks of a hundred nanoseconds.

use vstd::prelude::*;
use crate::error::WatchError;
use crate::timer::{TimerAction, TimerState};
use crate::watchers::{ValueGetter, Watcher, WatcherView};

verus! {

/// All that is watched of the game. What cannot be read is taken as zero, and
/// as a timer that stands still.
pub struct Memory<'a> {
    /// How long the game's timer has run for, in ticks.
    pub time: Watcher<'a, u64>,
    /// When the game's timer was started.
    pub started_timestamp: Watcher<'a, u64>,
    /// Whether the game's timer runs.
    pub running: Watcher<'a, bool>,
}

impl<'a> Memory<'a> {
    /// Watchers over the three sources, none of which has seen anything yet.
    pub fn new(
        time: Box<dyn ValueGetter<u64> + 'a>,
        started_timestamp: Box<dyn ValueGetter<u64> + 'a>,
        running: Box<dyn ValueGetter<bool> + 'a>,
    ) -> (made: Result<Memory<'a>, WatchError>)
        ensures
            made matches Ok(memory) && {
                &&& memory.time@ == WatcherView::<u64>::fresh().with_fallback(0)
                &&& memory.started_timestamp@ == WatcherView::<u64>::fresh().with_fallback(0)
                &&& memory.running@ == WatcherView::<bool>::fresh().with_fallback(false)
            },
    {
        Ok(
            Memory {
                time: Watcher::new(time).default(),
                started_timestamp: Watcher::new(started_timestamp).default(),
                running: Watcher::new(running).default(),
            },
        )
    }

    /// Ends the tick for all that is watched.
    pub fn invalidate(&mut self)
        ensures
            final(self).time@ == old(self).time@.invalidated(),
            final(self).started_timestamp@ == old(self).started_timestamp@.invalidated(),
            final(self).running@ == old(self).running@.invalidated(),
            final(self).time.same_source(old(self).time),
            final(self).started_timestamp.same_source(old(self).started_timestamp),
            final(self).running.same_source(old(self).running),
    {
        self.time.invalidate();
        self.started_timestamp.invalidate();
        self.running.invalidate();
    }
}

/// The number of nanoseconds in a tick of the game's timer.
pub const NANOSECONDS_PER_TICK: i64 = 100;

/// What a count of 64 bits means when it is read as a signed one.
pub open spec fn as_signed(ticks: u64) -> int {
    if ticks <= i64::MAX {
        ticks as int
    } else {
        ticks - 0x1_0000_0000_0000_0000
    }
}

/// Whether a run starts on this tick: none is under way, and the game's
/// timer has just begun to run.
pub fn should_start(timer: TimerState, running_changed: bool, running: bool) -> (start: bool)
    ensures
        start == (timer == TimerState::NotRunning && running_changed && running),
{
    timer == TimerState::NotRunning && running_changed && running
}

/// What becomes of game time on a tick of a run that is under way: it runs
/// while the game's timer runs, and stands still while that does. Where the
/// game's timer shows another time than on the tick before, game time is
/// then stopped and set to it.
pub fn game_time_actions(running: bool, time_changed: bool) -> (actions: Vec<TimerAction>)
    ensures
        actions@ == seq![
            if running {
                TimerAction::ResumeGameTime
            } else {
                TimerAction::PauseGameTime
            },
        ] + if time_changed {
            seq![TimerAction::PauseGameTime, TimerAction::SetGameTime]
        } else {
            Seq::<TimerAction>::empty()
        },
{
    let mut actions: Vec<TimerAction> = Vec::new();
    if running {
        actions.push(TimerAction::ResumeGameTime);
    } else {
        actions.push(TimerAction::PauseGameTime);
    }
    if time_changed {
        actions.push(TimerAction::PauseGameTime);
        actions.push(TimerAction::SetGameTime);
    }
    actions
}

/// Whether the time that the game's timer shows can be told in nanoseconds.
pub open spec fn fits_nanoseconds(ticks: u64) -> bool {
    i64::MIN <= as_signed(ticks) * NANOSECONDS_PER_TICK <= i64::MAX
}

/// Whether the time that the game's timer shows can be told in nanoseconds:
/// whether `elapsed_nanoseconds` may be called with it.
pub fn has_nanoseconds(ticks: u64) -> (fits: bool)
    ensures
        fits == fits_nanoseconds(ticks),
{
    if ticks <= 0x7fff_ffff_ffff_ffff {
        ticks <= 0x7fff_ffff_ffff_ffff / 100
    } else {
        u64::MAX - ticks < 0x8000_0000_0000_0000 / 100
    }
}

/// The time that the game's timer shows, in nanoseconds. The count is taken
/// as a signed one, as the timer takes it.
pub fn elapsed_nanoseconds(ticks: u64) -> (nanoseconds: i64)
    requires
        fits_nanoseconds(ticks),
    ensures
        nanoseconds == as_signed(ticks) * NANOSECONDS_PER_TICK,
{
    let signed: i64 = if ticks <= 0x7fff_ffff_ffff_ffff {
        ticks as i64
    } else {
        -((u64::MAX - ticks) as i64) - 1
    };
    signed * NANOSECONDS_PER_TICK
}

} // verus!
