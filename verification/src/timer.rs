//! The timer that a splitter drives, as far as a splitter decides on it.
//!
//! Nothing in this crate touches a timer. The rules say what is to be done to
//! it, and whoever runs the tick does it.

use vstd::prelude::*;

verus! {

/// The state that the timer is in.
#[derive(Clone, Copy, Debug, PartialEq, Eq, Structural)]
pub enum TimerState {
    /// No run is under way.
    NotRunning,
    /// A run is under way.
    Running,
    /// A run is under way and was paused by the runner.
    Paused,
    /// The run has ended.
    Ended,
}

/// Something to be done to the timer.
#[derive(Clone, Copy, Debug, PartialEq, Eq, Structural)]
pub enum TimerAction {
    /// Start a run.
    Start,
    /// End the current segment.
    Split,
    /// Abandon the run.
    Reset,
    /// Stop game time.
    PauseGameTime,
    /// Let game time run.
    ResumeGameTime,
    /// Set game time to what the game says it is.
    SetGameTime,
}

/// What a flag that says "the game is loading" means for game time: while a
/// run is under way, game time stands still for as long as the flag is set,
/// and runs otherwise. Without a run under way nothing is done; in
/// particular a flag that clears does not start a run.
pub fn load_removal(timer: TimerState, loading: bool) -> (action: Option<TimerAction>)
    ensures
        action == if timer != TimerState::Running {
            None
        } else if loading {
            Some(TimerAction::PauseGameTime)
        } else {
            Some(TimerAction::ResumeGameTime)
        },
{
    if timer != TimerState::Running {
        None
    } else if loading {
        Some(TimerAction::PauseGameTime)
    } else {
        Some(TimerAction::ResumeGameTime)
    }
}

} // verus!
