//! Waiting for a target to become loadable.
//!
//! Right after a process was found, what a splitter needs of it may not be
//! there yet. Loading is therefore tried again and again, with a pause in
//! between, until it succeeds. The pause itself, and the attempt, are the
//! caller's; what to do after an attempt is decided here.

use vstd::prelude::*;
use crate::error::WatchError;

verus! {

/// The pause between two attempts, in milliseconds, where none is given.
pub const DEFAULT_COOLDOWN_MILLIS: u64 = 100;

/// What to do after an attempt to load.
pub enum LoadStep<T> {
    /// The attempt succeeded: this is what was loaded.
    Loaded(T),
    /// The attempt failed with `failure`: wait for `cooldown_millis` and try
    /// again.
    Retry { failure: WatchError, cooldown_millis: u64 },
}

/// Decides what follows the attempt `attempt`, where `cooldown_millis` is
/// the pause between attempts. Success ends the wait; no failure does.
pub fn wait_try_load_millis<T>(attempt: Result<T, WatchError>, cooldown_millis: u64) -> (step:
    LoadStep<T>)
    ensures
        step == match attempt {
            Ok(loaded) => LoadStep::Loaded(loaded),
            Err(failure) => LoadStep::Retry { failure, cooldown_millis },
        },
{
    match attempt {
        Ok(loaded) => LoadStep::Loaded(loaded),
        Err(failure) => LoadStep::Retry { failure, cooldown_millis },
    }
}

/// As `wait_try_load_millis`, with the default pause.
pub fn wait_try_load<T>(attempt: Result<T, WatchError>) -> (step: LoadStep<T>)
    ensures
        step == match attempt {
            Ok(loaded) => LoadStep::Loaded(loaded),
            Err(failure) => LoadStep::Retry { failure, cooldown_millis: DEFAULT_COOLDOWN_MILLIS },
        },
{
    wait_try_load_millis(attempt, DEFAULT_COOLDOWN_MILLIS)
}

} // verus!
