//! Building blocks for auto splitters: values that live behind pointer chains
//! in another process are described once, polled every tick, and compared
//! against what they were on the tick before.
//!
//! The crate never touches a process itself. Everything that reads foreign
//! memory is reached through small capability traits, so the rules in here
//! hold for every backing store, and for every answer it may give.
//!
//! [`watchers`] holds the mechanism: the [`Watcher`], pointer paths, and the
//! sources that find their way through a scene graph and type metadata.
//! [`timer`] and [`try_load`] say what is done to a timer and how a game is
//! waited for. The other modules hold the rules of single games.

pub mod bread_and_fred;
pub mod cuphead;
pub mod doom_the_dark_ages;
pub mod error;
pub mod hex;
pub mod i_am_your_beast;
pub mod timer;
pub mod try_load;
pub mod watchers;

pub use error::WatchError;
pub use watchers::{ValueGetter, Watcher};
