//! A splitter for DOOM: The Dark Ages: what is read of the game.

pub mod physics;
pub mod player;
