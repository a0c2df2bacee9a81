//! A splitter for Cuphead: what is read of the game, and when to split.

pub mod classes;
pub mod enums;
pub mod memory;
pub mod rules;
pub mod settings;
