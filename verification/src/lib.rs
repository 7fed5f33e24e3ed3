//! Tracks a speedrun of the game from its memory, which can only be read, and reports the
//! moments that end a segment: battles won, key items picked up, places reached.
//!
//! The memory is read through a [`memory::MemReader`]. [`remote`] lays the shapes of the game's
//! runtime over it, [`path`] walks from a class to a value, and [`sampling`] reads one sample
//! of the game with them. [`game`] and [`splits`] turn a sequence of such samples into events,
//! at most one for each poll; [`tracker`] turns the events into splits, each of them once, and
//! follows the timer. [`laws`] states what holds of every run.

pub mod data;
pub mod enum_set;
pub mod game;
pub mod laws;
pub mod memory;
pub mod path;
pub mod remote;
pub mod sampling;
pub mod seen;
pub mod settings;
pub mod splits;
pub mod tracker;
pub mod watcher;
