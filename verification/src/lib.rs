//! Companion library for a game client's chat log: it tails an append-only
//! log file by line index, isolates genuine chat lines from noise, matches
//! locale-dependent lifecycle announcements, and drives a queue of upcoming
//! maps that is consumed one map at a time as the game progresses.
//!
//! The library itself performs no I/O: callers hand it the current lines of
//! the log file, the environment values it asks for, and the map-metadata
//! table, all as plain values.

pub mod classify;
pub mod cursor;
pub mod extract;
pub mod locale;
pub mod machine;
pub mod mapinfo;
pub mod paths;
pub mod text;
