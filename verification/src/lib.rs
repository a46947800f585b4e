//! Core logic of a run-timing autosplitter for Pizza Tower.
//!
//! The library turns a stream of values observed in the game's memory into
//! timer-control decisions (start, split, reset, set the displayed game time).
//! It contains the byte-pattern scanner and address arithmetic used to locate
//! the watched values, the sampling rules that maintain current/previous value
//! pairs, the classifier that maps room names to abstract levels, and the
//! run-tracking state machine that evaluates one tick of observations.
//!
//! All process attachment, raw memory reads and timer-host calls live outside
//! this crate; the library works on plain values handed in each tick.

pub mod memory;
pub mod pair;
pub mod resolver;
pub mod rooms_ids;
pub mod scanner;
pub mod settings;
pub mod strutil;
pub mod tracker;
