//! A polyphonic tone synthesizer's verified core.
//!
//! - `pitch`: pitch classes, notes, semitone arithmetic and the pitch order.
//! - `command`: control events and the mapping from key presses to them.
//! - `engine`: round-robin voice allocation, command application (one per
//!   sample) and the decimation of the sample history.
//! - `keyboard`: the on-screen keyboard's highlight state and its drawing.
//! - `text`: the terminal colour sequences and string building it relies on.
use vstd::prelude::*;

pub mod command;
pub mod engine;
pub mod keyboard;
pub mod pitch;
pub mod text;

verus! {

/// Number of voices in the pool (the polyphony limit).
pub const NUM_VOICES: usize = 4;

/// Number of decimated entries held by the history buffer.
pub const HISTORY_LENGTH: usize = 150;

/// Number of consecutive samples averaged into one history entry.
pub const DECIMATION: usize = 10;

} // verus!
