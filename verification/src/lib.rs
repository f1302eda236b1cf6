//! Core logic of a small noise-generating synthesizer plugin.
//!
//! The plugin plays uniform noise while at least one MIDI note is held,
//! scaled by a single normalized amplitude parameter that an embedded
//! GUI panel can edit.  This crate holds the verified core: note
//! tracking, sample generation in fixed point, parameter storage and
//! formatting, and the GUI lifecycle state machine.  Host and window
//! plumbing live outside it.

pub mod descriptor;
pub mod gui;
pub mod notes;
pub mod params;
pub mod signal;
