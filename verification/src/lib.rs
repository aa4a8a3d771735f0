//! Small numeric helpers for music and audio code: limiting a value to a
//! range, and the names and numbers of MIDI notes.
//!
//! Every function states what it returns in its contract, over the models in
//! [`note_names`] and [`binaryops::clip_spec`], and Verus proves the body
//! against it.

pub mod binaryops;
pub mod interpolation;
pub mod midi;
pub mod note_names;
pub mod text;
