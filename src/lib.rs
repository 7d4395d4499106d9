//! Music theory over the twelve-tone chromatic scale: pitch classes,
//! named intervals, scale degrees, modes of the diatonic and harmonic-minor
//! scales, and the triads and seventh chords built on a root.
pub mod note;
pub mod interval;
pub mod scales;
pub mod chord;
pub mod parse;
