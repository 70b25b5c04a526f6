//! A two-player reaction game on a 5x5 display, and its tone sequencer.
//!
//! [`spiral`] moves the dot over the grid, [`game`] runs a round on top of it,
//! [`display`] is the grid that the round draws on, [`notes`] holds the
//! waveforms and tracks, and [`sound`] sequences a track on the tone
//! generator.
pub mod display;
pub mod game;
pub mod notes;
pub mod sound;
pub mod spiral;
