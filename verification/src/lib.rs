//! Core of a local audio-library browser and single-track player: directory
//! scanning for supported audio files, per-track metadata extraction, and the
//! playback session state machine. The presentation layer and the actual
//! audio output device live outside this crate and only exchange plain
//! values with it.

pub mod metadata;
pub mod scanner;
pub mod session;
