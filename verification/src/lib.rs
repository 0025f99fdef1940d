//! Replay preparation for Forged Alliance Forever.
//!
//! A replay comes in one of two encodings, told apart by the suffix of its
//! file name: the raw format that the game writes itself, and a legacy
//! two-line text container that wraps a compressed copy of it. This library
//! recognises the encoding, takes a legacy container apart, decides what
//! the caller has to read and write to end up with a raw replay on disk, and
//! builds the command line that starts the game on it.
//! It performs no input or output of its own.

pub mod codec;
pub mod container;
pub mod error;
pub mod format;
pub mod launch;
pub mod materialize;
pub mod stream;
