//! Core of a command-line music player: a sample-accurate renderer over a
//! swappable track source, a streaming-decoder frame pairer, playlist queues
//! with bounded lookback, and the player state machine that the control
//! surface and the poll loop drive.
//!
//! The library holds the logic; device output, file reading, module
//! decoding and the OS media-key hookup live in the surrounding
//! application, which hands plain values in and takes plain values back.

pub mod decoder;
pub mod frame;
pub mod player;
pub mod playlist;
pub mod poll;
pub mod render;
pub mod tracks;
