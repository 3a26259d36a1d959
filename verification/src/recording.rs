//! Session recording: audio capture and transcript logging.
//!
//! A recorder consumes the events of a session and produces the audio of both sides, placed at the
//! time it was heard, and a transcript.
pub mod config;
pub mod mix;
pub mod opus;
pub mod output;
pub mod recorder;
pub mod track;
pub mod transcript;
