//! Speech recognition.
//!
//! A provider either streams audio over a WebSocket and reports text as it comes, or collects the
//! audio of an utterance and uploads it at its end.
pub mod builtin;
pub mod cartesia;
pub mod deepgram;
pub mod elevenlabs;
pub mod event;
pub mod factory;
pub mod groq;
pub mod openai_realtime;
pub mod openai_whisper;
pub mod segmented;
