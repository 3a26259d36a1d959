//! Speech synthesis.
//!
//! A provider is either asked over HTTP for each sentence, or fed over one WebSocket connection
//! for the whole session.
pub mod builtin;
pub mod cartesia;
pub mod cartesia_ws;
pub mod deepgram;
pub mod deepgram_ws;
pub mod elevenlabs;
pub mod elevenlabs_ws;
pub mod factory;
pub mod groq;
pub mod openai;
pub mod stream;
