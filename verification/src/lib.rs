//! Verified core of a real-time voice engine.
pub mod agent_runner;
pub mod audio_ml;
pub mod base64_text;
pub mod bus;
pub mod clock;
pub mod event;
pub mod float32;
pub mod json;
pub mod language_catalog;
pub mod language_config;
pub mod native_session;
pub mod pcm;
pub mod providers;
pub mod recording;
pub mod script;
pub mod session_config;
pub mod sink_event;
pub mod sinks;
pub mod text;
pub mod timestamp;
pub mod tracer;
pub mod turn_tracker;
pub mod wav;
