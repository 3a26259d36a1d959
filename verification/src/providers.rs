//! Speech providers: connection supervision, recognition and synthesis protocols.
//!
//! A provider here says which requests and messages to send and what the replies mean; the caller
//! owns sockets, HTTP clients, keys and resamplers.
pub mod request;
pub mod stt;
pub mod tts;
pub mod ws;
