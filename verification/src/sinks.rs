//! Sinks: what becomes of the events of a session outside the engine.
pub mod attrs;
pub mod langfuse;
pub mod otel;

pub mod pg;
