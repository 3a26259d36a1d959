//! Decisions around the audio models: what they are fed and what their verdicts mean.
pub mod denoiser;
pub mod model_state;
pub mod smart_turn;
pub mod vad;
