//! Noise suppression.
//!
//! A denoiser works on blocks of a fixed size, often at another sample rate than the pipeline, so
//! its output trails its input. What is kept here is the pacing: each frame that goes in is
//! answered by as much audio, silence where the output is not there yet.
pub mod backend;
pub mod dfn3;
pub mod dtln;
pub mod pacing;
pub mod rnnoise;
