//! Pacing of RNNoise, which works at 48 kHz on blocks of 10 ms.
use crate::audio_ml::denoiser::pacing::{Pacer, PacerAction};
use vstd::prelude::*;

verus! {

/// The rate of the denoiser.
pub const RNNOISE_RATE: u32 = 48_000;

/// Samples of a block.
pub const FRAME_SIZE: usize = 480;

/// Pacing of RNNoise.
#[derive(Debug)]
pub struct RnnoiseDenoiser {
    pub pacer: Pacer,
}

impl RnnoiseDenoiser {
    /// The pacer has blocks of [`FRAME_SIZE`].
    pub open spec fn wf(&self) -> bool {
        self.pacer@.block == FRAME_SIZE
    }

    /// A denoiser that has heard nothing.
    pub fn new() -> (d: Self)
        ensures
            d.wf(),
            d.pacer@ == crate::audio_ml::denoiser::pacing::PacerView::fresh(FRAME_SIZE as nat),
    {
        RnnoiseDenoiser { pacer: Pacer::new(FRAME_SIZE) }
    }

    /// Takes a frame of the pipeline. Without a resampler it goes out as it is.
    pub fn denoise_frame(&mut self, pcm: &[u8], can_resample: bool) -> (a: PacerAction)
        requires
            old(self).wf(),
        ensures
            final(self).wf(),
            (final(self).pacer@, a@) == old(self).pacer@.after_frame(pcm@, can_resample),
    {
        self.pacer.on_frame(pcm, can_resample)
    }

    /// Drops all audio.
    pub fn reset(&mut self)
        requires
            old(self).wf(),
        ensures
            final(self).wf(),
            final(self).pacer@ == (crate::audio_ml::denoiser::pacing::PacerView {
                due: old(self).pacer@.due,
                ..crate::audio_ml::denoiser::pacing::PacerView::fresh(FRAME_SIZE as nat)
            }),
    {
        self.pacer.reset();
    }
}

} // verus!
