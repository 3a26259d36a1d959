//! Pacing of DTLN, which works at the rate of the pipeline on windows that overlap.
use crate::audio_ml::denoiser::pacing::{silent_bytes, take_bytes, take_samples};
use crate::pcm::{i16_to_bytes, whole_samples};
use vstd::prelude::*;

verus! {

/// Samples of a window.
pub const BLOCK_LEN: usize = 512;

/// Samples by which the window moves on.
pub const BLOCK_SHIFT: usize = 128;

/// Shifts whose output is silenced after a start.
pub const WARMUP_SHIFTS: u32 = 5;

/// What is to be done next with a frame.
#[derive(Debug)]
pub enum DtlnAction {
    /// Denoise this window.
    Denoise(Vec<i16>),
    /// The frame is done; this is what comes out.
    Emit(Vec<u8>),
}

/// A [`DtlnAction`] as a value.
#[verifier::ext_equal]
pub enum DtlnStep {
    Denoise(Seq<i16>),
    Emit(Seq<u8>),
}

impl View for DtlnAction {
    type V = DtlnStep;

    open spec fn view(&self) -> DtlnStep {
        match *self {
            DtlnAction::Denoise(w) => DtlnStep::Denoise(w@),
            DtlnAction::Emit(b) => DtlnStep::Emit(b@),
        }
    }
}

/// Pacing of DTLN.
#[derive(Debug)]
pub struct DtlnDenoiser {
    /// The last samples that came in.
    pub window: Vec<i16>,
    /// Input that is short of a shift.
    pub samples: Vec<i16>,
    /// Output that was not yet handed out.
    pub output: Vec<u8>,
    /// Shifts that are still silenced.
    pub warmup_remaining: u32,
    /// Bytes owed for the current frame.
    pub due: usize,
}

/// A [`DtlnDenoiser`] as a value.
#[verifier::ext_equal]
pub struct DtlnView {
    pub window: Seq<i16>,
    pub samples: Seq<i16>,
    pub output: Seq<u8>,
    pub warmup_remaining: u32,
    pub due: nat,
}

impl View for DtlnDenoiser {
    type V = DtlnView;

    open spec fn view(&self) -> DtlnView {
        DtlnView {
            window: self.window@,
            samples: self.samples@,
            output: self.output@,
            warmup_remaining: self.warmup_remaining,
            due: self.due as nat,
        }
    }
}

impl DtlnView {
    /// A denoiser that has heard nothing.
    pub open spec fn fresh() -> DtlnView {
        DtlnView {
            window: crate::audio_ml::vad::silence(BLOCK_LEN as nat),
            samples: Seq::empty(),
            output: Seq::empty(),
            warmup_remaining: WARMUP_SHIFTS,
            due: 0,
        }
    }

    /// The window after a shift: the oldest samples leave, and the new ones follow the rest.
    pub open spec fn shifted_window(self) -> Seq<i16> {
        self.window.skip(BLOCK_SHIFT as int) + self.samples.take(BLOCK_SHIFT as int)
    }

    /// Denoises while there is a shift, then hands out what is owed, or silence where there is not
    /// that much yet.
    pub open spec fn advanced(self) -> (DtlnView, DtlnStep) {
        if self.samples.len() >= BLOCK_SHIFT {
            (
                DtlnView {
                    window: self.shifted_window(),
                    samples: self.samples.skip(BLOCK_SHIFT as int),
                    ..self
                },
                DtlnStep::Denoise(self.shifted_window()),
            )
        } else if self.output.len() >= self.due {
            (
                DtlnView { output: self.output.skip(self.due as int), ..self },
                DtlnStep::Emit(self.output.take(self.due as int)),
            )
        } else {
            (self, DtlnStep::Emit(crate::audio_ml::denoiser::pacing::silent(self.due)))
        }
    }

    /// A frame comes in. One without a sample goes out as it is, and so does every frame while the
    /// model is not loaded.
    pub open spec fn after_frame(self, pcm: Seq<u8>, loaded: bool) -> (DtlnView, DtlnStep) {
        if pcm.len() < 2 || !loaded {
            (self, DtlnStep::Emit(pcm))
        } else {
            DtlnView {
                samples: self.samples + crate::pcm::samples_of(pcm),
                due: 2 * (pcm.len() / 2),
                ..self
            }.advanced()
        }
    }

    /// The start of the denoised window comes in. During the warm-up it is silenced.
    pub open spec fn after_shift(self, block: Seq<i16>) -> (DtlnView, DtlnStep) {
        DtlnView {
            output: self.output + if self.warmup_remaining > 0 {
                crate::audio_ml::denoiser::pacing::silent(2 * BLOCK_SHIFT as nat)
            } else {
                crate::pcm::bytes_of(block)
            },
            warmup_remaining: if self.warmup_remaining > 0 {
                (self.warmup_remaining - 1) as u32
            } else {
                0
            },
            ..self
        }.advanced()
    }
}

impl DtlnDenoiser {
    /// The window has its length.
    pub open spec fn wf(&self) -> bool {
        self.window@.len() == BLOCK_LEN
    }

    /// A denoiser that has heard nothing.
    pub fn new() -> (d: Self)
        ensures
            d.wf(),
            d@ == DtlnView::fresh(),
    {
        let mut window: Vec<i16> = Vec::new();
        window.resize(BLOCK_LEN, 0);
        let d = DtlnDenoiser {
            window,
            samples: Vec::new(),
            output: Vec::new(),
            warmup_remaining: WARMUP_SHIFTS,
            due: 0,
        };
        assert(d@ =~= DtlnView::fresh());
        d
    }

    fn advance(&mut self) -> (a: DtlnAction)
        requires
            old(self).wf(),
        ensures
            final(self).wf(),
            (final(self)@, a@) == old(self)@.advanced(),
    {
        if self.samples.len() >= BLOCK_SHIFT {
            let fresh = take_samples(&mut self.samples, BLOCK_SHIFT);
            let _oldest = take_samples(&mut self.window, BLOCK_SHIFT);
            self.window.extend_from_slice(fresh.as_slice());
            assert(self.window@ =~= old(self)@.shifted_window());
            assert(self@ =~= old(self)@.advanced().0);
            DtlnAction::Denoise(vstd::slice::slice_to_vec(self.window.as_slice()))
        } else if self.output.len() >= self.due {
            let due: usize = self.due;
            let out = take_bytes(&mut self.output, due);
            assert(self@ =~= old(self)@.advanced().0);
            DtlnAction::Emit(out)
        } else {
            DtlnAction::Emit(silent_bytes(self.due))
        }
    }

    /// Takes a frame of the pipeline.
    pub fn denoise_frame(&mut self, pcm: &[u8], loaded: bool) -> (a: DtlnAction)
        requires
            old(self).wf(),
        ensures
            final(self).wf(),
            (final(self)@, a@) == old(self)@.after_frame(pcm@, loaded),
    {
        if pcm.len() < 2 || !loaded {
            return DtlnAction::Emit(vstd::slice::slice_to_vec(pcm));
        }
        let more = whole_samples(pcm);
        self.samples.extend_from_slice(more.as_slice());
        self.due = 2 * (pcm.len() / 2);
        assert(self.samples@ =~= old(self).samples@ + crate::pcm::samples_of(pcm@));
        self.advance()
    }

    /// Whether the shift being worked on ends the warm-up, after which the overlap of the model's
    /// output starts anew.
    pub fn ends_warmup(&self) -> (r: bool)
        ensures
            r == (self@.warmup_remaining == 1),
    {
        self.warmup_remaining == 1
    }

    /// Takes the start of the denoised window.
    pub fn on_shift(&mut self, block: &[i16]) -> (a: DtlnAction)
        requires
            old(self).wf(),
        ensures
            final(self).wf(),
            (final(self)@, a@) == old(self)@.after_shift(block@),
    {
        if self.warmup_remaining > 0 {
            self.warmup_remaining = self.warmup_remaining - 1;
            let quiet = silent_bytes(2 * BLOCK_SHIFT);
            self.output.extend_from_slice(quiet.as_slice());
            assert(self.output@ =~= old(self).output@ + crate::audio_ml::denoiser::pacing::silent(
                2 * BLOCK_SHIFT as nat,
            ));
        } else {
            let more = i16_to_bytes(block);
            self.output.extend_from_slice(more.as_slice());
            assert(self.output@ =~= old(self).output@ + crate::pcm::bytes_of(block@));
        }
        self.advance()
    }

    /// Drops all audio and warms up anew.
    pub fn reset(&mut self)
        ensures
            final(self).wf(),
            final(self)@ == (DtlnView { due: old(self)@.due, ..DtlnView::fresh() }),
    {
        let due: usize = self.due;
        *self = DtlnDenoiser::new();
        self.due = due;
    }
}

/// What is handed out is as long as what is owed, and a frame owes as much as it holds.
pub proof fn law_output_matches_frame(v: DtlnView, pcm: Seq<u8>, block: Seq<i16>)
    requires
        pcm.len() >= 2,
    ensures
        v.after_frame(pcm, true).0.due == pcm.len() - pcm.len() % 2,
        v.after_frame(pcm, true).1 matches DtlnStep::Emit(out) ==> out.len() == pcm.len()
            - pcm.len() % 2,
        v.after_shift(block).0.due == v.due,
        v.after_shift(block).1 matches DtlnStep::Emit(out) ==> out.len() == v.due,
{
}

/// The window holds the last samples that came in: a shift appends the oldest waiting ones to it.
pub proof fn law_window_slides(v: DtlnView)
    requires
        v.window.len() == BLOCK_LEN,
        v.samples.len() >= BLOCK_SHIFT,
    ensures
        v.advanced().0.window.len() == BLOCK_LEN,
        v.advanced().0.window + v.advanced().0.samples == (v.window + v.samples).skip(
            BLOCK_SHIFT as int,
        ),
{
    assert(v.advanced().0.window + v.advanced().0.samples =~= (v.window + v.samples).skip(
        BLOCK_SHIFT as int,
    ));
}

/// What comes in: a frame of the pipeline, or the start of a denoised window.
pub enum DtlnInput {
    Frame(Seq<u8>),
    Shift(Seq<i16>),
}

/// The denoiser after an input, while its model is loaded.
pub open spec fn after_input(v: DtlnView, input: DtlnInput) -> (DtlnView, DtlnStep) {
    match input {
        DtlnInput::Frame(pcm) => v.after_frame(pcm, true),
        DtlnInput::Shift(block) => v.after_shift(block),
    }
}

/// The denoiser after a run of inputs.
pub open spec fn after_inputs(v: DtlnView, inputs: Seq<DtlnInput>) -> DtlnView
    decreases inputs.len(),
{
    if inputs.len() == 0 {
        v
    } else {
        after_input(after_inputs(v, inputs.drop_last()), inputs.last()).0
    }
}

/// The denoised bytes that came in with a run of inputs, in the order in which they came.
pub open spec fn denoised(inputs: Seq<DtlnInput>) -> Seq<u8>
    decreases inputs.len(),
{
    if inputs.len() == 0 {
        Seq::empty()
    } else {
        denoised(inputs.drop_last()) + match inputs.last() {
            DtlnInput::Frame(_) => Seq::empty(),
            DtlnInput::Shift(block) => crate::pcm::bytes_of(block),
        }
    }
}

/// Whether the answer to an input is taken from the output: it is handed out, and not for lack of
/// output replaced by silence.
pub open spec fn takes_output(v: DtlnView, input: DtlnInput) -> bool {
    let (w, step) = after_input(v, input);
    let there = v.output.len() + match input {
        DtlnInput::Frame(_) => 0,
        DtlnInput::Shift(block) => 2 * block.len() as int,
    };
    step is Emit && there >= w.due
}

/// What was handed out of the output over a run of inputs.
pub open spec fn handed_out(v: DtlnView, inputs: Seq<DtlnInput>) -> Seq<u8>
    decreases inputs.len(),
{
    if inputs.len() == 0 {
        Seq::empty()
    } else {
        let before = after_inputs(v, inputs.drop_last());
        handed_out(v, inputs.drop_last()) + if takes_output(before, inputs.last()) {
            after_input(before, inputs.last()).1->Emit_0
        } else {
            Seq::empty()
        }
    }
}

/// Whether every frame of a run holds a sample.
pub open spec fn frames_hold_audio(inputs: Seq<DtlnInput>) -> bool {
    forall|i: int|
        0 <= i < inputs.len() ==> ((#[trigger] inputs[i]) matches DtlnInput::Frame(pcm)
            ==> pcm.len() >= 2)
}

/// Denoised audio is handed out whole and in order. Over any run of frames and shifts after the
/// warm-up, what was handed out and then what waits are what waited before and then the denoised
/// blocks, in the order in which they came in.
pub proof fn law_denoised_audio_keeps_order(v: DtlnView, inputs: Seq<DtlnInput>)
    requires
        v.warmup_remaining == 0,
        frames_hold_audio(inputs),
    ensures
        after_inputs(v, inputs).warmup_remaining == 0,
        handed_out(v, inputs) + after_inputs(v, inputs).output == v.output + denoised(inputs),
    decreases inputs.len(),
{
    if inputs.len() == 0 {
        assert(Seq::<u8>::empty() + v.output =~= v.output + Seq::<u8>::empty());
    } else {
        let rest = inputs.drop_last();
        assert(frames_hold_audio(rest)) by {
            assert forall|i: int| 0 <= i < rest.len() implies ((#[trigger] rest[i]) matches
                DtlnInput::Frame(pcm) ==> pcm.len() >= 2) by {
                assert(rest[i] == inputs[i]);
            }
        }
        law_denoised_audio_keeps_order(v, rest);
        let p = after_inputs(v, rest);
        let input = inputs.last();
        assert(inputs[inputs.len() - 1] == input);
        let (w, step) = after_input(p, input);
        let more = match input {
            DtlnInput::Frame(_) => Seq::<u8>::empty(),
            DtlnInput::Shift(block) => crate::pcm::bytes_of(block),
        };
        let out = if takes_output(p, input) {
            step->Emit_0
        } else {
            Seq::empty()
        };
        assert(p.output + Seq::<u8>::empty() =~= p.output);
        assert(out + w.output =~= p.output + more);
        assert(handed_out(v, rest) + out + w.output =~= handed_out(v, rest) + (out + w.output));
        assert(handed_out(v, rest) + (p.output + more) =~= (handed_out(v, rest) + p.output) + more);
        assert((v.output + denoised(rest)) + more =~= v.output + (denoised(rest) + more));
    }
}

/// Where there is less than is owed, silence of that length goes out and all that is there waits.
pub proof fn law_lack_of_output_is_silence(v: DtlnView, input: DtlnInput, i: int)
    requires
        v.warmup_remaining == 0,
        frames_hold_audio(seq![input]),
        after_input(v, input).1 is Emit,
        !takes_output(v, input),
        0 <= i < after_input(v, input).0.due,
    ensures
        after_input(v, input).1->Emit_0.len() == after_input(v, input).0.due,
        after_input(v, input).1->Emit_0[i] == 0,
        after_input(v, input).0.output.len() == v.output.len() + denoised(seq![input]).len(),
{
    assert(seq![input][0] == input);
    assert(seq![input].drop_last() =~= Seq::empty());
    reveal_with_fuel(denoised, 2);
}

/// During the warm-up a shift brings silence as long as itself, whatever was denoised, and the
/// warm-up ends after five of them.
pub proof fn law_warmup_is_silent(v: DtlnView, block: Seq<i16>, other: Seq<i16>)
    requires
        v.warmup_remaining > 0,
        v.samples.len() >= 128,
    ensures
        DtlnView::fresh().warmup_remaining == 5,
        v.after_shift(block).0.warmup_remaining == v.warmup_remaining - 1,
        v.after_shift(block) == v.after_shift(other),
        v.after_shift(block).0.output.len() == v.output.len() + 256,
        v.after_shift(block).0.output.take(v.output.len() as int) == v.output,
        forall|i: int|
            v.output.len() <= i < v.output.len() + 256 ==> v.after_shift(block).0.output[i] == 0,
{
    assert(v.after_shift(block).0.output.take(v.output.len() as int) =~= v.output);
}

/// Audio reaches the model in order and in steps of 128 samples: as long as there are so many, the
/// model is shown the 512 samples that end with the oldest 128 of them, and the rest waits.
pub proof fn law_model_sees_every_sample(v: DtlnView, pcm: Seq<u8>, i: int)
    requires
        v.window.len() == 512,
        pcm.len() >= 2,
        v.samples.len() + pcm.len() / 2 >= 128,
        0 <= i < 512,
    ensures
        ({
            let (w, step) = v.after_frame(pcm, true);
            let all = v.window + v.samples + crate::pcm::samples_of(pcm);
            &&& step matches DtlnStep::Denoise(shown) && shown.len() == 512 && shown[i] == all[128
                + i] && shown == w.window
            &&& w.window + w.samples == all.skip(128)
            &&& w.output == v.output
        }),
{
    let (w, step) = v.after_frame(pcm, true);
    let all = v.window + v.samples + crate::pcm::samples_of(pcm);
    assert(w.window + w.samples =~= all.skip(128));
    assert(w.window[i] == all[128 + i]);
}

/// A frame with too little audio for a step waits whole behind what waits already.
pub proof fn law_short_input_waits(v: DtlnView, pcm: Seq<u8>)
    requires
        pcm.len() >= 2,
        v.samples.len() + pcm.len() / 2 < 128,
    ensures
        v.after_frame(pcm, true).0.samples == v.samples + crate::pcm::samples_of(pcm),
        v.after_frame(pcm, true).0.window == v.window,
        v.after_frame(pcm, true).1 is Emit,
{
}

/// A frame that cannot be denoised goes out as it is and leaves no trace.
pub proof fn law_frames_may_pass(v: DtlnView, pcm: Seq<u8>, loaded: bool)
    requires
        pcm.len() < 2 || !loaded,
    ensures
        v.after_frame(pcm, loaded) == (v, DtlnStep::Emit(pcm)),
{
}

/// A denoiser that has heard nothing is silent for five blocks.
pub proof fn law_first_blocks_are_silent(a: Seq<i16>, b: Seq<i16>, c: Seq<i16>, d: Seq<i16>, e: Seq<i16>)
    ensures
        ({
            let v = DtlnView::fresh().after_shift(a).0.after_shift(b).0.after_shift(c).0.after_shift(
                d,
            ).0;
            &&& DtlnView::fresh().warmup_remaining == 5
            &&& v.warmup_remaining == 1
            &&& v.after_shift(e).0.warmup_remaining == 0
        }),
{
}

} // verus!
