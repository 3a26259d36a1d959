//! Pacing of a denoiser that works at another sample rate than the pipeline.
//!
//! The pacer says step by step what is to be done with a frame: resample it, denoise blocks of it,
//! resample the result back, and hand out as much as came in. Resamplers give their output in
//! bursts, so audio waits here in three places.
use crate::pcm::{i16_to_bytes, whole_samples};
use vstd::prelude::*;

verus! {

/// Silence of `n` bytes.
pub open spec fn silent(n: nat) -> Seq<u8> {
    Seq::new(n, |i: int| 0u8)
}

/// Silence of `n` bytes.
pub fn silent_bytes(n: usize) -> (s: Vec<u8>)
    ensures
        s@ == silent(n as nat),
{
    let mut s: Vec<u8> = Vec::new();
    s.resize(n, 0);
    assert(s@ =~= silent(n as nat));
    s
}

/// Takes the first `n` samples out of `samples`.
pub fn take_samples(samples: &mut Vec<i16>, n: usize) -> (head: Vec<i16>)
    requires
        n <= old(samples)@.len(),
    ensures
        head@ == old(samples)@.take(n as int),
        final(samples)@ == old(samples)@.skip(n as int),
{
    let len: usize = samples.len();
    let head = vstd::slice::slice_to_vec(vstd::slice::slice_subrange(samples.as_slice(), 0, n));
    let tail = vstd::slice::slice_to_vec(vstd::slice::slice_subrange(samples.as_slice(), n, len));
    assert(head@ =~= samples@.take(n as int));
    assert(tail@ =~= samples@.skip(n as int));
    *samples = tail;
    head
}

/// Takes the first `n` bytes out of `bytes`.
pub fn take_bytes(bytes: &mut Vec<u8>, n: usize) -> (head: Vec<u8>)
    requires
        n <= old(bytes)@.len(),
    ensures
        head@ == old(bytes)@.take(n as int),
        final(bytes)@ == old(bytes)@.skip(n as int),
{
    let len: usize = bytes.len();
    let head = vstd::slice::slice_to_vec(vstd::slice::slice_subrange(bytes.as_slice(), 0, n));
    let tail = vstd::slice::slice_to_vec(vstd::slice::slice_subrange(bytes.as_slice(), n, len));
    assert(head@ =~= bytes@.take(n as int));
    assert(tail@ =~= bytes@.skip(n as int));
    *bytes = tail;
    head
}

/// What is to be done next with a frame.
#[derive(Debug)]
pub enum PacerAction {
    /// Resample the frame to the rate of the denoiser.
    Upsample,
    /// Denoise a block.
    Denoise(Vec<i16>),
    /// Resample denoised audio back to the rate of the pipeline.
    Downsample(Vec<u8>),
    /// The frame is done; this is what comes out.
    Emit(Vec<u8>),
}

/// A [`PacerAction`] as a value.
#[verifier::ext_equal]
pub enum PacerStep {
    Upsample,
    Denoise(Seq<i16>),
    Downsample(Seq<u8>),
    Emit(Seq<u8>),
}

impl View for PacerAction {
    type V = PacerStep;

    open spec fn view(&self) -> PacerStep {
        match *self {
            PacerAction::Upsample => PacerStep::Upsample,
            PacerAction::Denoise(b) => PacerStep::Denoise(b@),
            PacerAction::Downsample(b) => PacerStep::Downsample(b@),
            PacerAction::Emit(b) => PacerStep::Emit(b@),
        }
    }
}

/// The pacer.
#[derive(Debug)]
pub struct Pacer {
    /// Samples of a block.
    pub block: usize,
    /// Resampled input that is short of a block.
    pub samples: Vec<i16>,
    /// Denoised audio that is not yet resampled back.
    pub enhanced: Vec<u8>,
    /// Output that was not yet handed out.
    pub output: Vec<u8>,
    /// Bytes owed for the current frame.
    pub due: usize,
}

/// A [`Pacer`] as a value.
#[verifier::ext_equal]
pub struct PacerView {
    pub block: nat,
    pub samples: Seq<i16>,
    pub enhanced: Seq<u8>,
    pub output: Seq<u8>,
    pub due: nat,
}

impl View for Pacer {
    type V = PacerView;

    open spec fn view(&self) -> PacerView {
        PacerView {
            block: self.block as nat,
            samples: self.samples@,
            enhanced: self.enhanced@,
            output: self.output@,
            due: self.due as nat,
        }
    }
}

impl PacerView {
    /// A pacer with nothing in it.
    pub open spec fn fresh(block: nat) -> PacerView {
        PacerView {
            block,
            samples: Seq::empty(),
            enhanced: Seq::empty(),
            output: Seq::empty(),
            due: 0,
        }
    }

    /// Hands out what is owed, or silence where there is not that much yet.
    pub open spec fn emitted(self) -> (PacerView, PacerStep) {
        if self.output.len() >= self.due {
            (
                PacerView { output: self.output.skip(self.due as int), ..self },
                PacerStep::Emit(self.output.take(self.due as int)),
            )
        } else {
            (self, PacerStep::Emit(silent(self.due)))
        }
    }

    /// Denoises while there is a block, then resamples back, then hands out.
    pub open spec fn advanced(self) -> (PacerView, PacerStep) {
        if self.samples.len() >= self.block {
            (
                PacerView { samples: self.samples.skip(self.block as int), ..self },
                PacerStep::Denoise(self.samples.take(self.block as int)),
            )
        } else if self.enhanced.len() > 0 {
            (
                PacerView { enhanced: Seq::empty(), ..self },
                PacerStep::Downsample(self.enhanced),
            )
        } else {
            self.emitted()
        }
    }

    /// A frame comes in. One without a sample goes out as it is, and so does every frame while the
    /// denoiser cannot run.
    pub open spec fn after_frame(self, pcm: Seq<u8>, can_run: bool) -> (PacerView, PacerStep) {
        if pcm.len() < 2 || !can_run {
            (self, PacerStep::Emit(pcm))
        } else {
            (PacerView { due: 2 * (pcm.len() / 2), ..self }, PacerStep::Upsample)
        }
    }

    /// The resampled frame comes in.
    pub open spec fn after_upsampled(self, pcm: Seq<u8>) -> (PacerView, PacerStep) {
        PacerView { samples: self.samples + crate::pcm::samples_of(pcm), ..self }.advanced()
    }

    /// A denoised block comes in.
    pub open spec fn after_enhanced(self, block: Seq<i16>) -> (PacerView, PacerStep) {
        PacerView { enhanced: self.enhanced + crate::pcm::bytes_of(block), ..self }.advanced()
    }

    /// Denoised audio at the rate of the pipeline comes in.
    pub open spec fn after_downsampled(self, pcm: Seq<u8>) -> (PacerView, PacerStep) {
        PacerView { output: self.output + pcm, ..self }.emitted()
    }
}

impl Pacer {
    /// A block is not empty.
    pub open spec fn wf(&self) -> bool {
        self.block > 0
    }

    /// A pacer with nothing in it.
    pub fn new(block: usize) -> (p: Self)
        requires
            block > 0,
        ensures
            p.wf(),
            p@ == PacerView::fresh(block as nat),
    {
        let p = Pacer {
            block,
            samples: Vec::new(),
            enhanced: Vec::new(),
            output: Vec::new(),
            due: 0,
        };
        assert(p@ =~= PacerView::fresh(block as nat));
        p
    }

    fn emit(&mut self) -> (a: PacerAction)
        requires
            old(self).wf(),
        ensures
            final(self).wf(),
            (final(self)@, a@) == old(self)@.emitted(),
    {
        if self.output.len() >= self.due {
            let due: usize = self.due;
            let out = take_bytes(&mut self.output, due);
            assert(self@ =~= old(self)@.emitted().0);
            PacerAction::Emit(out)
        } else {
            PacerAction::Emit(silent_bytes(self.due))
        }
    }

    fn advance(&mut self) -> (a: PacerAction)
        requires
            old(self).wf(),
        ensures
            final(self).wf(),
            (final(self)@, a@) == old(self)@.advanced(),
    {
        if self.samples.len() >= self.block {
            let n: usize = self.block;
            let block = take_samples(&mut self.samples, n);
            assert(self@ =~= old(self)@.advanced().0);
            PacerAction::Denoise(block)
        } else if self.enhanced.len() > 0 {
            let mut enhanced: Vec<u8> = Vec::new();
            std::mem::swap(&mut enhanced, &mut self.enhanced);
            assert(self@ =~= old(self)@.advanced().0);
            PacerAction::Downsample(enhanced)
        } else {
            self.emit()
        }
    }

    /// Takes a frame of the pipeline.
    pub fn on_frame(&mut self, pcm: &[u8], can_run: bool) -> (a: PacerAction)
        requires
            old(self).wf(),
        ensures
            final(self).wf(),
            (final(self)@, a@) == old(self)@.after_frame(pcm@, can_run),
    {
        if pcm.len() < 2 || !can_run {
            PacerAction::Emit(vstd::slice::slice_to_vec(pcm))
        } else {
            self.due = 2 * (pcm.len() / 2);
            PacerAction::Upsample
        }
    }

    /// Takes the frame at the rate of the denoiser.
    pub fn on_upsampled(&mut self, pcm: &[u8]) -> (a: PacerAction)
        requires
            old(self).wf(),
        ensures
            final(self).wf(),
            (final(self)@, a@) == old(self)@.after_upsampled(pcm@),
    {
        let more = whole_samples(pcm);
        self.samples.extend_from_slice(more.as_slice());
        assert(self.samples@ =~= old(self).samples@ + crate::pcm::samples_of(pcm@));
        self.advance()
    }

    /// Takes a denoised block.
    pub fn on_enhanced(&mut self, block: &[i16]) -> (a: PacerAction)
        requires
            old(self).wf(),
        ensures
            final(self).wf(),
            (final(self)@, a@) == old(self)@.after_enhanced(block@),
    {
        let more = i16_to_bytes(block);
        self.enhanced.extend_from_slice(more.as_slice());
        assert(self.enhanced@ =~= old(self).enhanced@ + crate::pcm::bytes_of(block@));
        self.advance()
    }

    /// Takes denoised audio at the rate of the pipeline.
    pub fn on_downsampled(&mut self, pcm: &[u8]) -> (a: PacerAction)
        requires
            old(self).wf(),
        ensures
            final(self).wf(),
            (final(self)@, a@) == old(self)@.after_downsampled(pcm@),
    {
        self.output.extend_from_slice(pcm);
        assert(self.output@ =~= old(self).output@ + pcm@);
        self.emit()
    }

    /// Drops all audio.
    pub fn reset(&mut self)
        requires
            old(self).wf(),
        ensures
            final(self).wf(),
            final(self)@ == (PacerView { due: old(self)@.due, ..PacerView::fresh(old(self)@.block) }),
    {
        self.samples = Vec::new();
        self.enhanced = Vec::new();
        self.output = Vec::new();
        assert(self@ =~= (PacerView { due: old(self)@.due, ..PacerView::fresh(old(self)@.block) }));
    }
}

/// What is handed out for a frame is as long as the frame, without a trailing odd byte.
pub proof fn law_output_matches_frame(v: PacerView, pcm: Seq<u8>)
    requires
        pcm.len() >= 2,
    ensures
        v.after_frame(pcm, true).0.due == pcm.len() - pcm.len() % 2,
        forall|w: PacerView|
            w.due == v.after_frame(pcm, true).0.due && (#[trigger] w.emitted()).1 is Emit
                ==> w.emitted().1->Emit_0.len() == pcm.len() - pcm.len() % 2,
{
}

/// No step but handing out ends a frame, and every step keeps what is owed for it.
pub proof fn law_debt_is_kept(v: PacerView, pcm: Seq<u8>, block: Seq<i16>)
    ensures
        v.after_upsampled(pcm).0.due == v.due,
        v.after_enhanced(block).0.due == v.due,
        v.after_downsampled(pcm).0.due == v.due,
        v.after_upsampled(pcm).1 matches PacerStep::Emit(out) ==> out.len() == v.due,
        v.after_enhanced(block).1 matches PacerStep::Emit(out) ==> out.len() == v.due,
        v.after_downsampled(pcm).1 matches PacerStep::Emit(out) && out.len() == v.due,
{
}

/// Resampled input reaches the denoiser whole and in order: a block and what stays behind it are
/// what was there, with what came in at the end.
pub proof fn law_input_keeps_order(v: PacerView, pcm: Seq<u8>)
    ensures
        ({
            let (w, step) = v.after_upsampled(pcm);
            let all = v.samples + crate::pcm::samples_of(pcm);
            match step {
                PacerStep::Denoise(b) => b + w.samples == all && b.len() == v.block,
                _ => w.samples == all && all.len() < v.block,
            }
        }),
{
    let (w, step) = v.after_upsampled(pcm);
    let all = v.samples + crate::pcm::samples_of(pcm);
    if step is Denoise {
        assert(all.take(v.block as int) + all.skip(v.block as int) =~= all);
    }
}

/// Output is handed out whole and in order: it is what was there with what came in at the end, and
/// where that is less than what is owed, all of it waits.
pub proof fn law_output_keeps_order(v: PacerView, pcm: Seq<u8>)
    ensures
        ({
            let (w, step) = v.after_downsampled(pcm);
            let all = v.output + pcm;
            if all.len() >= v.due {
                step->Emit_0 + w.output == all
            } else {
                step->Emit_0 == silent(v.due) && w.output == all
            }
        }),
{
    let all = v.output + pcm;
    if all.len() >= v.due {
        assert(all.take(v.due as int) + all.skip(v.due as int) =~= all);
    }
}

/// Silence is as long as asked and holds nothing but zeros.
pub proof fn law_silence_is_silent(n: nat)
    ensures
        silent(n).len() == n,
        forall|i: int| 0 <= i < n ==> silent(n)[i] == 0,
{
}

/// Denoised blocks wait in order until there is no block left to denoise, and are then resampled
/// back together: what is resampled, or waits, is what waited before and then the block, as
/// little-endian bytes.
pub proof fn law_enhanced_keeps_order(v: PacerView, block: Seq<i16>)
    requires
        v.block > 0,
        block.len() > 0,
    ensures
        ({
            let (w, step) = v.after_enhanced(block);
            let all = v.enhanced + crate::pcm::bytes_of(block);
            if v.samples.len() >= v.block {
                &&& w.enhanced == all
                &&& step == PacerStep::Denoise(v.samples.take(v.block as int))
                &&& w.samples == v.samples.skip(v.block as int)
                &&& w.output == v.output
            } else {
                &&& step == PacerStep::Downsample(all)
                &&& w.enhanced.len() == 0
                &&& w.samples == v.samples
                &&& w.output == v.output
            }
        }),
{
}

/// A frame that cannot be denoised goes out as it is and leaves no trace.
pub proof fn law_frames_may_pass(v: PacerView, pcm: Seq<u8>, can_run: bool)
    requires
        pcm.len() < 2 || !can_run,
    ensures
        v.after_frame(pcm, can_run) == (v, PacerStep::Emit(pcm)),
{
}

/// A frame that can be denoised is resampled first, and nothing is handed out for it yet.
pub proof fn law_frames_are_resampled_first(v: PacerView, pcm: Seq<u8>)
    requires
        pcm.len() >= 2,
    ensures
        v.after_frame(pcm, true).1 is Upsample,
        v.after_frame(pcm, true).0.samples == v.samples,
        v.after_frame(pcm, true).0.enhanced == v.enhanced,
        v.after_frame(pcm, true).0.output == v.output,
{
}

/// Once no block is left to denoise, all denoised audio is resampled back at once, and what is owed is
/// handed out only when there is none.
pub proof fn law_denoised_audio_is_resampled(v: PacerView)
    requires
        v.samples.len() < v.block,
    ensures
        v.enhanced.len() > 0 ==> v.advanced().1 == PacerStep::Downsample(v.enhanced)
            && v.advanced().0.enhanced.len() == 0 && v.advanced().0.output == v.output,
        v.enhanced.len() == 0 ==> v.advanced().1 is Emit,
{
}

/// A new pacer holds no audio and owes none.
pub proof fn law_new_pacer_is_empty(block: nat)
    ensures
        ({
            let v = PacerView::fresh(block);
            &&& v.block == block
            &&& v.samples.len() == 0
            &&& v.enhanced.len() == 0
            &&& v.output.len() == 0
            &&& v.due == 0
        }),
{
}

} // verus!
