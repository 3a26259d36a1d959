//! Voice activity detection: from per-frame verdicts to stretches of speech.
//!
//! A frame holds speech where the model is sure enough of it and the volume is high enough. The
//! detector debounces those verdicts and collects the audio of a stretch of speech, with the frames
//! that came just before it.
use crate::float32::Float32;
use vstd::prelude::*;

verus! {

/// The start or the end of a stretch of speech.
#[derive(Clone, Copy, Debug, PartialEq, Eq, Structural)]
pub enum VadEvent {
    SpeechStart,
    SpeechEnd,
}

/// Bits of 0.70, the probability from which a frame holds speech while the bot is silent.
pub const VAD_THRESHOLD_IDLE: u32 = 0x3f33_3333;

/// Bits of 0.85, that probability while the bot speaks and the microphone is denoised.
pub const VAD_THRESHOLD_PLAYBACK: u32 = 0x3f59_999a;

/// Bits of 0.90, that probability while the bot speaks and the microphone is raw.
pub const VAD_THRESHOLD_PLAYBACK_RAW: u32 = 0x3f66_6666;

/// Bits of 0.0035, the volume from which a frame may hold speech.
pub const MIN_VOLUME: u32 = 0x3b65_6042;

/// How sure the model has to be that a frame holds speech.
#[derive(Clone, Copy, Debug, PartialEq, Eq, Structural)]
pub enum VadThreshold {
    /// While the bot is silent.
    Idle,
    /// While the bot speaks and the microphone is denoised.
    Playback,
    /// While the bot speaks and the microphone is raw.
    PlaybackRaw,
}

impl VadThreshold {
    /// The bits of the probability.
    pub open spec fn bits(self) -> u32 {
        match self {
            VadThreshold::Idle => VAD_THRESHOLD_IDLE,
            VadThreshold::Playback => VAD_THRESHOLD_PLAYBACK,
            VadThreshold::PlaybackRaw => VAD_THRESHOLD_PLAYBACK_RAW,
        }
    }

    /// The probability from which a frame holds speech.
    pub fn value(self) -> (p: Float32)
        ensures
            p.bits == self.bits(),
    {
        match self {
            VadThreshold::Idle => Float32 { bits: VAD_THRESHOLD_IDLE },
            VadThreshold::Playback => Float32 { bits: VAD_THRESHOLD_PLAYBACK },
            VadThreshold::PlaybackRaw => Float32 { bits: VAD_THRESHOLD_PLAYBACK_RAW },
        }
    }
}

/// What makes a verdict, and the debouncing of the verdicts.
#[derive(Clone, Copy, Debug, PartialEq, Eq, Structural)]
pub struct VadConfig {
    /// Probability from which a frame holds speech.
    pub threshold: Float32,
    /// Volume from which a frame may hold speech.
    pub min_volume: Float32,
    /// Silent frames that end speech.
    pub silence_frames: u32,
    /// Speech frames that start speech.
    pub min_speech_frames: u32,
    /// Frames before the start of speech that belong to it.
    pub lookback_frames: usize,
    /// Samples of the frame before that the model sees again.
    pub context_size: usize,
}

impl Default for VadConfig {
    fn default() -> (c: Self)
        ensures
            c == (VadConfig {
                threshold: Float32 { bits: VAD_THRESHOLD_IDLE },
                min_volume: Float32 { bits: MIN_VOLUME },
                silence_frames: 6,
                min_speech_frames: 6,
                lookback_frames: 20,
                context_size: 64,
            }),
    {
        VadConfig {
            threshold: Float32 { bits: VAD_THRESHOLD_IDLE },
            min_volume: Float32 { bits: MIN_VOLUME },
            silence_frames: 6,
            min_speech_frames: 6,
            lookback_frames: 20,
            context_size: 64,
        }
    }
}

impl VadConfig {
    /// Whether a frame holds speech, given how probable the model finds it and how loud it is.
    pub open spec fn hears(self, prob: Float32, volume: Float32) -> bool {
        prob.is_at_least(self.threshold) && volume.is_at_least(self.min_volume)
    }
}

/// Samples of a frame that the model takes at once.
pub const FRAME_SIZE: usize = 512;

/// How long the model runs before its state is reset, unless speech is going on.
pub const MODEL_RESET_NS: u64 = 5_000_000_000;

/// The detector.
#[derive(Debug)]
pub struct SileroVad {
    pub config: VadConfig,
    pub is_speaking: bool,
    pub speech_frame_count: u32,
    pub silence_frame_count: u32,
    pub lookback_buffer: Vec<Vec<u8>>,
    pub speech_audio: Vec<u8>,
    /// When the model state was last reset.
    pub last_reset: u64,
    /// The last samples that the model saw.
    pub context: Vec<i16>,
}

/// A [`SileroVad`] as a value.
#[verifier::ext_equal]
pub struct VadView {
    pub config: VadConfig,
    pub is_speaking: bool,
    pub speech_frame_count: u32,
    pub silence_frame_count: u32,
    pub lookback: Seq<Seq<u8>>,
    pub speech_audio: Seq<u8>,
    pub last_reset: u64,
    pub context: Seq<i16>,
}

/// Silence of `n` samples.
pub open spec fn silence(n: nat) -> Seq<i16> {
    Seq::new(n, |i: int| 0i16)
}

/// The frames as values.
pub open spec fn frame_views(frames: Seq<Vec<u8>>) -> Seq<Seq<u8>> {
    frames.map_values(|f: Vec<u8>| f@)
}

/// The bytes of all frames, in order.
pub open spec fn frames_joined(frames: Seq<Seq<u8>>) -> Seq<u8>
    decreases frames.len(),
{
    if frames.len() == 0 {
        Seq::empty()
    } else {
        frames_joined(frames.drop_last()) + frames.last()
    }
}

impl View for SileroVad {
    type V = VadView;

    open spec fn view(&self) -> VadView {
        VadView {
            config: self.config,
            is_speaking: self.is_speaking,
            speech_frame_count: self.speech_frame_count,
            silence_frame_count: self.silence_frame_count,
            lookback: frame_views(self.lookback_buffer@),
            speech_audio: self.speech_audio@,
            last_reset: self.last_reset,
            context: self.context@,
        }
    }
}

impl VadView {
    /// The counters are short of what they count up to, and the lookback is within its bound.
    pub open spec fn wf(self) -> bool {
        &&& self.speech_frame_count == 0 || self.speech_frame_count < self.config.min_speech_frames
        &&& self.silence_frame_count == 0 || self.silence_frame_count < self.config.silence_frames
        &&& self.lookback.len() <= self.config.lookback_frames
        &&& self.context.len() == self.config.context_size
    }

    /// What the model is shown of a frame: the context and then the start of the frame.
    pub open spec fn input(self, frame: Seq<u8>) -> Seq<i16> {
        let samples = crate::pcm::samples_of(frame);
        self.context + if samples.len() > FRAME_SIZE {
            samples.take(FRAME_SIZE as int)
        } else {
            samples
        }
    }

    /// The detector after the model saw `input`.
    pub open spec fn after_inference(self, input: Seq<i16>) -> VadView {
        VadView { context: input.skip(input.len() - self.config.context_size), ..self }
    }

    /// The detector with a frame added to the lookback, of which the newest frames are kept.
    pub open spec fn remembering(self, frame: Seq<u8>) -> VadView {
        let all = self.lookback.push(frame);
        VadView {
            lookback: if all.len() > self.config.lookback_frames {
                all.drop_first()
            } else {
                all
            },
            ..self
        }
    }

    /// The detector after a frame that holds speech, and what it reports.
    pub open spec fn after_speech(self, frame: Seq<u8>) -> (VadView, Option<VadEvent>) {
        if self.is_speaking {
            (
                VadView {
                    silence_frame_count: 0,
                    speech_audio: self.speech_audio + frame,
                    ..self
                },
                None,
            )
        } else if self.speech_frame_count + 1 >= self.config.min_speech_frames {
            (
                VadView {
                    is_speaking: true,
                    speech_frame_count: 0,
                    silence_frame_count: 0,
                    speech_audio: frames_joined(self.lookback) + frame,
                    ..self
                },
                Some(VadEvent::SpeechStart),
            )
        } else {
            (
                VadView {
                    silence_frame_count: 0,
                    speech_frame_count: (self.speech_frame_count + 1) as u32,
                    ..self
                }.remembering(frame),
                None,
            )
        }
    }

    /// The detector after a frame without speech, and what it reports.
    pub open spec fn after_silence(self, frame: Seq<u8>) -> (VadView, Option<VadEvent>) {
        if !self.is_speaking {
            (VadView { speech_frame_count: 0, ..self }.remembering(frame), None)
        } else if self.silence_frame_count + 1 >= self.config.silence_frames {
            (
                VadView {
                    is_speaking: false,
                    speech_frame_count: 0,
                    silence_frame_count: 0,
                    speech_audio: self.speech_audio + frame,
                    ..self
                },
                Some(VadEvent::SpeechEnd),
            )
        } else {
            (
                VadView {
                    speech_frame_count: 0,
                    silence_frame_count: (self.silence_frame_count + 1) as u32,
                    speech_audio: self.speech_audio + frame,
                    ..self
                },
                None,
            )
        }
    }

    /// The detector after a frame, and what it reports.
    pub open spec fn after(self, is_speech: bool, frame: Seq<u8>) -> (VadView, Option<VadEvent>) {
        if is_speech {
            self.after_speech(frame)
        } else {
            self.after_silence(frame)
        }
    }

    /// The detector of a session that starts at `now`.
    pub open spec fn fresh(config: VadConfig, now: u64) -> VadView {
        VadView {
            config,
            is_speaking: false,
            speech_frame_count: 0,
            silence_frame_count: 0,
            lookback: Seq::empty(),
            speech_audio: Seq::empty(),
            last_reset: now,
            context: silence(config.context_size as nat),
        }
    }
}

/// Silence of `n` samples.
fn silent_samples(n: usize) -> (s: Vec<i16>)
    ensures
        s@ == silence(n as nat),
{
    let mut s: Vec<i16> = Vec::new();
    s.resize(n, 0);
    assert(s@ =~= silence(n as nat));
    s
}

/// How many inputs of the model hold its state: all but the audio and the sample rate.
pub fn state_count(inputs: usize) -> (n: usize)
    ensures
        n == if inputs >= 2 {
            inputs - 2
        } else {
            0
        },
{
    inputs.saturating_sub(2)
}

impl SileroVad {
    /// The counters are short of what they count up to, and the lookback is within its bound.
    pub open spec fn wf(&self) -> bool {
        self@.wf()
    }

    /// A detector that has heard nothing.
    pub fn new(config: VadConfig, now: u64) -> (v: Self)
        ensures
            v.wf(),
            v@ == VadView::fresh(config, now),
    {
        let v = SileroVad {
            config,
            is_speaking: false,
            speech_frame_count: 0,
            silence_frame_count: 0,
            lookback_buffer: Vec::new(),
            speech_audio: Vec::new(),
            last_reset: now,
            context: silent_samples(config.context_size),
        };
        assert(v@ =~= VadView::fresh(config, now));
        v
    }

    /// The probability from which a frame holds speech.
    pub fn threshold(&self) -> (p: Float32)
        ensures
            p == self@.config.threshold,
    {
        self.config.threshold
    }

    /// Sets the probability from which a frame holds speech, from the next frame on.
    pub fn set_threshold(&mut self, threshold: Float32)
        requires
            old(self).wf(),
        ensures
            final(self).wf(),
            final(self)@ == (VadView {
                config: VadConfig { threshold, ..old(self)@.config },
                ..old(self)@
            }),
    {
        self.config.threshold = threshold;
    }

    /// Whether the model state is due for a reset, which keeps it from drifting: it is five seconds
    /// old and no speech is going on.
    pub fn needs_model_reset(&self, now: u64) -> (r: bool)
        ensures
            r == (crate::clock::span(self@.last_reset, now).ns >= MODEL_RESET_NS
                && !self@.is_speaking),
    {
        crate::clock::ms_between(self.last_reset, now).ns >= MODEL_RESET_NS && !self.is_speaking
    }

    /// Notes that the model state was reset at `now`, and silences the context.
    pub fn reset_states(&mut self, now: u64)
        requires
            old(self).wf(),
        ensures
            final(self).wf(),
            final(self)@ == (VadView {
                last_reset: now,
                context: silence(old(self)@.config.context_size as nat),
                ..old(self)@
            }),
    {
        self.context = silent_samples(self.config.context_size);
        self.last_reset = now;
    }

    /// What the model is shown of a frame: the context and then the start of the frame.
    pub fn model_input(&self, frame: &[u8]) -> (input: Vec<i16>)
        ensures
            input@ == self@.input(frame@),
    {
        let mut samples = crate::pcm::whole_samples(frame);
        if samples.len() > FRAME_SIZE {
            samples.truncate(FRAME_SIZE);
            assert(samples@ =~= crate::pcm::samples_of(frame@).take(FRAME_SIZE as int));
        }
        let mut input: Vec<i16> = Vec::new();
        input.extend_from_slice(self.context.as_slice());
        input.extend_from_slice(samples.as_slice());
        assert(input@ =~= self@.input(frame@));
        input
    }

    /// Notes what the model was shown, once it has run: the end of it is the next context.
    pub fn on_inferred(&mut self, input: &[i16])
        requires
            old(self).wf(),
            input@.len() >= old(self)@.config.context_size,
        ensures
            final(self).wf(),
            final(self)@ == old(self)@.after_inference(input@),
    {
        let len: usize = input.len();
        let kept = vstd::slice::slice_subrange(input, len - self.config.context_size, len);
        self.context = vstd::slice::slice_to_vec(kept);
        assert(self@ =~= old(self)@.after_inference(input@));
    }

    fn remember(&mut self, frame: &[u8])
        requires
            old(self).wf(),
        ensures
            final(self)@ == old(self)@.remembering(frame@),
            final(self).wf(),
    {
        let kept = vstd::slice::slice_to_vec(frame);
        self.lookback_buffer.push(kept);
        assert(frame_views(self.lookback_buffer@) =~= frame_views(old(self).lookback_buffer@).push(
            frame@,
        ));
        if self.lookback_buffer.len() > self.config.lookback_frames {
            let ghost all = self.lookback_buffer@;
            let _oldest = self.lookback_buffer.remove(0);
            assert(frame_views(self.lookback_buffer@) =~= frame_views(all).drop_first());
        }
        assert(self@ =~= old(self)@.remembering(frame@));
    }

    /// Advances the detector by a frame, given how probable the model finds speech in it and how
    /// loud it is.
    pub fn process_with_prob(&mut self, prob: Float32, volume: Float32, frame: &[u8]) -> (e: Option<
        VadEvent,
    >)
        requires
            old(self).wf(),
        ensures
            final(self).wf(),
            (final(self)@, e) == old(self)@.after(old(self)@.config.hears(prob, volume), frame@),
    {
        let is_speech = prob.at_least(self.config.threshold) && volume.at_least(
            self.config.min_volume,
        );
        self.process_frame(is_speech, frame)
    }

    /// Advances the detector by a frame, of which it is known whether it holds speech.
    pub fn process_frame(&mut self, is_speech: bool, frame: &[u8]) -> (e: Option<VadEvent>)
        requires
            old(self).wf(),
        ensures
            final(self).wf(),
            (final(self)@, e) == old(self)@.after(is_speech, frame@),
    {
        if is_speech {
            self.silence_frame_count = 0;
            if self.is_speaking {
                self.speech_audio.extend_from_slice(frame);
                assert(self.speech_audio@ =~= old(self).speech_audio@ + frame@);
                assert(self@ =~= old(self)@.after_speech(frame@).0);
                return None;
            }
            self.speech_frame_count = self.speech_frame_count + 1;
            if self.speech_frame_count >= self.config.min_speech_frames {
                self.is_speaking = true;
                self.speech_frame_count = 0;
                let mut audio: Vec<u8> = Vec::new();
                let ghost frames = frame_views(self.lookback_buffer@);
                for i in 0..self.lookback_buffer.len()
                    invariant
                        frames == frame_views(self.lookback_buffer@),
                        audio@ == frames_joined(frames.take(i as int)),
                {
                    audio.extend_from_slice(self.lookback_buffer[i].as_slice());
                    assert(frames.take(i as int + 1).drop_last() =~= frames.take(i as int));
                    assert(audio@ =~= frames_joined(frames.take(i as int + 1)));
                }
                assert(frames.take(frames.len() as int) =~= frames);
                audio.extend_from_slice(frame);
                assert(audio@ =~= frames_joined(frames) + frame@);
                self.speech_audio = audio;
                assert(self@ =~= old(self)@.after_speech(frame@).0);
                return Some(VadEvent::SpeechStart);
            }
        } else {
            self.speech_frame_count = 0;
            if self.is_speaking {
                self.silence_frame_count = self.silence_frame_count + 1;
                self.speech_audio.extend_from_slice(frame);
                assert(self.speech_audio@ =~= old(self).speech_audio@ + frame@);
                if self.silence_frame_count >= self.config.silence_frames {
                    self.is_speaking = false;
                    self.silence_frame_count = 0;
                    assert(self@ =~= old(self)@.after_silence(frame@).0);
                    return Some(VadEvent::SpeechEnd);
                }
                assert(self@ =~= old(self)@.after_silence(frame@).0);
                return None;
            }
        }
        self.remember(frame);
        None
    }

    /// The audio of the current or last stretch of speech.
    pub fn get_speech_audio(&self) -> (a: &[u8])
        ensures
            a@ == self@.speech_audio,
    {
        self.speech_audio.as_slice()
    }

    /// Takes the audio of the current or last stretch of speech.
    pub fn take_speech_audio(&mut self) -> (a: Vec<u8>)
        requires
            old(self).wf(),
        ensures
            final(self).wf(),
            a@ == old(self)@.speech_audio,
            final(self)@ == (VadView { speech_audio: Seq::empty(), ..old(self)@ }),
    {
        let mut a: Vec<u8> = Vec::new();
        std::mem::swap(&mut a, &mut self.speech_audio);
        assert(self@ =~= (VadView { speech_audio: Seq::empty(), ..old(self)@ }));
        a
    }

    /// Ends speech without a report.
    pub fn force_speech_end(&mut self)
        requires
            old(self).wf(),
        ensures
            final(self).wf(),
            final(self)@ == (VadView {
                is_speaking: false,
                silence_frame_count: 0,
                ..old(self)@
            }),
    {
        self.is_speaking = false;
        self.silence_frame_count = 0;
    }

    /// Forgets everything heard so far.
    pub fn reset(&mut self, now: u64)
        requires
            old(self).wf(),
        ensures
            final(self).wf(),
            final(self)@ == VadView::fresh(old(self)@.config, now),
    {
        self.reset_states(now);
        self.is_speaking = false;
        self.speech_frame_count = 0;
        self.silence_frame_count = 0;
        self.lookback_buffer = Vec::new();
        self.speech_audio = Vec::new();
        assert(self@ =~= VadView::fresh(old(self)@.config, now));
    }

    /// Whether a stretch of speech is going on.
    pub fn is_speaking(&self) -> (r: bool)
        ensures
            r == self@.is_speaking,
    {
        self.is_speaking
    }
}

/// A detector that has to be surer hears no more: whatever holds speech at a threshold also holds
/// it at any lower one.
pub proof fn law_surer_hears_less(c: VadConfig, lower: Float32, prob: Float32, volume: Float32)
    requires
        c.threshold.is_at_least(lower),
    ensures
        c.hears(prob, volume) ==> (VadConfig { threshold: lower, ..c }).hears(prob, volume),
{
}

/// Nothing is heard in a frame below the least volume, or without a volume, however sure the model
/// is.
pub proof fn law_quiet_frames_are_silent(c: VadConfig, prob: Float32, volume: Float32)
    requires
        volume.is_nan() || c.min_volume.is_above(volume),
    ensures
        !c.hears(prob, volume),
{
}

/// Between two frames nothing is lost to the model: what it saw of the last frame ends with the
/// context that it sees before the next one.
pub proof fn law_context_carries_over(v: VadView, frame: Seq<u8>, next: Seq<u8>)
    requires
        v.wf(),
    ensures
        v.after_inference(v.input(frame)).wf(),
        v.after_inference(v.input(frame)).input(next).take(v.config.context_size as int)
            == v.input(frame).skip(v.input(frame).len() - v.config.context_size),
{
    let w = v.after_inference(v.input(frame));
    assert(w.input(next).take(v.config.context_size as int) =~= w.context);
}

/// Reports alternate: a start is reported exactly when speech begins, an end exactly when it stops,
/// and nothing is reported otherwise.
pub proof fn law_reports_alternate(v: VadView, is_speech: bool, frame: Seq<u8>)
    ensures
        ({
            let (w, e) = v.after(is_speech, frame);
            &&& e == Some(VadEvent::SpeechStart) <==> !v.is_speaking && w.is_speaking
            &&& e == Some(VadEvent::SpeechEnd) <==> v.is_speaking && !w.is_speaking
        }),
{
}

/// A frame and whether it holds speech.
pub type Verdict = (bool, Seq<u8>);

/// The detector after the given frames.
pub open spec fn after_all(v: VadView, heard: Seq<Verdict>) -> VadView
    decreases heard.len(),
{
    if heard.len() == 0 {
        v
    } else {
        after_all(v, heard.drop_last()).after(heard.last().0, heard.last().1).0
    }
}

/// Whether frame `i` has the given verdict and came in or outside a stretch of speech, as `speaking`
/// tells.
pub open spec fn heard_at(
    v: VadView,
    heard: Seq<Verdict>,
    i: int,
    is_speech: bool,
    speaking: bool,
) -> bool {
    heard[i].0 == is_speech && after_all(v, heard.take(i)).is_speaking == speaking
}

/// Whether the last `n` frames have the given verdict and all came in, or all outside, a stretch of
/// speech, as `speaking` tells.
pub open spec fn heard_lately(
    v: VadView,
    heard: Seq<Verdict>,
    n: nat,
    is_speech: bool,
    speaking: bool,
) -> bool {
    &&& n <= heard.len()
    &&& forall|i: int|
        heard.len() - n <= i < heard.len() ==> #[trigger] heard_at(
            v,
            heard,
            i,
            is_speech,
            speaking,
        )
}

/// A number of frames, but one at least.
pub open spec fn one_or_more(frames: u32) -> nat {
    if frames == 0 {
        1
    } else {
        frames as nat
    }
}

/// One frame more: the last `n + 1` frames are as asked where the new one is, and the last `n` before
/// it were.
proof fn lemma_heard_lately_push(
    v: VadView,
    heard: Seq<Verdict>,
    x: Verdict,
    n: nat,
    is_speech: bool,
    speaking: bool,
)
    ensures
        heard_lately(v, heard.push(x), n + 1, is_speech, speaking) <==> x.0 == is_speech
            && after_all(v, heard).is_speaking == speaking && heard_lately(
            v,
            heard,
            n,
            is_speech,
            speaking,
        ),
{
    let all = heard.push(x);
    let last = heard.len() as int;
    assert(all.take(last) =~= heard);
    assert(heard_at(v, all, last, is_speech, speaking) == (x.0 == is_speech && after_all(
        v,
        heard,
    ).is_speaking == speaking));
    assert forall|i: int| 0 <= i < last implies #[trigger] heard_at(
        v,
        all,
        i,
        is_speech,
        speaking,
    ) == heard_at(v, heard, i, is_speech, speaking) by {
        assert(all.take(i) =~= heard.take(i));
    }
    if heard_lately(v, all, n + 1, is_speech, speaking) {
        assert forall|i: int| last - n <= i < last implies #[trigger] heard_at(
            v,
            heard,
            i,
            is_speech,
            speaking,
        ) by {
            assert(heard_at(v, all, i, is_speech, speaking));
        }
    }
}

/// The counters of a detector that started with none: outside a stretch of speech, how many speech
/// frames came in a row outside one; in a stretch of speech, how many silent ones in it.
proof fn lemma_counters(v: VadView, heard: Seq<Verdict>, n: nat)
    requires
        v.speech_frame_count == 0,
        v.silence_frame_count == 0,
    ensures
        after_all(v, heard).config == v.config,
        ({
            let w = after_all(v, heard);
            &&& w.speech_frame_count == 0 || w.speech_frame_count < v.config.min_speech_frames
            &&& w.silence_frame_count == 0 || w.silence_frame_count < v.config.silence_frames
            &&& !w.is_speaking ==> (heard_lately(v, heard, n, true, false) <==> n
                <= w.speech_frame_count)
            &&& w.is_speaking ==> (heard_lately(v, heard, n, false, true) <==> n
                <= w.silence_frame_count)
            &&& w.is_speaking ==> w.speech_frame_count == 0
        }),
    decreases heard.len(),
{
    if heard.len() > 0 {
        let before = heard.drop_last();
        assert(before.push(heard.last()) =~= heard);
        lemma_counters(v, before, n);
        if n > 0 {
            lemma_counters(v, before, (n - 1) as nat);
            lemma_heard_lately_push(v, before, heard.last(), (n - 1) as nat, true, false);
            lemma_heard_lately_push(v, before, heard.last(), (n - 1) as nat, false, true);
        }
    }
}

/// When reports come, over any run of frames since the detector was made or reset: a start with a
/// frame exactly where it and the frames before it, as many in a row as configured, hold speech and
/// none of them came in a stretch of speech; an end exactly where as many silent frames in a row as
/// configured came, all in a stretch of speech. So shorter bursts do not start speech, and shorter
/// pauses do not end it.
pub proof fn law_reports_follow_runs(v: VadView, heard: Seq<Verdict>, is_speech: bool, frame: Seq<u8>)
    requires
        v.speech_frame_count == 0,
        v.silence_frame_count == 0,
    ensures
        ({
            let e = after_all(v, heard).after(is_speech, frame).1;
            let all = heard.push((is_speech, frame));
            &&& e == Some(VadEvent::SpeechStart) <==> heard_lately(
                v,
                all,
                one_or_more(v.config.min_speech_frames),
                true,
                false,
            )
            &&& e == Some(VadEvent::SpeechEnd) <==> heard_lately(
                v,
                all,
                one_or_more(v.config.silence_frames),
                false,
                true,
            )
        }),
{
    let s = (one_or_more(v.config.min_speech_frames) - 1) as nat;
    let q = (one_or_more(v.config.silence_frames) - 1) as nat;
    lemma_counters(v, heard, s);
    lemma_counters(v, heard, q);
    lemma_heard_lately_push(v, heard, (is_speech, frame), s, true, false);
    lemma_heard_lately_push(v, heard, (is_speech, frame), q, false, true);
}

/// A frame with how probable the model finds speech in it and how loud it is.
pub struct Sound {
    pub prob: Float32,
    pub volume: Float32,
    pub frame: Seq<u8>,
}

/// The verdicts on sounds.
pub open spec fn verdicts(c: VadConfig, sounds: Seq<Sound>) -> Seq<Verdict> {
    sounds.map_values(|s: Sound| (c.hears(s.prob, s.volume), s.frame))
}

/// The same in terms of the model, for sounds that are loud enough: a start is reported exactly
/// after as many probabilities in a row as configured that reach the threshold, an end exactly after
/// as many that do not.
pub proof fn law_reports_follow_probabilities(v: VadView, sounds: Seq<Sound>)
    requires
        v.speech_frame_count == 0,
        v.silence_frame_count == 0,
        sounds.len() > 0,
        forall|i: int|
            0 <= i < sounds.len() ==> (#[trigger] sounds[i]).volume.is_at_least(
                v.config.min_volume,
            ),
    ensures
        ({
            let heard = verdicts(v.config, sounds);
            let n = sounds.len() as int;
            let s = one_or_more(v.config.min_speech_frames);
            let q = one_or_more(v.config.silence_frames);
            let e = after_all(v, heard.drop_last()).after(heard.last().0, heard.last().1).1;
            &&& e == Some(VadEvent::SpeechStart) <==> s <= n && forall|i: int|
                n - s <= i < n ==> (#[trigger] sounds[i]).prob.is_at_least(v.config.threshold)
                    && !after_all(v, heard.take(i)).is_speaking
            &&& e == Some(VadEvent::SpeechEnd) <==> q <= n && forall|i: int|
                n - q <= i < n ==> !(#[trigger] sounds[i]).prob.is_at_least(v.config.threshold)
                    && after_all(v, heard.take(i)).is_speaking
        }),
{
    let heard = verdicts(v.config, sounds);
    let n = sounds.len() as int;
    let s = one_or_more(v.config.min_speech_frames);
    let q = one_or_more(v.config.silence_frames);
    law_reports_follow_runs(v, heard.drop_last(), heard.last().0, heard.last().1);
    assert(heard.drop_last().push((heard.last().0, heard.last().1)) =~= heard);
    assert forall|i: int| 0 <= i < n implies (#[trigger] sounds[i]).prob.is_at_least(
        v.config.threshold,
    ) == heard[i].0 by {}
    if s <= n && forall|i: int|
        n - s <= i < n ==> (#[trigger] sounds[i]).prob.is_at_least(v.config.threshold)
            && !after_all(v, heard.take(i)).is_speaking {
        assert forall|i: int| n - s <= i < n implies #[trigger] heard_at(
            v,
            heard,
            i,
            true,
            false,
        ) by {
            assert(sounds[i].prob.is_at_least(v.config.threshold));
        }
    }
    if q <= n && forall|i: int|
        n - q <= i < n ==> !(#[trigger] sounds[i]).prob.is_at_least(v.config.threshold)
            && after_all(v, heard.take(i)).is_speaking {
        assert forall|i: int| n - q <= i < n implies #[trigger] heard_at(
            v,
            heard,
            i,
            false,
            true,
        ) by {
            assert(!sounds[i].prob.is_at_least(v.config.threshold));
        }
    }
    if heard_lately(v, heard, s, true, false) {
        assert forall|i: int| n - s <= i < n implies (#[trigger] sounds[i]).prob.is_at_least(
            v.config.threshold,
        ) && !after_all(v, heard.take(i)).is_speaking by {
            assert(heard_at(v, heard, i, true, false));
        }
    }
    if heard_lately(v, heard, q, false, true) {
        assert forall|i: int| n - q <= i < n implies !(#[trigger] sounds[i]).prob.is_at_least(
            v.config.threshold,
        ) && after_all(v, heard.take(i)).is_speaking by {
            assert(heard_at(v, heard, i, false, true));
        }
    }
}

/// No frame of a stretch of speech is lost: while it goes on, and with the frame that ends it, each
/// frame is appended to its audio, which starts with the lookback.
pub proof fn law_speech_audio_complete(v: VadView, is_speech: bool, frame: Seq<u8>)
    ensures
        v.is_speaking ==> v.after(is_speech, frame).0.speech_audio == v.speech_audio + frame,
        v.after(is_speech, frame).1 == Some(VadEvent::SpeechStart) ==> v.after(
            is_speech,
            frame,
        ).0.speech_audio == frames_joined(v.lookback) + frame,
{
}

/// Where frame `i` starts among frames that follow one another.
pub open spec fn frame_start(frames: Seq<Seq<u8>>, i: nat) -> nat
    decreases i,
{
    if i == 0 {
        0
    } else {
        frame_start(frames, (i - 1) as nat) + frames[i - 1].len()
    }
}

proof fn lemma_frame_start(frames: Seq<Seq<u8>>, i: nat)
    requires
        frames.len() > 0,
        i < frames.len(),
    ensures
        frame_start(frames, i) == frame_start(frames.drop_last(), i),
    decreases i,
{
    if i > 0 {
        lemma_frame_start(frames, (i - 1) as nat);
    }
}

proof fn lemma_joined_len(frames: Seq<Seq<u8>>)
    ensures
        frames_joined(frames).len() == frame_start(frames, frames.len()),
    decreases frames.len(),
{
    if frames.len() > 0 {
        lemma_joined_len(frames.drop_last());
        lemma_frame_start(frames, (frames.len() - 1) as nat);
    }
}

/// Joined frames keep their order: the bytes of each stand behind those of all frames before it,
/// and nothing else is there.
pub proof fn law_joined_frames_keep_order(frames: Seq<Seq<u8>>, i: int)
    requires
        0 <= i < frames.len(),
    ensures
        ({
            let at = frame_start(frames, i as nat) as int;
            let all = frames_joined(frames);
            &&& at + frames[i].len() <= all.len()
            &&& all.subrange(at, at + frames[i].len()) == frames[i]
            &&& i == frames.len() - 1 ==> all.len() == at + frames[i].len()
        }),
    decreases frames.len(),
{
    let before = frames.drop_last();
    let all = frames_joined(frames);
    let at = frame_start(frames, i as nat) as int;
    lemma_joined_len(before);
    lemma_frame_start(frames, i as nat);
    lemma_frame_start(frames, (frames.len() - 1) as nat);
    if i < frames.len() - 1 {
        law_joined_frames_keep_order(before, i);
        assert(all.subrange(at, at + frames[i].len()) =~= frames_joined(before).subrange(
            at,
            at + frames[i].len(),
        ));
    } else {
        assert(all.subrange(at, at + frames[i].len()) =~= frames[i]);
    }
}

/// The audio of a stretch of speech starts with the frames heard before it, in the order in which
/// they were heard, each behind all before it, and then holds the frame that started it.
pub proof fn law_speech_starts_with_the_lookback(v: VadView, frame: Seq<u8>, i: int)
    requires
        v.after(true, frame).1 == Some(VadEvent::SpeechStart),
        0 <= i < v.lookback.len(),
    ensures
        ({
            let audio = v.after(true, frame).0.speech_audio;
            let at = frame_start(v.lookback, i as nat) as int;
            let end = frame_start(v.lookback, v.lookback.len()) as int;
            &&& at + v.lookback[i].len() <= end
            &&& audio.subrange(at, at + v.lookback[i].len()) == v.lookback[i]
            &&& audio.len() == end + frame.len()
            &&& audio.subrange(end, end + frame.len()) == frame
        }),
{
    let audio = v.after(true, frame).0.speech_audio;
    let at = frame_start(v.lookback, i as nat) as int;
    let end = frame_start(v.lookback, v.lookback.len()) as int;
    let n = v.lookback[i].len() as int;
    law_joined_frames_keep_order(v.lookback, i);
    lemma_joined_len(v.lookback);
    assert(audio.subrange(at, at + n) =~= frames_joined(v.lookback).subrange(at, at + n));
    assert(audio.subrange(end, end + frame.len()) =~= frame);
}

/// Without frames heard before it, speech starts with the frame that started it.
pub proof fn law_speech_may_start_at_once(v: VadView, frame: Seq<u8>)
    requires
        v.after(true, frame).1 == Some(VadEvent::SpeechStart),
        v.lookback.len() == 0,
    ensures
        v.after(true, frame).0.speech_audio == frame,
{
    assert(v.after(true, frame).0.speech_audio =~= frame);
}

/// Before speech the newest frames are kept, as many as configured, the oldest first; in a stretch
/// of speech none is added.
pub proof fn law_lookback_holds_the_newest_frames(v: VadView, is_speech: bool, frame: Seq<u8>)
    requires
        v.wf(),
    ensures
        ({
            let (w, e) = v.after(is_speech, frame);
            let n = v.lookback.len();
            if v.is_speaking || e is Some {
                w.lookback == v.lookback
            } else if n < v.config.lookback_frames {
                &&& w.lookback.len() == n + 1
                &&& w.lookback[n as int] == frame
                &&& forall|i: int| 0 <= i < n ==> w.lookback[i] == v.lookback[i]
            } else {
                &&& w.lookback.len() == n
                &&& n > 0 ==> w.lookback[n - 1] == frame
                &&& forall|i: int| 0 <= i < n - 1 ==> w.lookback[i] == v.lookback[i + 1]
            }
        }),
{
}

/// While speech goes on, and with the frame that ends it, every frame is added at the end of its
/// audio; otherwise the audio of the last stretch stays as it is until the next one starts.
pub proof fn law_speech_audio_grows_at_the_end(v: VadView, is_speech: bool, frame: Seq<u8>)
    ensures
        ({
            let (w, e) = v.after(is_speech, frame);
            let n = v.speech_audio.len() as int;
            &&& v.is_speaking ==> w.speech_audio.len() == n + frame.len()
                && w.speech_audio.take(n) == v.speech_audio && w.speech_audio.skip(n) == frame
            &&& !v.is_speaking && e is None ==> w.speech_audio == v.speech_audio
            &&& w.config == v.config && w.context == v.context && w.last_reset == v.last_reset
        }),
{
    let w = v.after(is_speech, frame).0;
    let n = v.speech_audio.len() as int;
    if v.is_speaking {
        assert(w.speech_audio.take(n) =~= v.speech_audio);
        assert(w.speech_audio.skip(n) =~= frame);
    }
}

/// The model is shown the end of what it saw before and then the frame, from its start and no more
/// of it than 512 samples.
pub proof fn law_model_sees_context_and_frame(v: VadView, frame: Seq<u8>, i: int)
    requires
        0 <= i < v.input(frame).len() - v.context.len(),
    ensures
        v.input(frame).take(v.context.len() as int) == v.context,
        i < 512,
        2 * i + 1 < frame.len(),
        ({
            let word = frame[2 * i] + 256 * frame[2 * i + 1];
            v.input(frame)[v.context.len() + i] == if word < 32768 {
                word
            } else {
                word - 65536
            }
        }),
        v.input(frame).len() == v.context.len() + 512 || v.input(frame).len() == v.context.len()
            + frame.len() / 2,
{
    assert(v.input(frame).take(v.context.len() as int) =~= v.context);
    crate::pcm::law_samples_are_little_endian(frame, i);
}

proof fn lemma_float(bits: u32, exponent: nat, mantissa: int)
    requires
        bits < 0x8000_0000,
        bits as int == (exponent + 1) * 0x80_0000 + (mantissa - 0x80_0000),
        0x80_0000 <= mantissa < 0x100_0000,
    ensures
        (Float32 { bits }).value() == mantissa * vstd::arithmetic::power2::pow2(exponent),
{
    let m = (Float32 { bits }).magnitude();
    assert(m / 0x80_0000 == exponent + 1 && m % 0x80_0000 == mantissa - 0x80_0000);
}

/// The thresholds are the single-precision numbers next to 0.70 while the bot is silent, 0.85 while
/// it speaks and the microphone is denoised, and 0.90 while the microphone is raw: the detector has
/// to be surer while the bot speaks. In units of 2 to the power of -24, the halves of a unit bound
/// how far they are from that.
pub proof fn law_thresholds_rise_while_the_bot_speaks(t: VadThreshold)
    ensures
        ({
            let u = vstd::arithmetic::power2::pow2(125) as int;
            let v = (Float32 { bits: t.bits() }).value();
            let hundredths: int = match t {
                VadThreshold::Idle => 70,
                VadThreshold::Playback => 85,
                VadThreshold::PlaybackRaw => 90,
            };
            &&& vstd::arithmetic::power2::pow2(149) == 0x100_0000 * u
            &&& -50 * u <= 100 * v - hundredths * 0x100_0000 * u <= 50 * u
        }),
{
    let u = vstd::arithmetic::power2::pow2(125) as int;
    vstd::arithmetic::power2::lemma_pow2_pos(125);
    vstd::arithmetic::power2::lemma_pow2_adds(24, 125);
    vstd::arithmetic::power2::lemma2_to64();
    lemma_float(VAD_THRESHOLD_IDLE, 125, 0xb3_3333);
    lemma_float(VAD_THRESHOLD_PLAYBACK, 125, 0xd9_999a);
    lemma_float(VAD_THRESHOLD_PLAYBACK_RAW, 125, 0xe6_6666);
    assert(100 * (0xb3_3333 * u) - 70 * 0x100_0000 * u == -20 * u) by (nonlinear_arith);
    assert(100 * (0xd9_999a * u) - 85 * 0x100_0000 * u == 40 * u) by (nonlinear_arith);
    assert(100 * (0xe6_6666 * u) - 90 * 0x100_0000 * u == -40 * u) by (nonlinear_arith);
}

/// The least volume is the single-precision number next to 0.0035.
pub proof fn law_least_volume()
    ensures
        ({
            let u = vstd::arithmetic::power2::pow2(117) as int;
            let v = (Float32 { bits: MIN_VOLUME }).value();
            &&& vstd::arithmetic::power2::pow2(149) == 0x1_0000_0000 * u
            &&& -5_000 * u <= 10_000 * v - 35 * 0x1_0000_0000 * u <= 5_000 * u
        }),
{
    let u = vstd::arithmetic::power2::pow2(117) as int;
    vstd::arithmetic::power2::lemma_pow2_pos(117);
    vstd::arithmetic::power2::lemma_pow2_adds(32, 117);
    vstd::arithmetic::power2::lemma2_to64();
    lemma_float(MIN_VOLUME, 117, 0xe5_6042);
    assert(10_000 * (0xe5_6042 * u) - 35 * 0x1_0000_0000 * u == 4_640 * u) by (nonlinear_arith);
}

/// A frame holds speech exactly where its probability is no smaller than the threshold and its volume
/// no smaller than the least one.
pub proof fn law_speech_is_sure_and_loud(c: VadConfig, prob: Float32, volume: Float32)
    requires
        prob.comparable(c.threshold),
        volume.comparable(c.min_volume),
    ensures
        c.hears(prob, volume) <==> prob.value() >= c.threshold.value() && volume.value()
            >= c.min_volume.value(),
{
    crate::float32::law_numbers_compare_by_value(prob, c.threshold);
    crate::float32::law_numbers_compare_by_value(volume, c.min_volume);
}

/// A new detector has heard nothing: no speech goes on, nothing counts toward any, and the model is
/// shown silence before the first frame.
pub proof fn law_new_detector_has_heard_nothing(config: VadConfig, now: u64, frame: Seq<u8>, i: int)
    ensures
        ({
            let v = VadView::fresh(config, now);
            &&& !v.is_speaking
            &&& v.speech_frame_count == 0
            &&& v.silence_frame_count == 0
            &&& v.lookback.len() == 0
            &&& v.speech_audio.len() == 0
            &&& v.last_reset == now
            &&& v.context.len() == config.context_size
            &&& 0 <= i < config.context_size ==> v.input(frame)[i] == 0
        }),
{
}

} // verus!
