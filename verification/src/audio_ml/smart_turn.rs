//! What the end-of-turn model is shown: the last eight seconds as frames of a spectrogram.
use crate::float32::Float32;
use crate::pcm::whole_samples;
use vstd::prelude::*;

verus! {

/// Sample rate of the model.
pub const MEL_SR: usize = 16_000;

/// Samples of a frame.
pub const N_FFT: usize = 400;

/// Samples by which frames move on.
pub const HOP: usize = 160;

/// Bands of a spectrogram.
pub const N_MELS: usize = 80;

/// Seconds of audio that the model is shown.
pub const CHUNK_SECS: usize = 8;

/// Samples of audio that the model is shown.
pub const WINDOW: usize = CHUNK_SECS * MEL_SR;

/// Frames of a spectrogram.
pub const N_FRAMES: usize = WINDOW / HOP;

/// Samples that are reflected at each end.
pub const HALF: usize = N_FFT / 2;

/// The last [`WINDOW`] samples, with silence before them where there are fewer.
pub open spec fn window_of(samples: Seq<i16>) -> Seq<i16> {
    if samples.len() > WINDOW {
        samples.skip(samples.len() - WINDOW)
    } else {
        crate::audio_ml::vad::silence((WINDOW - samples.len()) as nat) + samples
    }
}

/// The last [`WINDOW`] samples of PCM16 audio, with silence before them where there are fewer.
pub fn fit_window(audio: &[u8]) -> (w: Vec<i16>)
    ensures
        w@ == window_of(crate::pcm::samples_of(audio@)),
        w@.len() == WINDOW,
{
    let samples = whole_samples(audio);
    let len: usize = samples.len();
    if len > WINDOW {
        let tail = vstd::slice::slice_subrange(samples.as_slice(), len - WINDOW, len);
        let w = vstd::slice::slice_to_vec(tail);
        assert(w@ =~= window_of(samples@));
        w
    } else {
        let mut w: Vec<i16> = Vec::new();
        w.resize(WINDOW - len, 0);
        w.extend_from_slice(samples.as_slice());
        assert(w@ =~= window_of(samples@));
        w
    }
}

/// The sample that stands at place `i` once the ends are reflected.
pub open spec fn reflected(len: int, i: int) -> int {
    if i < HALF {
        if HALF - i < len {
            HALF - i
        } else {
            len - 1
        }
    } else if i < HALF + len {
        i - HALF
    } else if i - HALF <= 2 * len - 2 {
        2 * len - 2 - (i - HALF)
    } else {
        0
    }
}

/// `audio` with its ends reflected.
pub open spec fn padded<T>(audio: Seq<T>) -> Seq<T> {
    Seq::new(audio.len() + 2 * HALF as nat, |i: int| audio[reflected(audio.len() as int, i)])
}

/// Reflects the ends of `audio`, so that its first and last samples stand in the middle of a frame.
pub fn reflect_pad<T: Copy>(audio: &[T]) -> (p: Vec<T>)
    requires
        0 < audio@.len() <= usize::MAX - 2 * HALF,
    ensures
        p@ == padded(audio@),
{
    let len: usize = audio.len();
    let mut p: Vec<T> = Vec::new();
    for i in 0..HALF
        invariant
            0 < len == audio@.len(),
            p@ == padded(audio@).take(i as int),
    {
        let k: usize = HALF - i;
        p.push(
            audio[if k < len {
                k
            } else {
                len - 1
            }],
        );
        assert(p@ =~= padded(audio@).take(i as int + 1));
    }
    for i in 0..len
        invariant
            0 < len == audio@.len(),
            p@ == padded(audio@).take(HALF + i),
    {
        p.push(audio[i]);
        assert(p@ =~= padded(audio@).take(HALF + i + 1));
    }
    for i in 0..HALF
        invariant
            0 < len == audio@.len(),
            p@ == padded(audio@).take(HALF + len + i),
    {
        p.push(audio[len.saturating_sub(2 + i)]);
        assert(p@ =~= padded(audio@).take(HALF + len + i + 1));
    }
    assert(p@ =~= padded(audio@));
    p
}

/// How many frames are taken of so much padded audio: as many as fit but the last, up to
/// [`N_FRAMES`].
pub open spec fn frames_of(len: int) -> int {
    let fit = if len >= N_FFT {
        (len - N_FFT) / HOP as int + 1
    } else {
        0
    };
    if fit > N_FRAMES {
        N_FRAMES as int
    } else if fit > 0 {
        fit - 1
    } else {
        0
    }
}

/// How many frames are taken of so much padded audio.
pub fn frame_count(padded_len: usize) -> (n: usize)
    ensures
        n == frames_of(padded_len as int),
{
    let fit: usize = if padded_len >= N_FFT {
        (padded_len - N_FFT) / HOP + 1
    } else {
        0
    };
    let kept: usize = fit.saturating_sub(1);
    if kept < N_FRAMES {
        kept
    } else {
        N_FRAMES
    }
}

/// Where frame `t` starts in padded audio.
pub fn frame_start(t: usize) -> (at: usize)
    requires
        t < N_FRAMES,
    ensures
        at == t * HOP,
{
    t * HOP
}

/// Where band `m` of frame `t` stands in the spectrogram.
pub fn mel_index(m: usize, t: usize) -> (i: usize)
    requires
        m < N_MELS,
        t < N_FRAMES,
    ensures
        i == m * N_FRAMES + t,
        i < N_MELS * N_FRAMES,
{
    assert(m * N_FRAMES + N_FRAMES <= N_MELS * N_FRAMES) by (nonlinear_arith)
        requires
            m < N_MELS,
    ;
    m * N_FRAMES + t
}

/// Tells from what the model says whether the speaker is done.
#[derive(Clone, Copy, Debug, PartialEq, Eq, Structural)]
pub struct SmartTurnAnalyzer {
    /// Probability above which the speaker is done.
    pub threshold: Float32,
}

impl SmartTurnAnalyzer {
    pub fn new(threshold: Float32) -> (a: Self)
        ensures
            a.threshold == threshold,
    {
        SmartTurnAnalyzer { threshold }
    }

    /// Whether the speaker is done, given how probable the model finds it.
    pub fn is_complete(&self, prob: Float32) -> (r: bool)
        ensures
            r == prob.is_above(self.threshold),
    {
        prob.above(self.threshold)
    }
}

/// A window gives a full spectrogram.
pub proof fn law_window_fills_spectrogram(samples: Seq<i16>)
    ensures
        window_of(samples).len() == WINDOW,
        frames_of(padded(window_of(samples)).len() as int) == N_FRAMES,
{
}

/// Every frame that is taken lies within the padded audio.
pub proof fn law_frames_lie_within(len: int, t: int)
    requires
        0 <= t < frames_of(len),
    ensures
        t * HOP + N_FFT <= len,
{
}

/// What is said last is what the model is shown last.
pub proof fn law_window_ends_with_audio(samples: Seq<i16>, i: int)
    requires
        0 <= i < samples.len(),
        i < WINDOW,
    ensures
        window_of(samples)[WINDOW - 1 - i] == samples[samples.len() - 1 - i],
{
}

/// Where there is less audio than a window, silence comes first.
pub proof fn law_short_audio_follows_silence(samples: Seq<i16>, i: int)
    requires
        0 <= i < WINDOW - samples.len(),
    ensures
        window_of(samples)[i] == 0,
{
}

/// Padding keeps the audio in the middle and mirrors it at both ends, without the sample at the end
/// itself.
pub proof fn law_padding_mirrors_the_ends<T>(audio: Seq<T>, i: int, k: int)
    requires
        audio.len() > HALF,
        0 <= i < audio.len(),
        1 <= k <= HALF,
    ensures
        padded(audio).len() == audio.len() + 2 * HALF,
        padded(audio)[HALF + i] == audio[i],
        padded(audio)[HALF - k] == audio[k],
        padded(audio)[HALF + audio.len() - 1 + k] == audio[audio.len() - 1 - k],
{
}

/// Where the audio is too short to be mirrored, its last sample is repeated before it and its first
/// one after it.
pub proof fn law_short_audio_is_repeated<T>(audio: Seq<T>, k: int)
    requires
        0 < audio.len() <= k,
        k <= HALF,
    ensures
        padded(audio)[HALF - k] == audio.last(),
        padded(audio)[HALF + audio.len() - 1 + k] == audio[0],
{
}

/// All frames that fit but the last are taken, up to the number of a spectrogram.
pub proof fn law_all_frames_but_the_last(len: int)
    ensures
        len < N_FFT ==> frames_of(len) == 0,
        len >= N_FFT && frames_of(len) < N_FRAMES ==> frames_of(len) * HOP + N_FFT <= len
            && len < (frames_of(len) + 1) * HOP + N_FFT,
        0 <= frames_of(len) <= N_FRAMES,
{
}

} // verus!
