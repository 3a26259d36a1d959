//! Pacing and plans of DeepFilterNet3, which works at 48 kHz on spectra of overlapping windows.
use crate::audio_ml::denoiser::pacing::{Pacer, PacerAction};
use crate::float32::Float32;
use vstd::prelude::*;

verus! {

/// Samples by which the window moves on.
pub const HOP_SIZE: usize = 480;

/// Bins of a spectrum.
pub const N_FREQS: usize = 481;

/// Bands in which loudness is perceived.
pub const NB_ERB: usize = 32;

/// Bins that are filtered deeply.
pub const NB_DF: usize = 96;

/// Fewest bins of a band.
pub const MIN_NB_ERB_FREQS: usize = 2;

/// Spectra that a deep filter combines.
pub const DF_ORDER: usize = 5;

/// Spectra that the model looks ahead.
pub const CONV_LOOKAHEAD: usize = 2;

/// Spectra that are remembered.
pub const HISTORY: usize = 7;

/// Quiet hops after which the model is skipped.
pub const QUIET_HOPS: u32 = 5;

/// Bits of 1e-7, the power below which a hop is quiet.
pub const QUIET_POWER: u32 = 0x33d6_bf95;

/// Whether a hop of this power is quiet.
pub open spec fn is_quiet(power: Float32) -> bool {
    (Float32 { bits: QUIET_POWER }).is_above(power)
}

/// Sum of band widths.
pub open spec fn total(widths: Seq<usize>) -> nat
    decreases widths.len(),
{
    if widths.len() == 0 {
        0
    } else {
        total(widths.drop_last()) + widths.last() as nat
    }
}

/// Widths of bands up to the upper edges `edges`, and the bins by which the bands run ahead of the
/// last edge.
///
/// A band that would be narrower than [`MIN_NB_ERB_FREQS`] is widened, and the next one pays for it.
pub open spec fn raw_widths(edges: Seq<usize>) -> (Seq<int>, int)
    decreases edges.len(),
{
    if edges.len() == 0 {
        (Seq::empty(), 0)
    } else {
        let before = raw_widths(edges.drop_last());
        let start = if edges.len() == 1 {
            0
        } else {
            edges[edges.len() - 2] as int
        };
        let width = edges.last() - start - before.1;
        if width < MIN_NB_ERB_FREQS {
            (before.0.push(MIN_NB_ERB_FREQS as int), MIN_NB_ERB_FREQS - width)
        } else {
            (before.0.push(width), 0)
        }
    }
}

/// Sum of raw widths.
pub open spec fn raw_total(widths: Seq<int>) -> int
    decreases widths.len(),
{
    if widths.len() == 0 {
        0
    } else {
        raw_total(widths.drop_last()) + widths.last()
    }
}

/// The bands end where the last edge is, but for what they run ahead.
pub proof fn lemma_raw_total(edges: Seq<usize>)
    requires
        edges.len() > 0,
    ensures
        raw_total(raw_widths(edges).0) == edges.last() + raw_widths(edges).1,
        raw_widths(edges).0.len() == edges.len(),
        raw_widths(edges).1 >= 0,
        raw_widths(edges).0.last() >= MIN_NB_ERB_FREQS,
    decreases edges.len(),
{
    let before = raw_widths(edges.drop_last());
    let all = raw_widths(edges).0;
    assert(all.drop_last() =~= before.0);
    if edges.len() > 1 {
        lemma_raw_total(edges.drop_last());
    } else {
        reveal_with_fuel(raw_widths, 2);
        assert(raw_total(before.0) == 0);
    }
}

/// Each width is at least the smallest and, like the run-ahead, within what the edges allow.
pub proof fn lemma_raw_bounds(edges: Seq<usize>)
    requires
        forall|i: int| 0 <= i < edges.len() ==> #[trigger] edges[i] <= N_FREQS,
    ensures
        raw_widths(edges).0.len() == edges.len(),
        forall|i: int|
            0 <= i < edges.len() ==> MIN_NB_ERB_FREQS <= #[trigger] raw_widths(edges).0[i]
                <= N_FREQS,
        0 <= raw_widths(edges).1 <= edges.len() * (N_FREQS + MIN_NB_ERB_FREQS),
    decreases edges.len(),
{
    if edges.len() > 0 {
        lemma_raw_bounds(edges.drop_last());
        let before = raw_widths(edges.drop_last());
        let n = edges.len() as int;
        assert((n - 1) * (N_FREQS + MIN_NB_ERB_FREQS) + (N_FREQS + MIN_NB_ERB_FREQS) == n * (N_FREQS
            + MIN_NB_ERB_FREQS)) by (nonlinear_arith);
        assert forall|i: int| 0 <= i < edges.len() implies MIN_NB_ERB_FREQS
            <= #[trigger] raw_widths(edges).0[i] <= N_FREQS by {
            if i < edges.len() - 1 {
                assert(raw_widths(edges).0[i] == before.0[i]);
            }
        }
    }
}

/// The last band with the bin at half the sample rate added, and cut to the number of bins.
pub open spec fn last_width(edges: Seq<usize>) -> int {
    let (raw, _) = raw_widths(edges);
    let all = raw_total(raw) + 1;
    raw.last() + 1 - if all > N_FREQS {
        all - N_FREQS
    } else {
        0
    }
}

/// `widths` are those of the bands whose upper edges are `edges`.
pub open spec fn are_widths(widths: Seq<usize>, edges: Seq<usize>) -> bool {
    &&& widths.len() == NB_ERB
    &&& forall|i: int| 0 <= i < NB_ERB - 1 ==> #[trigger] widths[i] == raw_widths(edges).0[i]
    &&& widths[NB_ERB - 1] == last_width(edges)
}

/// The widths of the bands whose upper edges are `edges`, in bins.
///
/// The edges are the bins next to where the bands end in hertz. There are none where the last band
/// is not wide enough to give up what the bands before it took too much.
pub fn erb_widths(edges: &[usize]) -> (w: Option<Vec<usize>>)
    requires
        edges@.len() == NB_ERB,
        forall|i: int| 0 <= i < edges@.len() ==> #[trigger] edges@[i] <= N_FREQS,
    ensures
        w is Some <==> last_width(edges@) >= 0,
        w matches Some(widths) ==> are_widths(widths@, edges@),
{
    let mut widths: Vec<usize> = Vec::new();
    let mut start: usize = 0;
    let mut ahead: usize = 0;
    let mut sum: usize = 0;
    for i in 0..NB_ERB
        invariant
            edges@.len() == NB_ERB,
            forall|k: int| 0 <= k < edges@.len() ==> #[trigger] edges@[k] <= N_FREQS,
            widths@.len() == i,
            forall|k: int|
                0 <= k < i ==> #[trigger] widths@[k] == raw_widths(edges@.take(i as int)).0[k],
            ahead == raw_widths(edges@.take(i as int)).1,
            start == if i == 0 {
                0
            } else {
                edges@[i - 1]
            },
            sum == raw_total(raw_widths(edges@.take(i as int)).0),
            sum <= i * N_FREQS,
    {
        let ghost now = edges@.take(i as int + 1);
        proof {
            lemma_raw_bounds(edges@.take(i as int));
            lemma_raw_bounds(now);
            assert(now.drop_last() =~= edges@.take(i as int));
            assert(now.last() == edges@[i as int]);
            assert(raw_widths(now).0.drop_last() =~= raw_widths(edges@.take(i as int)).0);
        }
        let edge: usize = edges[i];
        let taken: usize = start + ahead + MIN_NB_ERB_FREQS;
        let width: usize = if edge < taken {
            ahead = taken - edge;
            MIN_NB_ERB_FREQS
        } else {
            let w: usize = edge - start - ahead;
            ahead = 0;
            w
        };
        assert(width == raw_widths(now).0[i as int]);
        widths.push(width);
        sum = sum + width;
        start = edge;
    }
    assert(edges@.take(NB_ERB as int) =~= edges@);
    proof {
        lemma_raw_total(edges@);
        lemma_raw_bounds(edges@);
    }
    let last: usize = widths[NB_ERB - 1] + 1;
    let all: usize = sum + 1;
    let excess: usize = if all > N_FREQS {
        all - N_FREQS
    } else {
        0
    };
    if excess > last {
        return None;
    }
    widths.set(NB_ERB - 1, last - excess);
    Some(widths)
}

/// Sums of equal widths are equal.
proof fn lemma_totals_agree(widths: Seq<usize>, raw: Seq<int>)
    requires
        widths.len() == raw.len(),
        forall|i: int| 0 <= i < raw.len() ==> #[trigger] widths[i] == raw[i],
    ensures
        total(widths) == raw_total(raw),
    decreases widths.len(),
{
    if widths.len() > 0 {
        assert forall|i: int| 0 <= i < raw.len() - 1 implies #[trigger] widths.drop_last()[i]
            == raw.drop_last()[i] by {
            assert(widths[i] == raw[i]);
        }
        lemma_totals_agree(widths.drop_last(), raw.drop_last());
    }
}

/// Together the bands cover the spectrum: where the last edge is half the sample rate, their widths
/// add up to the number of bins.
pub proof fn law_bands_cover_the_spectrum(edges: Seq<usize>, widths: Seq<usize>)
    requires
        edges.len() == NB_ERB,
        edges.last() == N_FREQS - 1,
        are_widths(widths, edges),
    ensures
        total(widths) == N_FREQS,
{
    lemma_raw_total(edges);
    let raw = raw_widths(edges).0;
    assert forall|i: int| 0 <= i < NB_ERB - 1 implies #[trigger] widths.drop_last()[i]
        == raw.drop_last()[i] by {
        assert(widths[i] == raw[i]);
    }
    lemma_totals_agree(widths.drop_last(), raw.drop_last());
}

/// The bins of band `i`, of a spectrum of `bins` bins: from its start up to its end.
pub open spec fn band_range(widths: Seq<usize>, bins: int, i: int) -> (int, int) {
    let start = total(widths.take(i)) as int;
    let end = total(widths.take(i + 1)) as int;
    (
        if start < bins {
            start
        } else {
            bins
        },
        if end < bins {
            end
        } else {
            bins
        },
    )
}

/// The bins of each band, of a spectrum of `bins` bins; bins past its end are left out.
pub fn band_ranges(widths: &[usize], bins: usize) -> (ranges: Vec<(usize, usize)>)
    requires
        total(widths@) <= usize::MAX,
    ensures
        ranges@.len() == widths@.len(),
        forall|i: int|
            0 <= i < widths@.len() ==> (#[trigger] ranges@[i]).0 == band_range(
                widths@,
                bins as int,
                i,
            ).0 && ranges@[i].1 == band_range(widths@, bins as int, i).1,
{
    let mut ranges: Vec<(usize, usize)> = Vec::new();
    let mut start: usize = 0;
    for i in 0..widths.len()
        invariant
            total(widths@) <= usize::MAX,
            start == total(widths@.take(i as int)),
            ranges@.len() == i,
            forall|k: int|
                0 <= k < i ==> (#[trigger] ranges@[k]).0 == band_range(widths@, bins as int, k).0
                    && ranges@[k].1 == band_range(widths@, bins as int, k).1,
    {
        proof {
            assert(widths@.take(i as int + 1).drop_last() =~= widths@.take(i as int));
            lemma_total_grows(widths@, i as int + 1);
        }
        let end: usize = start + widths[i];
        let from: usize = if start < bins {
            start
        } else {
            bins
        };
        let to: usize = if end < bins {
            end
        } else {
            bins
        };
        ranges.push((from, to));
        start = end;
    }
    ranges
}

/// A part of the widths adds up to no more than all of them.
pub proof fn lemma_total_grows(widths: Seq<usize>, n: int)
    requires
        0 <= n <= widths.len(),
    ensures
        total(widths.take(n)) <= total(widths),
    decreases widths.len() - n,
{
    if n < widths.len() {
        assert(widths.take(n + 1).drop_last() =~= widths.take(n));
        lemma_total_grows(widths, n + 1);
    } else {
        assert(widths.take(n) =~= widths);
    }
}

/// Bands follow each other without a gap: each starts where the one before it ends.
pub proof fn law_bands_are_adjacent(widths: Seq<usize>, bins: int, i: int)
    requires
        0 <= bins,
        0 <= i < widths.len() - 1,
    ensures
        band_range(widths, bins, 0).0 == 0,
        band_range(widths, bins, i).1 == band_range(widths, bins, i + 1).0,
{
    assert(widths.take(0) =~= Seq::empty());
}

/// What is done to a spectrum.
#[derive(Clone, Copy, Debug, PartialEq, Eq, Structural)]
pub struct Stages {
    /// Scale the bands.
    pub erb: bool,
    /// Silence everything.
    pub zeros: bool,
    /// Filter the low bins deeply.
    pub df: bool,
}

/// Bits of -15.0, the ratio of signal to noise in decibels below which there is only noise.
pub const MIN_DB_THRESH: u32 = 0xc170_0000;

/// Bits of 35.0, the ratio above which the bands are not scaled.
pub const MAX_DB_ERB_THRESH: u32 = 0x420c_0000;

/// Bits of 35.0, the ratio above which the low bins are not filtered.
pub const MAX_DB_DF_THRESH: u32 = 0x420c_0000;

/// What is done to a spectrum with this ratio of signal to noise, in decibels.
pub open spec fn stages_of(lsnr: Float32) -> Stages {
    if (Float32 { bits: MIN_DB_THRESH }).is_above(lsnr) {
        Stages { erb: false, zeros: true, df: false }
    } else if lsnr.is_above(Float32 { bits: MAX_DB_ERB_THRESH }) {
        Stages { erb: false, zeros: false, df: false }
    } else {
        Stages { erb: true, zeros: false, df: !lsnr.is_above(Float32 { bits: MAX_DB_DF_THRESH }) }
    }
}

/// Decides what is done to a spectrum with this ratio of signal to noise: noise is silenced, a clean
/// signal is left alone, and anything between is scaled and filtered.
pub fn apply_stages(lsnr: Float32) -> (s: Stages)
    ensures
        s == stages_of(lsnr),
{
    if (Float32 { bits: MIN_DB_THRESH }).above(lsnr) {
        Stages { erb: false, zeros: true, df: false }
    } else if lsnr.above(Float32 { bits: MAX_DB_ERB_THRESH }) {
        Stages { erb: false, zeros: false, df: false }
    } else if lsnr.above(Float32 { bits: MAX_DB_DF_THRESH }) {
        Stages { erb: true, zeros: false, df: false }
    } else {
        Stages { erb: true, zeros: false, df: true }
    }
}

/// What is silenced is neither scaled nor filtered, and only what is scaled is filtered.
pub proof fn law_stages_agree(lsnr: Float32)
    ensures
        stages_of(lsnr).zeros ==> !stages_of(lsnr).erb && !stages_of(lsnr).df,
        stages_of(lsnr).df ==> stages_of(lsnr).erb,
{
}

/// The last spectra, oldest first. Their number stays the same.
#[derive(Debug)]
pub struct SpectrumHistory<T> {
    pub spectra: Vec<T>,
}

impl<T> SpectrumHistory<T> {
    /// There are as many spectra as are remembered.
    pub open spec fn wf(&self) -> bool {
        self.spectra@.len() == HISTORY
    }

    /// Adds a spectrum; the oldest one leaves.
    pub fn push(&mut self, spectrum: T)
        requires
            old(self).wf(),
        ensures
            final(self).wf(),
            final(self).spectra@ == old(self).spectra@.drop_first().push(spectrum),
    {
        let _oldest = self.spectra.remove(0);
        self.spectra.push(spectrum);
        assert(self.spectra@ =~= old(self).spectra@.drop_first().push(spectrum));
    }

    /// The spectrum that the model speaks of: it looks ahead, so that one is not the newest.
    pub fn delayed(&self) -> (s: &T)
        requires
            self.wf(),
        ensures
            *s == self.spectra@[HISTORY - 1 - CONV_LOOKAHEAD],
    {
        &self.spectra[DF_ORDER - 1]
    }

    /// The spectrum that tap `tap` of a deep filter is applied to.
    pub fn tap(&self, tap: usize) -> (s: &T)
        requires
            self.wf(),
            tap < DF_ORDER,
        ensures
            *s == self.spectra@[HISTORY - DF_ORDER + tap],
    {
        &self.spectra[HISTORY - DF_ORDER + tap]
    }
}

/// The delayed spectrum is the one that came [`CONV_LOOKAHEAD`] spectra before the newest.
pub proof fn law_delay<T>(before: Seq<T>, a: T, b: T, c: T)
    requires
        before.len() == HISTORY,
    ensures
        before.drop_first().push(a).drop_first().push(b).drop_first().push(c)[HISTORY - 1
            - CONV_LOOKAHEAD] == a,
{
}

/// Where the real part of the coefficient for bin `bin` and tap `tap` stands; the imaginary part
/// follows it.
pub fn coef_index(bin: usize, tap: usize) -> (i: usize)
    requires
        bin < NB_DF,
        tap < DF_ORDER,
    ensures
        i == bin * (2 * DF_ORDER) + 2 * tap,
        i + 1 < NB_DF * DF_ORDER * 2,
{
    bin * 10 + tap * 2
}

/// The quiet hops since the last loud one, after a hop of this power.
pub open spec fn counted(before: int, power: Float32) -> int {
    if !is_quiet(power) {
        0
    } else if before >= u32::MAX {
        u32::MAX as int
    } else {
        before + 1
    }
}

/// Whether the model is skipped for a hop of this power.
pub open spec fn skips(before: int, power: Float32) -> bool {
    is_quiet(power) && before >= QUIET_HOPS
}

/// The quiet hops since the last loud one, after hops of these powers.
pub open spec fn counted_all(powers: Seq<Float32>) -> int
    decreases powers.len(),
{
    if powers.len() == 0 {
        0
    } else {
        counted(counted_all(powers.drop_last()), powers.last())
    }
}

/// Pacing of DeepFilterNet3.
#[derive(Debug)]
pub struct DeepFilterNetDenoiser {
    pub pacer: Pacer,
    /// Quiet hops since the last loud one.
    pub skip_counter: u32,
}

/// What is made of a hop.
#[derive(Clone, Copy, Debug, PartialEq, Eq, Structural)]
pub enum HopPlan {
    /// Silence.
    Silence,
    /// The delayed spectrum as it is.
    Passthrough,
    /// The delayed spectrum after these stages.
    Filter(Stages),
}

/// What is made of a hop: silence where the model is skipped, else what the model says of it, if
/// anything.
pub fn hop_plan(skip: bool, stages: Option<Stages>) -> (p: HopPlan)
    ensures
        p == if skip {
            HopPlan::Silence
        } else {
            match stages {
                Some(s) => HopPlan::Filter(s),
                None => HopPlan::Passthrough,
            }
        },
{
    if skip {
        return HopPlan::Silence;
    }
    match stages {
        Some(s) => HopPlan::Filter(s),
        None => HopPlan::Passthrough,
    }
}

impl DeepFilterNetDenoiser {
    /// The pacer has blocks of [`HOP_SIZE`].
    pub open spec fn wf(&self) -> bool {
        self.pacer@.block == HOP_SIZE
    }

    /// A denoiser that has heard nothing.
    pub fn new() -> (d: Self)
        ensures
            d.wf(),
            d.pacer@ == crate::audio_ml::denoiser::pacing::PacerView::fresh(HOP_SIZE as nat),
            d.skip_counter == 0,
    {
        DeepFilterNetDenoiser { pacer: Pacer::new(HOP_SIZE), skip_counter: 0 }
    }

    /// Takes a frame of the pipeline. Without the model or a resampler it goes out as it is.
    pub fn denoise_frame(&mut self, pcm: &[u8], loaded: bool, can_resample: bool) -> (a:
        PacerAction)
        requires
            old(self).wf(),
        ensures
            final(self).wf(),
            (final(self).pacer@, a@) == old(self).pacer@.after_frame(pcm@, loaded && can_resample),
            final(self).skip_counter == old(self).skip_counter,
    {
        self.pacer.on_frame(pcm, loaded && can_resample)
    }

    /// Counts a hop of this power, and says whether the model is to be skipped for it: after
    /// [`QUIET_HOPS`] quiet hops nothing but silence comes out until a loud one.
    pub fn on_hop(&mut self, power: Float32) -> (skip: bool)
        requires
            old(self).wf(),
        ensures
            final(self).wf(),
            final(self).pacer == old(self).pacer,
            final(self).skip_counter == if !is_quiet(power) {
                0
            } else if old(self).skip_counter == u32::MAX {
                u32::MAX as int
            } else {
                old(self).skip_counter + 1
            },
            skip == (is_quiet(power) && old(self).skip_counter >= QUIET_HOPS),
            final(self).skip_counter == counted(old(self).skip_counter as int, power),
            skip == skips(old(self).skip_counter as int, power),
    {
        if (Float32 { bits: QUIET_POWER }).above(power) {
            self.skip_counter = self.skip_counter.saturating_add(1);
        } else {
            self.skip_counter = 0;
        }
        self.skip_counter > QUIET_HOPS
    }

    /// Drops all audio and forgets how long it was quiet.
    pub fn reset(&mut self)
        requires
            old(self).wf(),
        ensures
            final(self).wf(),
            final(self).pacer@ == (crate::audio_ml::denoiser::pacing::PacerView {
                due: old(self).pacer@.due,
                ..crate::audio_ml::denoiser::pacing::PacerView::fresh(HOP_SIZE as nat)
            }),
            final(self).skip_counter == 0,
    {
        self.pacer.reset();
        self.skip_counter = 0;
    }
}

proof fn lemma_counted_all(powers: Seq<Float32>)
    ensures
        ({
            let n = counted_all(powers);
            &&& 0 <= n <= powers.len()
            &&& forall|k: int|
                powers.len() - n <= k < powers.len() ==> is_quiet(#[trigger] powers[k])
            &&& n < powers.len() && n < u32::MAX ==> !is_quiet(powers[powers.len() - 1 - n])
            &&& n <= u32::MAX
        }),
    decreases powers.len(),
{
    if powers.len() > 0 {
        let rest = powers.drop_last();
        lemma_counted_all(rest);
        let n = counted_all(powers);
        assert forall|k: int| powers.len() - n <= k < powers.len() implies is_quiet(
            #[trigger] powers[k],
        ) by {
            if k < powers.len() - 1 {
                assert(rest[k] == powers[k]);
            }
        }
        if 0 < n < powers.len() && n < u32::MAX {
            assert(rest[rest.len() - 1 - (n - 1)] == powers[powers.len() - 1 - n]);
        }
    }
}

/// The model is skipped for a hop exactly where it and the five hops before it were quiet.
pub proof fn law_model_is_skipped_after_quiet_hops(powers: Seq<Float32>)
    requires
        powers.len() > 0,
    ensures
        skips(counted_all(powers.drop_last()), powers.last()) <==> powers.len() >= 6
            && forall|k: int|
            powers.len() - 6 <= k < powers.len() ==> is_quiet(#[trigger] powers[k]),
{
    let rest = powers.drop_last();
    let n = counted_all(rest);
    lemma_counted_all(rest);
    if skips(n, powers.last()) {
        assert forall|k: int| powers.len() - 6 <= k < powers.len() implies is_quiet(
            #[trigger] powers[k],
        ) by {
            if k < powers.len() - 1 {
                assert(rest[k] == powers[k]);
            }
        }
    } else if powers.len() >= 6 && is_quiet(powers.last()) {
        assert(rest[rest.len() - 1 - n] == powers[powers.len() - 2 - n]);
    }
}

proof fn lemma_quiet_power()
    ensures
        (Float32 { bits: QUIET_POWER }).value() == 14_073_749 * vstd::arithmetic::power2::pow2(102),
{
    let t = Float32 { bits: QUIET_POWER };
    let m = t.magnitude();
    assert(m / 0x80_0000 == 103 && m % 0x80_0000 == 0x56_bf95);
}

/// A hop is quiet where its power is a number below 1e-7, taken to the next single-precision number:
/// in units of 2 to the power of -47 that is 14073749.
pub proof fn law_quiet_is_below_the_limit(power: Float32)
    requires
        !power.is_nan(),
    ensures
        is_quiet(power) <==> power.value() < 14_073_749 * vstd::arithmetic::power2::pow2(102),
        -5_000_000 <= 14_073_749 * 10_000_000 - 0x8000_0000_0000 <= 5_000_000,
{
    lemma_quiet_power();
    crate::float32::law_numbers_compare_by_value(Float32 { bits: QUIET_POWER }, power);
}

proof fn lemma_thresholds()
    ensures
        (Float32 { bits: MIN_DB_THRESH }).value() == -15 * vstd::arithmetic::power2::pow2(149),
        (Float32 { bits: MAX_DB_ERB_THRESH }).value() == 35 * vstd::arithmetic::power2::pow2(149),
        (Float32 { bits: MAX_DB_DF_THRESH }).value() == 35 * vstd::arithmetic::power2::pow2(149),
{
    let low = Float32 { bits: MIN_DB_THRESH };
    let high = Float32 { bits: MAX_DB_ERB_THRESH };
    assert(low.magnitude() / 0x80_0000 == 130 && low.magnitude() % 0x80_0000 == 0x70_0000);
    assert(high.magnitude() / 0x80_0000 == 132 && high.magnitude() % 0x80_0000 == 0x0c_0000);
    vstd::arithmetic::power2::lemma_pow2_adds(20, 129);
    vstd::arithmetic::power2::lemma_pow2_adds(18, 131);
    vstd::arithmetic::power2::lemma2_to64();
    let a = vstd::arithmetic::power2::pow2(129) as int;
    let b = vstd::arithmetic::power2::pow2(131) as int;
    assert(0xf0_0000 * a == 15 * (0x10_0000 * a)) by (nonlinear_arith);
    assert(0x8c_0000 * b == 35 * (0x4_0000 * b)) by (nonlinear_arith);
}

/// Below -15 decibels everything is silenced, above 35 nothing is done, and between them the bands
/// are scaled and the low bins are filtered.
pub proof fn law_stages_go_by_decibels(lsnr: Float32)
    requires
        !lsnr.is_nan(),
    ensures
        ({
            let unit = vstd::arithmetic::power2::pow2(149) as int;
            let s = stages_of(lsnr);
            &&& s.zeros <==> lsnr.value() < -15 * unit
            &&& s.erb <==> -15 * unit <= lsnr.value() <= 35 * unit
            &&& s.df <==> -15 * unit <= lsnr.value() <= 35 * unit
        }),
{
    lemma_thresholds();
    vstd::arithmetic::power2::lemma_pow2_pos(149);
    crate::float32::law_numbers_compare_by_value(Float32 { bits: MIN_DB_THRESH }, lsnr);
    crate::float32::law_numbers_compare_by_value(lsnr, Float32 { bits: MAX_DB_ERB_THRESH });
    crate::float32::law_numbers_compare_by_value(lsnr, Float32 { bits: MAX_DB_DF_THRESH });
}

/// Each band ends at its edge, unless it would have fewer than two bins: then it has two.
pub proof fn law_bands_end_at_their_edges(edges: Seq<usize>)
    requires
        edges.len() > 0,
    ensures
        ({
            let before = raw_total(raw_widths(edges.drop_last()).0);
            let end = raw_total(raw_widths(edges).0);
            &&& edges.last() >= before + 2 ==> end == edges.last()
            &&& edges.last() < before + 2 ==> end == before + 2
            &&& raw_widths(edges).0.drop_last() == raw_widths(edges.drop_last()).0
            &&& raw_widths(edges).0.len() == edges.len()
        }),
{
    lemma_raw_total(edges);
    let before = raw_widths(edges.drop_last());
    assert(raw_widths(edges).0.drop_last() =~= before.0);
    if edges.len() > 1 {
        lemma_raw_total(edges.drop_last());
        assert(edges.drop_last().last() == edges[edges.len() - 2]);
    } else {
        reveal_with_fuel(raw_widths, 2);
        assert(raw_total(before.0) == 0);
    }
}

/// Every bin up to the end of the last band lies in one band: where the widths before it add up to
/// no more than its number, and with its own width to more.
pub proof fn law_every_bin_lies_in_a_band(widths: Seq<usize>, bins: int, x: int) -> (i: int)
    requires
        0 <= x < bins,
        x < total(widths),
    ensures
        0 <= i < widths.len(),
        band_range(widths, bins, i).0 <= x < band_range(widths, bins, i).1,
    decreases widths.len(),
{
    let rest = widths.drop_last();
    let n = widths.len() as int;
    assert(widths.take(n) =~= widths);
    assert(widths.take(n - 1) =~= rest);
    if x < total(rest) {
        let i = law_every_bin_lies_in_a_band(rest, bins, x);
        assert(rest.take(i) =~= widths.take(i));
        assert(rest.take(i + 1) =~= widths.take(i + 1));
        i
    } else {
        n - 1
    }
}

/// A band of a spectrum that it does not reach past is as wide as its width says.
pub proof fn law_bands_are_as_wide_as_said(widths: Seq<usize>, bins: int, i: int)
    requires
        0 <= i < widths.len(),
        total(widths) <= bins,
    ensures
        band_range(widths, bins, i).1 - band_range(widths, bins, i).0 == widths[i],
{
    lemma_total_grows(widths, i);
    lemma_total_grows(widths, i + 1);
    assert(widths.take(i + 1).drop_last() =~= widths.take(i));
}

} // verus!
