//! Channel mixing and the sample timeline of a recording.
use vstd::prelude::*;

verus! {

/// The sample at `i`, or silence past the end.
pub open spec fn sample_or_zero(s: Seq<i16>, i: int) -> i16 {
    if 0 <= i < s.len() {
        s[i]
    } else {
        0
    }
}

/// The greater of two lengths.
pub open spec fn longer(a: nat, b: nat) -> nat {
    if a >= b {
        a
    } else {
        b
    }
}

/// Stereo samples, user left and agent right; the shorter channel ends in silence.
pub open spec fn interleaved(user: Seq<i16>, agent: Seq<i16>) -> Seq<i16> {
    Seq::new(
        2 * longer(user.len(), agent.len()),
        |i: int|
            if i % 2 == 0 {
                sample_or_zero(user, i / 2)
            } else {
                sample_or_zero(agent, i / 2)
            },
    )
}

/// Half of a sum, rounded toward zero.
pub open spec fn half(sum: int) -> int {
    if sum >= 0 {
        sum / 2
    } else {
        -((-sum) / 2)
    }
}

/// The average of both channels; the shorter one ends in silence.
pub open spec fn mixed(user: Seq<i16>, agent: Seq<i16>) -> Seq<i16> {
    Seq::new(
        longer(user.len(), agent.len()),
        |i: int| half(sample_or_zero(user, i) + sample_or_zero(agent, i)) as i16,
    )
}

fn at_or_zero(s: &[i16], i: usize) -> (r: i16)
    ensures
        r == sample_or_zero(s@, i as int),
{
    if i < s.len() {
        s[i]
    } else {
        0
    }
}

fn longer_len(a: &[i16], b: &[i16]) -> (n: usize)
    ensures
        n == longer(a@.len(), b@.len()),
{
    if a.len() >= b.len() {
        a.len()
    } else {
        b.len()
    }
}

/// Interleaves two mono buffers into a stereo buffer, user left and agent right.
///
/// The shorter buffer is padded with silence.
pub fn interleave_stereo(user: &[i16], agent: &[i16]) -> (stereo: Vec<i16>)
    ensures
        stereo@ == interleaved(user@, agent@),
{
    let len: usize = longer_len(user, agent);
    let mut stereo: Vec<i16> = Vec::new();
    for i in 0..len
        invariant
            stereo@.len() == 2 * i,
            forall|k: int|
                0 <= k < 2 * i ==> stereo@[k] == if k % 2 == 0 {
                    sample_or_zero(user@, k / 2)
                } else {
                    sample_or_zero(agent@, k / 2)
                },
    {
        stereo.push(at_or_zero(user, i));
        stereo.push(at_or_zero(agent, i));
    }
    assert(stereo@ =~= interleaved(user@, agent@));
    stereo
}

/// Mixes two mono buffers into one by averaging, rounded toward zero.
///
/// The shorter buffer is padded with silence.
pub fn mix_mono(user: &[i16], agent: &[i16]) -> (mono: Vec<i16>)
    ensures
        mono@ == mixed(user@, agent@),
{
    let len: usize = longer_len(user, agent);
    let mut mono: Vec<i16> = Vec::new();
    for i in 0..len
        invariant
            mono@.len() == i,
            forall|k: int|
                0 <= k < i ==> mono@[k] == half(
                    sample_or_zero(user@, k) + sample_or_zero(agent@, k),
                ) as i16,
    {
        let sum: i32 = at_or_zero(user, i) as i32 + at_or_zero(agent, i) as i32;
        let average: i32 = if sum >= 0 {
            sum / 2
        } else {
            -((-sum) / 2)
        };
        mono.push(average as i16);
    }
    assert(mono@ =~= mixed(user@, agent@));
    mono
}

/// About two hours at 48 kHz: the longest timeline that is kept.
pub const MAX_TIMELINE_SAMPLES: usize = 345_600_000;

/// Five minutes at 48 kHz: the longest silence that one chunk may open.
pub const MAX_GAP_SAMPLES: usize = 14_400_000;

/// A sum brought into the range of a sample.
pub open spec fn clamped(x: int) -> i16 {
    if x < i16::MIN {
        i16::MIN
    } else if x > i16::MAX {
        i16::MAX
    } else {
        x as i16
    }
}

/// Where a chunk that should start at `start` is placed on a timeline of length `len`.
pub open spec fn placement(len: nat, start: nat) -> nat {
    if start > len + MAX_GAP_SAMPLES {
        len + MAX_GAP_SAMPLES as nat
    } else {
        start
    }
}

/// The timeline after `samples` are placed at `start`.
///
/// Overlapping samples are added and clamped, gaps are silent. A chunk that would reach past the
/// longest timeline is dropped.
pub open spec fn placed(timeline: Seq<i16>, samples: Seq<i16>, start: nat) -> Seq<i16> {
    let from = placement(timeline.len(), start);
    let end = from + samples.len();
    if end > MAX_TIMELINE_SAMPLES {
        timeline
    } else {
        Seq::new(
            longer(timeline.len(), end),
            |i: int|
                if from <= i < end {
                    clamped(sample_or_zero(timeline, i) + samples[i - from])
                } else {
                    sample_or_zero(timeline, i)
                },
        )
    }
}

/// Places samples on the timeline at `start`, growing it as needed.
pub fn place_samples(timeline: &mut Vec<i16>, samples: &[i16], start: usize)
    ensures
        final(timeline)@ == placed(old(timeline)@, samples@, start as nat),
{
    let ghost before = timeline@;
    let len: usize = timeline.len();
    let from: usize = if start > len && start - len > MAX_GAP_SAMPLES {
        len + MAX_GAP_SAMPLES
    } else {
        start
    };
    assert(from == placement(before.len(), start as nat));
    if samples.len() > MAX_TIMELINE_SAMPLES || from > MAX_TIMELINE_SAMPLES - samples.len() {
        return;
    }
    let end: usize = from + samples.len();
    if len < end {
        timeline.resize(end, 0);
    }
    let ghost base = timeline@;
    assert(base.len() == longer(before.len(), end as nat));
    assert forall|i: int| 0 <= i < base.len() implies base[i] == sample_or_zero(before, i) by {}
    for i in 0..samples.len()
        invariant
            end == from + samples@.len(),
            end <= base.len(),
            timeline@.len() == base.len(),
            forall|k: int|
                0 <= k < base.len() ==> timeline@[k] == if from <= k < from + i {
                    clamped(base[k] + samples@[k - from])
                } else {
                    base[k]
                },
    {
        let sum: i32 = timeline[from + i] as i32 + samples[i] as i32;
        let s: i16 = if sum < -32768 {
            -32768
        } else if sum > 32767 {
            32767
        } else {
            sum as i16
        };
        timeline[from + i] = s;
    }
    assert(timeline@ =~= placed(before, samples@, start as nat));
}

/// Both channels of a recording are as long as the longer of them, and de-interleaving the stereo
/// samples gives back each channel padded with silence.
pub proof fn law_interleaved_channels(user: Seq<i16>, agent: Seq<i16>, i: int)
    requires
        0 <= i < longer(user.len(), agent.len()),
    ensures
        interleaved(user, agent).len() == 2 * longer(user.len(), agent.len()),
        interleaved(user, agent)[2 * i] == sample_or_zero(user, i),
        interleaved(user, agent)[2 * i + 1] == sample_or_zero(agent, i),
{
}

/// Mixing is symmetric, keeps the longer length, and two equal channels mix to themselves.
pub proof fn law_mixed_symmetric(user: Seq<i16>, agent: Seq<i16>)
    ensures
        mixed(user, agent) == mixed(agent, user),
        mixed(user, agent).len() == longer(user.len(), agent.len()),
        mixed(user, user) == user,
{
    assert(mixed(user, agent) =~= mixed(agent, user));
    assert(mixed(user, user) =~= user);
}

/// A timeline within the longest length stays within it, never shrinks, and is unchanged outside
/// the placed chunk.
pub proof fn law_placed_bounded(timeline: Seq<i16>, samples: Seq<i16>, start: nat)
    requires
        timeline.len() <= MAX_TIMELINE_SAMPLES,
    ensures
        placed(timeline, samples, start).len() <= MAX_TIMELINE_SAMPLES,
        placed(timeline, samples, start).len() >= timeline.len(),
        forall|i: int|
            0 <= i < timeline.len() && !(placement(timeline.len(), start) <= i < placement(
                timeline.len(),
                start,
            ) + samples.len()) ==> placed(timeline, samples, start)[i] == timeline[i],
{
}

/// A mixed sample is half the sum of the two that are heard together, rounded toward zero; a side
/// that has ended is silent.
pub proof fn law_mixed_sample_is_the_average(user: Seq<i16>, agent: Seq<i16>, i: int)
    requires
        0 <= i < user.len() || 0 <= i < agent.len(),
    ensures
        ({
            let sum = (if i < user.len() {
                user[i] as int
            } else {
                0
            }) + (if i < agent.len() {
                agent[i] as int
            } else {
                0
            });
            let m = mixed(user, agent)[i] as int;
            &&& i < mixed(user, agent).len()
            &&& -1 <= sum - 2 * m <= 1
            &&& sum >= 0 ==> 0 <= 2 * m <= sum
            &&& sum <= 0 ==> sum <= 2 * m <= 0
        }),
{
}

/// The user is heard on the left and the agent on the right, sample by sample at the same time; a
/// side that has ended is silent, and both sides end together.
pub proof fn law_user_left_agent_right(user: Seq<i16>, agent: Seq<i16>, i: int)
    requires
        0 <= i,
    ensures
        ({
            let stereo = interleaved(user, agent);
            &&& i < user.len() ==> 2 * i + 1 < stereo.len() && stereo[2 * i] == user[i]
            &&& i < agent.len() ==> 2 * i + 1 < stereo.len() && stereo[2 * i + 1] == agent[i]
            &&& user.len() <= i < agent.len() ==> stereo[2 * i] == 0
            &&& agent.len() <= i < user.len() ==> stereo[2 * i + 1] == 0
            &&& user.len() <= i && agent.len() <= i ==> 2 * i >= stereo.len()
        }),
{
    assert((2 * i) / 2 == i && (2 * i) % 2 == 0);
    assert((2 * i + 1) / 2 == i && (2 * i + 1) % 2 == 1);
}

/// A chunk behind the end of a timeline stands exactly where it is placed, whole, with silence
/// before it; what was there stays.
pub proof fn law_chunk_stands_where_placed(timeline: Seq<i16>, samples: Seq<i16>, start: nat)
    requires
        timeline.len() <= start <= timeline.len() + 14_400_000,
        start + samples.len() <= 345_600_000,
    ensures
        ({
            let after = placed(timeline, samples, start);
            &&& after.len() == start + samples.len()
            &&& forall|i: int| 0 <= i < timeline.len() ==> after[i] == timeline[i]
            &&& forall|i: int| timeline.len() <= i < start ==> after[i] == 0
            &&& forall|i: int| 0 <= i < samples.len() ==> #[trigger] after[start + i] == samples[i]
        }),
{
    let after = placed(timeline, samples, start);
    assert forall|i: int| 0 <= i < samples.len() implies #[trigger] after[start + i]
        == samples[i] by {
        assert(start + i - start == i);
    }
}

/// Where a chunk overlaps what is there, both are heard: each sample is the sum, held at the loudest
/// that a sample can be.
pub proof fn law_overlap_is_summed(timeline: Seq<i16>, samples: Seq<i16>, start: nat, i: int)
    requires
        0 <= i < samples.len(),
        start + i < timeline.len(),
        start + samples.len() <= 345_600_000,
    ensures
        ({
            let sum = timeline[start + i] + samples[i];
            let heard = placed(timeline, samples, start)[start + i];
            &&& -32768 <= sum <= 32767 ==> heard == sum
            &&& sum < -32768 ==> heard == -32768
            &&& sum > 32767 ==> heard == 32767
        }),
{
    assert(start + i - start == i);
}

/// No chunk opens more than five minutes of silence, and none reaches past two hours.
pub proof fn law_gaps_are_limited(timeline: Seq<i16>, samples: Seq<i16>, start: nat)
    ensures
        start > timeline.len() + 14_400_000 ==> placed(timeline, samples, start) == placed(
            timeline,
            samples,
            timeline.len() + 14_400_000nat,
        ),
        start <= timeline.len() + 14_400_000 && start + samples.len() > 345_600_000 ==> placed(
            timeline,
            samples,
            start,
        ) == timeline,
{
}

} // verus!
