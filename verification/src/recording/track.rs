//! The audio side of a recording: two timelines in samples since the session started.
//!
//! User frames arrive without gaps, so they are placed one after the other. Agent chunks are placed
//! one after the other too, except that a chunk whose announced offset lies ahead starts there:
//! that is how the silence between turns gets onto the timeline. After a barge-in the agent is
//! muted until the next turn starts.
use crate::pcm::bytes_to_i16;
use crate::recording::mix::{place_samples, MAX_TIMELINE_SAMPLES};
use vstd::prelude::*;

verus! {

/// Grace after a barge-in during which agent audio still counts as heard.
pub const BARGE_IN_GRACE_NS: u64 = 200_000_000;

/// The audio recorded so far.
pub struct AudioTrack {
    /// Sample rate of both timelines.
    pub sample_rate: u32,
    /// Longest recording in samples; zero for no limit.
    pub max_samples: u64,
    pub user: Vec<i16>,
    pub agent: Vec<i16>,
    /// Where the next user frame goes.
    pub user_cursor: usize,
    /// Where the next agent chunk goes, unless its offset lies ahead.
    pub agent_cursor: usize,
    /// Whether agent audio is dropped because of a barge-in.
    pub agent_muted: bool,
    /// Whether the longest recording was reached.
    pub duration_capped: bool,
}

/// An [`AudioTrack`] as a value.
#[verifier::ext_equal]
pub struct TrackView {
    pub sample_rate: u32,
    pub max_samples: u64,
    pub user: Seq<i16>,
    pub agent: Seq<i16>,
    pub user_cursor: usize,
    pub agent_cursor: usize,
    pub agent_muted: bool,
    pub duration_capped: bool,
}

impl View for AudioTrack {
    type V = TrackView;

    open spec fn view(&self) -> TrackView {
        TrackView {
            sample_rate: self.sample_rate,
            max_samples: self.max_samples,
            user: self.user@,
            agent: self.agent@,
            user_cursor: self.user_cursor,
            agent_cursor: self.agent_cursor,
            agent_muted: self.agent_muted,
            duration_capped: self.duration_capped,
        }
    }
}

/// The position that lies `len` samples behind `cursor`, held at the largest position.
pub open spec fn advanced(cursor: usize, len: nat) -> usize {
    if cursor + len <= usize::MAX {
        (cursor + len) as usize
    } else {
        usize::MAX
    }
}

/// `num / den` rounded to the nearest integer, halves up, held at the largest position.
///
/// A quotient by zero is the largest position, or zero where `num` is zero too.
pub open spec fn rounded(num: int, den: int) -> usize {
    let q = if den == 0 {
        if num == 0 {
            0
        } else {
            usize::MAX as int
        }
    } else {
        (2 * num + den) / (2 * den)
    };
    if q <= usize::MAX {
        q as usize
    } else {
        usize::MAX
    }
}

/// The agent-audio offset `offset` at `from_rate`, in samples at `to_rate`.
pub open spec fn converted_offset(offset: u64, from_rate: u32, to_rate: u32) -> usize {
    if from_rate == to_rate {
        rounded(offset as int, 1)
    } else {
        rounded(offset * to_rate, from_rate as int)
    }
}

/// The number of samples that were heard when a barge-in comes `elapsed_ns` into the session.
pub open spec fn barge_in_cutoff(elapsed_ns: u64, sample_rate: u32) -> usize {
    rounded((elapsed_ns + BARGE_IN_GRACE_NS) * sample_rate, 1_000_000_000)
}

/// The position of the quotient `num / den`, rounded to the nearest integer.
fn round_div(num: u128, den: u64) -> (r: usize)
    requires
        num < 0x4000_0000_0000_0000_0000_0000_0000_0000,
    ensures
        r == rounded(num as int, den as int),
{
    if den == 0 {
        if num == 0 {
            0
        } else {
            usize::MAX
        }
    } else {
        let q: u128 = (2 * num + den as u128) / (2 * den as u128);
        if q <= usize::MAX as u128 {
            q as usize
        } else {
            usize::MAX
        }
    }
}

/// Converts an agent-audio offset to the recording rate.
pub fn convert_offset(offset: u64, from_rate: u32, to_rate: u32) -> (r: usize)
    ensures
        r == converted_offset(offset, from_rate, to_rate),
{
    if from_rate == to_rate {
        round_div(offset as u128, 1)
    } else {
        assert(offset * to_rate <= 0xffff_ffff_ffff_ffff * 0xffff_ffff) by (nonlinear_arith)
            requires
                offset <= 0xffff_ffff_ffff_ffff,
                to_rate <= 0xffff_ffff,
        ;
        round_div(offset as u128 * to_rate as u128, from_rate as u64)
    }
}

/// The number of samples that were heard when a barge-in comes `elapsed_ns` into the session.
pub fn barge_in_cutoff_samples(elapsed_ns: u64, sample_rate: u32) -> (r: usize)
    ensures
        r == barge_in_cutoff(elapsed_ns, sample_rate),
{
    let total: u128 = elapsed_ns as u128 + BARGE_IN_GRACE_NS as u128;
    assert(total * sample_rate <= 0x1_0000_0000_0000_0000 * 2 * 0xffff_ffff) by (nonlinear_arith)
        requires
            total <= 0x1_0000_0000_0000_0000 * 2,
            sample_rate <= 0xffff_ffff,
    ;
    round_div(total * sample_rate as u128, 1_000_000_000)
}

impl TrackView {
    /// Both timelines are within the longest length, no cursor points into what is recorded, and a
    /// recording that is not capped is short of the longest.
    pub open spec fn wf(self) -> bool {
        &&& self.user.len() <= MAX_TIMELINE_SAMPLES
        &&& self.agent.len() <= MAX_TIMELINE_SAMPLES
        &&& self.user.len() <= self.user_cursor
        &&& self.agent.len() <= self.agent_cursor
        &&& !self.duration_capped ==> !self.reaches_cap(self.user.len()) && !self.reaches_cap(
            self.agent.len(),
        )
    }

    /// Whether a length reaches the longest recording.
    pub open spec fn reaches_cap(self, len: nat) -> bool {
        self.max_samples > 0 && len >= self.max_samples
    }

    /// The track after a user frame of `bytes` at the recording rate.
    pub open spec fn after_user(self, bytes: Seq<u8>) -> TrackView {
        if self.duration_capped {
            self
        } else {
            let samples = crate::pcm::samples_of(bytes);
            let user = crate::recording::mix::placed(self.user, samples, self.user_cursor as nat);
            TrackView {
                user,
                user_cursor: advanced(self.user_cursor, samples.len()),
                duration_capped: self.reaches_cap(user.len()),
                ..self
            }
        }
    }

    /// Where an agent chunk with the given offset starts.
    pub open spec fn agent_start(self, chunk_rate: u32, offset: u64) -> usize {
        let at = converted_offset(offset, chunk_rate, self.sample_rate);
        if at > self.agent_cursor {
            at
        } else {
            self.agent_cursor
        }
    }

    /// Whether an agent chunk with the given offset opens a new stretch of speech.
    pub open spec fn snaps(self, chunk_rate: u32, offset: u64) -> bool {
        !self.duration_capped && !self.agent_muted && converted_offset(
            offset,
            chunk_rate,
            self.sample_rate,
        ) > self.agent_cursor
    }

    /// The track after an agent chunk whose `bytes` are at the recording rate.
    pub open spec fn after_agent(self, bytes: Seq<u8>, chunk_rate: u32, offset: u64) -> TrackView {
        if self.duration_capped || self.agent_muted {
            self
        } else {
            let samples = crate::pcm::samples_of(bytes);
            let start = self.agent_start(chunk_rate, offset);
            let agent = crate::recording::mix::placed(self.agent, samples, start as nat);
            TrackView {
                agent,
                agent_cursor: advanced(start, samples.len()),
                duration_capped: self.reaches_cap(
                    crate::recording::mix::longer(self.user.len(), agent.len()),
                ),
                ..self
            }
        }
    }

    /// The track after a barge-in: the agent is muted, and what the user cannot have heard yet is
    /// taken off its timeline.
    pub open spec fn after_interrupt(self, elapsed_ns: u64) -> TrackView {
        let cutoff = barge_in_cutoff(elapsed_ns, self.sample_rate);
        if cutoff < self.agent.len() {
            TrackView {
                agent_muted: true,
                agent: self.agent.take(cutoff as int),
                agent_cursor: cutoff,
                ..self
            }
        } else {
            TrackView { agent_muted: true, ..self }
        }
    }

    /// The track after a turn has started: the agent is heard again.
    pub open spec fn after_turn_started(self) -> TrackView {
        TrackView { agent_muted: false, ..self }
    }
}

/// What has to happen to a chunk before it is recorded.
#[derive(Clone, Copy, Debug, PartialEq, Eq, Structural)]
pub enum AudioPlan {
    /// It is not recorded.
    Drop,
    /// It is at the recording rate already.
    Direct,
    /// It has to be resampled.
    Resample { from: u32, to: u32 },
}

/// The plan for a chunk at `rate`.
pub open spec fn plan_of(dropped: bool, rate: u32, to: u32) -> AudioPlan {
    if dropped {
        AudioPlan::Drop
    } else if rate == to {
        AudioPlan::Direct
    } else {
        AudioPlan::Resample { from: rate, to }
    }
}

impl AudioTrack {
    /// Both timelines are within the longest length, no cursor points into what is recorded, and a
    /// recording that is not capped is short of the longest.
    pub open spec fn wf(&self) -> bool {
        self@.wf()
    }

    /// An empty track. `max_duration_secs` of zero means no limit.
    pub fn new(sample_rate: u32, max_duration_secs: u32) -> (t: Self)
        ensures
            t.wf(),
            t@ == (TrackView {
                sample_rate,
                max_samples: (max_duration_secs * sample_rate) as u64,
                user: Seq::empty(),
                agent: Seq::empty(),
                user_cursor: 0,
                agent_cursor: 0,
                agent_muted: false,
                duration_capped: false,
            }),
    {
        assert(max_duration_secs * sample_rate <= 0xffff_ffff * 0xffff_ffff) by (nonlinear_arith)
            requires
                max_duration_secs <= 0xffff_ffff,
                sample_rate <= 0xffff_ffff,
        ;
        AudioTrack {
            sample_rate,
            max_samples: max_duration_secs as u64 * sample_rate as u64,
            user: Vec::new(),
            agent: Vec::new(),
            user_cursor: 0,
            agent_cursor: 0,
            agent_muted: false,
            duration_capped: false,
        }
    }

    /// What has to happen to a user frame at `rate`.
    pub fn plan_user(&self, rate: u32) -> (p: AudioPlan)
        ensures
            p == plan_of(self@.duration_capped, rate, self@.sample_rate),
    {
        if self.duration_capped {
            AudioPlan::Drop
        } else if rate == self.sample_rate {
            AudioPlan::Direct
        } else {
            AudioPlan::Resample { from: rate, to: self.sample_rate }
        }
    }

    /// What has to happen to an agent chunk at `rate`.
    pub fn plan_agent(&self, rate: u32) -> (p: AudioPlan)
        ensures
            p == plan_of(self@.duration_capped || self@.agent_muted, rate, self@.sample_rate),
    {
        if self.duration_capped || self.agent_muted {
            AudioPlan::Drop
        } else if rate == self.sample_rate {
            AudioPlan::Direct
        } else {
            AudioPlan::Resample { from: rate, to: self.sample_rate }
        }
    }

    /// Records a user frame, given at the recording rate.
    pub fn on_user_audio(&mut self, bytes: &[u8])
        requires
            old(self).wf(),
            !old(self)@.duration_capped ==> bytes@.len() % 2 == 0,
        ensures
            final(self).wf(),
            final(self)@ == old(self)@.after_user(bytes@),
    {
        if self.duration_capped {
            return;
        }
        let samples = bytes_to_i16(bytes);
        proof {
            crate::recording::mix::law_placed_bounded(
                self.user@,
                samples@,
                self.user_cursor as nat,
            );
        }
        place_samples(&mut self.user, samples.as_slice(), self.user_cursor);
        self.user_cursor = self.user_cursor.saturating_add(samples.len());
        self.duration_capped = self.max_samples > 0 && self.user.len() as u64 >= self.max_samples;
        assert(self@ =~= old(self)@.after_user(bytes@));
    }

    /// Records an agent chunk, given at the recording rate, that was announced with
    /// `offset` at `chunk_rate`. Tells whether the chunk opened a new stretch of speech.
    pub fn on_agent_audio(&mut self, bytes: &[u8], chunk_rate: u32, offset: u64) -> (snapped: bool)
        requires
            old(self).wf(),
            !old(self)@.duration_capped && !old(self)@.agent_muted ==> bytes@.len() % 2 == 0,
        ensures
            final(self).wf(),
            final(self)@ == old(self)@.after_agent(bytes@, chunk_rate, offset),
            snapped == old(self)@.snaps(chunk_rate, offset),
    {
        if self.duration_capped || self.agent_muted {
            return false;
        }
        let samples = bytes_to_i16(bytes);
        let at: usize = convert_offset(offset, chunk_rate, self.sample_rate);
        let snapped = at > self.agent_cursor;
        let start: usize = if snapped {
            at
        } else {
            self.agent_cursor
        };
        proof {
            crate::recording::mix::law_placed_bounded(self.agent@, samples@, start as nat);
        }
        self.agent_cursor = start.saturating_add(samples.len());
        place_samples(&mut self.agent, samples.as_slice(), start);
        let len: usize = if self.user.len() >= self.agent.len() {
            self.user.len()
        } else {
            self.agent.len()
        };
        self.duration_capped = self.max_samples > 0 && len as u64 >= self.max_samples;
        assert(self@ =~= old(self)@.after_agent(bytes@, chunk_rate, offset));
        snapped
    }

    /// A barge-in `elapsed_ns` into the session.
    pub fn on_interrupt(&mut self, elapsed_ns: u64)
        requires
            old(self).wf(),
        ensures
            final(self).wf(),
            final(self)@ == old(self)@.after_interrupt(elapsed_ns),
    {
        self.agent_muted = true;
        let cutoff: usize = barge_in_cutoff_samples(elapsed_ns, self.sample_rate);
        if cutoff < self.agent.len() {
            self.agent.truncate(cutoff);
            self.agent_cursor = cutoff;
        }
        assert(self@ =~= old(self)@.after_interrupt(elapsed_ns));
    }

    /// A turn has started.
    pub fn on_turn_started(&mut self)
        requires
            old(self).wf(),
        ensures
            final(self).wf(),
            final(self)@ == old(self)@.after_turn_started(),
    {
        self.agent_muted = false;
        assert(self@ =~= old(self)@.after_turn_started());
    }
}

/// What was recorded of the user is never changed or taken back, and what was recorded of the agent
/// is taken back by a barge-in only, and then only from the end.
pub proof fn law_recorded_audio_stays(
    t: TrackView,
    bytes: Seq<u8>,
    chunk_rate: u32,
    offset: u64,
    elapsed_ns: u64,
)
    requires
        t.wf(),
    ensures
        t.user.is_prefix_of(t.after_user(bytes).user),
        t.after_user(bytes).agent == t.agent,
        t.agent.is_prefix_of(t.after_agent(bytes, chunk_rate, offset).agent),
        t.after_agent(bytes, chunk_rate, offset).user == t.user,
        t.after_interrupt(elapsed_ns).user == t.user,
        t.after_interrupt(elapsed_ns).agent.is_prefix_of(t.agent),
        t.after_turn_started().user == t.user,
        t.after_turn_started().agent == t.agent,
{
}

/// The agent is never recorded earlier than its announced offset nor over its own earlier speech:
/// a chunk starts at or after both.
pub proof fn law_agent_start_not_early(t: TrackView, chunk_rate: u32, offset: u64)
    ensures
        t.agent_start(chunk_rate, offset) >= t.agent_cursor,
        t.agent_start(chunk_rate, offset) >= converted_offset(offset, chunk_rate, t.sample_rate),
        !t.snaps(chunk_rate, offset) && !t.duration_capped && !t.agent_muted ==> t.agent_start(
            chunk_rate,
            offset,
        ) == t.agent_cursor,
{
}

/// An offset at the recording rate is taken as it is, as far as a position can hold it.
pub proof fn law_offset_at_recording_rate(offset: u64, rate: u32)
    requires
        offset <= usize::MAX,
    ensures
        converted_offset(offset, rate, rate) == offset,
{
    assert((2 * (offset as int) + 1) / 2 == offset);
}

/// `at` is `offset` at `from_rate`, in samples at `to_rate`: the nearest one, the later of two that
/// are as near.
pub open spec fn is_nearest_sample(at: int, offset: int, from_rate: int, to_rate: int) -> bool {
    2 * at * from_rate <= 2 * offset * to_rate + from_rate < 2 * (at + 1) * from_rate
}

proof fn lemma_rounded(num: int, den: int, at: int)
    requires
        den > 0,
        num >= 0,
        2 * at * den <= 2 * num + den < 2 * (at + 1) * den,
    ensures
        at >= 0,
        at <= usize::MAX ==> rounded(num, den) == at,
        at > usize::MAX ==> rounded(num, den) == usize::MAX,
{
    let q = (2 * num + den) / (2 * den);
    assert(q == at && at >= 0) by (nonlinear_arith)
        requires
            den > 0,
            num >= 0,
            q == (2 * num + den) / (2 * den),
            2 * at * den <= 2 * num + den < 2 * (at + 1) * den,
    ;
}

proof fn lemma_converted(offset: u64, from_rate: u32, to_rate: u32, at: int)
    requires
        from_rate > 0,
        is_nearest_sample(at, offset as int, from_rate as int, to_rate as int),
    ensures
        at >= 0,
        at <= usize::MAX ==> converted_offset(offset, from_rate, to_rate) == at,
        at > usize::MAX ==> converted_offset(offset, from_rate, to_rate) == usize::MAX,
{
    let (o, f, t) = (offset as int, from_rate as int, to_rate as int);
    assert(2 * (o * t) == 2 * o * t) by (nonlinear_arith);
    assert(o * t >= 0) by (nonlinear_arith)
        requires
            o >= 0,
            t >= 0,
    ;
    if from_rate == to_rate {
        assert(2 * at * 1 <= 2 * o + 1 < 2 * (at + 1) * 1) by (nonlinear_arith)
            requires
                f > 0,
                f == t,
                2 * at * f <= 2 * o * t + f < 2 * (at + 1) * f,
        ;
        lemma_rounded(o, 1, at);
    } else {
        lemma_rounded(o * t, f, at);
    }
}

/// Agent speech is heard when it was announced. A recorded chunk starts exactly at its announced
/// offset, taken to the recording rate and rounded, or where the agent's speech before it ended,
/// whichever is later. Its samples follow one another from there, all before it back to the old end
/// is silence, and what was recorded stays. The next chunk goes behind it.
pub proof fn law_agent_chunk_starts_on_time(
    t: TrackView,
    bytes: Seq<u8>,
    chunk_rate: u32,
    offset: u64,
    at: int,
)
    requires
        t.wf(),
        !t.duration_capped,
        !t.agent_muted,
        chunk_rate > 0,
        is_nearest_sample(at, offset as int, chunk_rate as int, t.sample_rate as int),
        at <= usize::MAX,
    ensures
        ({
            let w = t.after_agent(bytes, chunk_rate, offset);
            let n = (bytes.len() / 2) as int;
            let start = if at > t.agent_cursor {
                at
            } else {
                t.agent_cursor as int
            };
            &&& start + n <= usize::MAX ==> w.agent_cursor == start + n
            &&& t.snaps(chunk_rate, offset) <==> at > t.agent_cursor
            &&& start <= t.agent.len() + 14_400_000 && start + n <= 345_600_000 ==> {
                &&& w.agent.len() == start + n
                &&& forall|i: int| 0 <= i < t.agent.len() ==> w.agent[i] == t.agent[i]
                &&& forall|i: int| t.agent.len() <= i < start ==> w.agent[i] == 0
                &&& forall|i: int|
                    0 <= i < n ==> (#[trigger] w.agent[start + i]) == {
                        let word = bytes[2 * i] + 256 * bytes[2 * i + 1];
                        if word < 32768 {
                            word
                        } else {
                            word - 65536
                        }
                    }
            }
            &&& w.user == t.user
            &&& w.user_cursor == t.user_cursor
            &&& w.sample_rate == t.sample_rate
            &&& !w.agent_muted
        }),
{
    let w = t.after_agent(bytes, chunk_rate, offset);
    let n = (bytes.len() / 2) as int;
    let start = if at > t.agent_cursor {
        at
    } else {
        t.agent_cursor as int
    };
    lemma_converted(offset, chunk_rate, t.sample_rate, at);
    assert(t.agent_start(chunk_rate, offset) == start);
    if start <= t.agent.len() + 14_400_000 && start + n <= 345_600_000 {
        let samples = crate::pcm::samples_of(bytes);
        crate::recording::mix::law_chunk_stands_where_placed(t.agent, samples, start as nat);
        assert forall|i: int| 0 <= i < n implies (#[trigger] w.agent[start + i]) == {
            let word = bytes[2 * i] + 256 * bytes[2 * i + 1];
            if word < 32768 {
                word
            } else {
                word - 65536
            }
        } by {
            crate::pcm::law_samples_are_little_endian(bytes, i);
            assert(w.agent[start as nat + i] == samples[i]);
        }
    }
}

/// User frames follow one another without a gap: each is appended to what was recorded of the user,
/// and the next one goes behind it.
pub proof fn law_user_frames_follow(t: TrackView, bytes: Seq<u8>)
    requires
        t.wf(),
        !t.duration_capped,
        t.user_cursor == t.user.len(),
        t.user.len() + bytes.len() / 2 <= 345_600_000,
    ensures
        ({
            let w = t.after_user(bytes);
            let n = (bytes.len() / 2) as int;
            &&& w.user.len() == t.user.len() + n
            &&& w.user_cursor == w.user.len()
            &&& forall|i: int| 0 <= i < t.user.len() ==> w.user[i] == t.user[i]
            &&& forall|i: int|
                0 <= i < n ==> (#[trigger] w.user[t.user.len() + i]) == {
                    let word = bytes[2 * i] + 256 * bytes[2 * i + 1];
                    if word < 32768 {
                        word
                    } else {
                        word - 65536
                    }
                }
            &&& w.agent == t.agent
            &&& w.agent_cursor == t.agent_cursor
            &&& w.agent_muted == t.agent_muted
        }),
{
    let w = t.after_user(bytes);
    let n = (bytes.len() / 2) as int;
    let samples = crate::pcm::samples_of(bytes);
    crate::recording::mix::law_chunk_stands_where_placed(t.user, samples, t.user.len());
    assert forall|i: int| 0 <= i < n implies (#[trigger] w.user[t.user.len() + i]) == {
        let word = bytes[2 * i] + 256 * bytes[2 * i + 1];
        if word < 32768 {
            word
        } else {
            word - 65536
        }
    } by {
        crate::pcm::law_samples_are_little_endian(bytes, i);
    }
}

/// A barge-in leaves of the agent what was heard until then and for 200 ms more, the time taken to
/// the nearest sample, and mutes it. What the user said is left alone.
pub proof fn law_barge_in_cuts_what_was_not_heard(t: TrackView, elapsed_ns: u64, heard: int)
    requires
        is_nearest_sample(
            heard,
            elapsed_ns + 200_000_000,
            1_000_000_000,
            t.sample_rate as int,
        ),
    ensures
        ({
            let w = t.after_interrupt(elapsed_ns);
            &&& w.agent_muted
            &&& heard < t.agent.len() && heard <= usize::MAX ==> w.agent.len() == heard
                && w.agent_cursor == heard
            &&& heard >= t.agent.len() && t.agent.len() <= usize::MAX ==> w.agent.len()
                == t.agent.len() && w.agent_cursor == t.agent_cursor
            &&& forall|i: int| 0 <= i < w.agent.len() ==> w.agent[i] == t.agent[i]
            &&& w.user == t.user
            &&& w.user_cursor == t.user_cursor
            &&& w.duration_capped == t.duration_capped
        }),
{
    let total = elapsed_ns + 200_000_000;
    let rate = t.sample_rate as int;
    assert(total * rate >= 0 && 2 * (total * rate) == 2 * total * rate) by (nonlinear_arith)
        requires
            total >= 0,
            rate >= 0,
    ;
    lemma_rounded(total * rate, 1_000_000_000, heard);
}

/// The start of a turn lets the agent be heard again and changes nothing that was recorded.
pub proof fn law_turn_start_unmutes(t: TrackView)
    ensures
        !t.after_turn_started().agent_muted,
        t.after_turn_started().agent == t.agent,
        t.after_turn_started().agent_cursor == t.agent_cursor,
        t.after_turn_started().user == t.user,
        t.after_turn_started().user_cursor == t.user_cursor,
        t.after_turn_started().duration_capped == t.duration_capped,
{
}

/// A recording stops taking audio exactly when one side is as long as was allowed, and never where
/// no limit was set.
pub proof fn law_cap_is_reached_in_time(
    t: TrackView,
    bytes: Seq<u8>,
    chunk_rate: u32,
    offset: u64,
)
    requires
        t.wf(),
        !t.duration_capped,
        !t.agent_muted,
    ensures
        ({
            let u = t.after_user(bytes);
            let a = t.after_agent(bytes, chunk_rate, offset);
            &&& u.duration_capped <==> t.max_samples > 0 && u.user.len() >= t.max_samples
            &&& a.duration_capped <==> t.max_samples > 0 && (a.user.len() >= t.max_samples
                || a.agent.len() >= t.max_samples)
            &&& t.max_samples == u.max_samples == a.max_samples
        }),
{
}

/// What is not dropped reaches the timeline at the rate of the recording: as it is where it has that
/// rate, else resampled from its own rate to that.
pub proof fn law_plans_reach_the_recording_rate(dropped: bool, rate: u32, recording: u32)
    ensures
        plan_of(dropped, rate, recording) is Drop <==> dropped,
        plan_of(dropped, rate, recording) is Direct ==> rate == recording,
        plan_of(dropped, rate, recording) matches AudioPlan::Resample { from, to } ==> from == rate
            && to == recording && from != to,
{
}

/// An offset at no rate lies at the very end, unless it is zero.
pub proof fn law_offset_without_a_rate(offset: u64, rate: u32)
    requires
        rate > 0,
    ensures
        offset == 0 ==> converted_offset(offset, 0, rate) == 0,
        offset > 0 ==> converted_offset(offset, 0, rate) == usize::MAX,
{
    assert(offset > 0 ==> offset * rate > 0) by (nonlinear_arith)
        requires
            rate > 0,
    ;
    assert(offset == 0 ==> offset * rate == 0) by (nonlinear_arith);
}

/// While the agent is muted its audio is not recorded, and once the recording is capped nobody's is.
pub proof fn law_muted_and_capped_audio_is_dropped(
    t: TrackView,
    bytes: Seq<u8>,
    chunk_rate: u32,
    offset: u64,
)
    ensures
        t.agent_muted ==> t.after_agent(bytes, chunk_rate, offset) == t && !t.snaps(
            chunk_rate,
            offset,
        ),
        t.duration_capped ==> t.after_agent(bytes, chunk_rate, offset) == t && !t.snaps(
            chunk_rate,
            offset,
        ) && t.after_user(bytes) == t,
{
}

} // verus!
