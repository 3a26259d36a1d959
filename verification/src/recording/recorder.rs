//! The recorder of one session: it turns bus events into timelines and a transcript.
use crate::event::Event;
use crate::recording::config::RecordingConfig;
use crate::recording::track::{AudioPlan, AudioTrack};
use crate::recording::transcript::TranscriptLog;
use vstd::prelude::*;

verus! {

/// What the caller does after an event.
#[derive(Clone, Copy, Debug, PartialEq, Eq, Structural)]
pub enum RecorderStep {
    /// Wait for the next event.
    Continue,
    /// Forget the resamplers of agent audio, then wait for the next event.
    ResetAgentResamplers,
    /// The session is over: encode the recording.
    Finish,
}

/// Everything recorded of a session so far.
pub struct Recorder {
    pub track: AudioTrack,
    pub log: TranscriptLog,
}

/// A [`Recorder`] as a value.
pub struct RecorderView {
    pub track: crate::recording::track::TrackView,
    pub log: crate::recording::transcript::LogView,
}

impl View for Recorder {
    type V = RecorderView;

    open spec fn view(&self) -> RecorderView {
        RecorderView { track: self.track@, log: self.log@ }
    }
}

/// What has to happen to the audio of an event before it is recorded.
pub open spec fn audio_plan_of(r: RecorderView, event: Event) -> AudioPlan {
    match event {
        Event::UserAudio { sample_rate, .. } => crate::recording::track::plan_of(
            r.track.duration_capped,
            sample_rate,
            r.track.sample_rate,
        ),
        Event::AgentAudio { sample_rate, .. } => crate::recording::track::plan_of(
            r.track.duration_capped || r.track.agent_muted,
            sample_rate,
            r.track.sample_rate,
        ),
        _ => AudioPlan::Drop,
    }
}

/// The audio of the recording after an event, `pcm` being its audio at the recording rate.
pub open spec fn track_after(
    t: crate::recording::track::TrackView,
    event: Event,
    pcm: Seq<u8>,
    elapsed_ns: u64,
) -> crate::recording::track::TrackView {
    match event {
        Event::UserAudio { .. } => t.after_user(pcm),
        Event::AgentAudio { sample_rate, offset_samples, .. } => t.after_agent(
            pcm,
            sample_rate,
            offset_samples,
        ),
        Event::Interrupt => t.after_interrupt(elapsed_ns),
        Event::TurnStarted { .. } => t.after_turn_started(),
        _ => t,
    }
}

/// `next` is the transcript after an event: what the log makes of it, and for agent audio that
/// opens a new stretch of speech, the time of its start.
pub open spec fn log_after(
    r: RecorderView,
    event: Event,
    timestamp: String,
    next: crate::recording::transcript::LogView,
) -> bool {
    match event {
        Event::AgentAudio { sample_rate, offset_samples, .. } => next == if r.track.snaps(
            sample_rate,
            offset_samples,
        ) {
            crate::recording::transcript::LogView {
                pending_assistant_turn_ts: Some(timestamp),
                ..r.log
            }
        } else {
            r.log
        },
        _ => r.log.logs(event, timestamp, next),
    }
}

impl RecorderView {
    /// `next` is the recorder after an event with audio `pcm` at the recording rate, at the given
    /// time of day and time since the session started.
    pub open spec fn records(
        self,
        event: Event,
        pcm: Seq<u8>,
        timestamp: String,
        elapsed_ns: u64,
        next: RecorderView,
    ) -> bool {
        &&& next.track == track_after(self.track, event, pcm, elapsed_ns)
        &&& log_after(self, event, timestamp, next.log)
    }
}

/// What the caller does after an event.
pub open spec fn step_of(event: Event) -> RecorderStep {
    match event {
        Event::SessionEnded => RecorderStep::Finish,
        Event::Interrupt => RecorderStep::ResetAgentResamplers,
        _ => RecorderStep::Continue,
    }
}

impl Recorder {
    /// Timelines and transcript are well formed.
    pub open spec fn wf(&self) -> bool {
        self.track.wf() && self.log.wf()
    }

    /// The recorder of a session that started at `started_at`.
    pub fn new(options: &RecordingConfig, started_at: String) -> (r: Self)
        ensures
            r.wf(),
            r.track@ == (crate::recording::track::TrackView {
                sample_rate: options.sample_rate,
                max_samples: (options.max_duration_secs * options.sample_rate) as u64,
                user: Seq::empty(),
                agent: Seq::empty(),
                user_cursor: 0,
                agent_cursor: 0,
                agent_muted: false,
                duration_capped: false,
            }),
            r.log@.include_tool_details == options.include_tool_details,
            r.log@.include_llm_metadata == options.include_llm_metadata,
            r.log@.entries.len() == 1,
            crate::recording::transcript::is_session_event(
                r.log@.entries[0],
                "started"@,
                started_at,
            ),
            r.log@.last_assistant_idx is None,
            r.log@.pending_assistant_turn_ts is None,
    {
        Recorder {
            track: AudioTrack::new(options.sample_rate, options.max_duration_secs),
            log: TranscriptLog::new(
                options.include_tool_details,
                options.include_llm_metadata,
                started_at,
            ),
        }
    }

    /// What has to happen to the audio of `event` before it is handed to [`Recorder::on_event`].
    pub fn audio_plan(&self, event: &Event) -> (p: AudioPlan)
        ensures
            p == audio_plan_of(self@, *event),
    {
        match event {
            Event::UserAudio { sample_rate, .. } => self.track.plan_user(*sample_rate),
            Event::AgentAudio { sample_rate, .. } => self.track.plan_agent(*sample_rate),
            _ => AudioPlan::Drop,
        }
    }

    /// Records `event`.
    ///
    /// `pcm` is the audio of the event at the recording rate, two bytes for each sample,
    /// `timestamp` the time of day, and `elapsed_ns` the time since the session started.
    pub fn on_event(
        &mut self,
        event: Event,
        pcm: &[u8],
        timestamp: String,
        elapsed_ns: u64,
    ) -> (step: RecorderStep)
        requires
            old(self).wf(),
            !(audio_plan_of(old(self)@, event) is Drop) ==> pcm@.len() % 2 == 0,
        ensures
            final(self).wf(),
            old(self)@.records(event, pcm@, timestamp, elapsed_ns, final(self)@),
            step == step_of(event),
    {
        match event {
            Event::UserAudio { .. } => {
                self.track.on_user_audio(pcm);
                RecorderStep::Continue
            },
            Event::AgentAudio { sample_rate, offset_samples, .. } => {
                if self.track.on_agent_audio(pcm, sample_rate, offset_samples) {
                    self.log.on_agent_speech(timestamp);
                }
                RecorderStep::Continue
            },
            Event::Interrupt => {
                self.track.on_interrupt(elapsed_ns);
                RecorderStep::ResetAgentResamplers
            },
            Event::TurnStarted { turn_number } => {
                self.track.on_turn_started();
                self.log.on_event(Event::TurnStarted { turn_number }, timestamp);
                RecorderStep::Continue
            },
            Event::SessionEnded => {
                self.log.on_event(Event::SessionEnded, timestamp);
                RecorderStep::Finish
            },
            other => {
                self.log.on_event(other, timestamp);
                RecorderStep::Continue
            },
        }
    }
}

/// An event with what is handed in with it.
pub struct Occurrence {
    pub event: Event,
    pub pcm: Seq<u8>,
    pub timestamp: String,
    pub elapsed_ns: u64,
}

/// `to` is a recorder that recording the events, one after the other, makes of `from`.
pub open spec fn records_all(from: RecorderView, events: Seq<Occurrence>, to: RecorderView) -> bool
    decreases events.len(),
{
    if events.len() == 0 {
        to == from
    } else {
        let e = events.last();
        exists|mid: RecorderView|
            records_all(from, events.drop_last(), mid) && #[trigger] mid.records(
                e.event,
                e.pcm,
                e.timestamp,
                e.elapsed_ns,
                to,
            )
    }
}

/// Whether the agent is muted after the events, `muted` telling whether it was before: an interrupt
/// mutes it, the start of a turn lets it be heard again.
pub open spec fn muted_after(muted: bool, events: Seq<Occurrence>) -> bool
    decreases events.len(),
{
    if events.len() == 0 {
        muted
    } else {
        match events.last().event {
            Event::Interrupt => true,
            Event::TurnStarted { .. } => false,
            _ => muted_after(muted, events.drop_last()),
        }
    }
}

/// The events without the agent audio that lies between an interrupt and the next start of a turn,
/// or the end.
pub open spec fn without_muted_audio(muted: bool, events: Seq<Occurrence>) -> Seq<Occurrence>
    decreases events.len(),
{
    if events.len() == 0 {
        events
    } else {
        let before = without_muted_audio(muted, events.drop_last());
        if events.last().event is AgentAudio && muted_after(muted, events.drop_last()) {
            before
        } else {
            before.push(events.last())
        }
    }
}

/// The events without any audio.
pub open spec fn without_audio(events: Seq<Occurrence>) -> Seq<Occurrence>
    decreases events.len(),
{
    if events.len() == 0 {
        events
    } else {
        let before = without_audio(events.drop_last());
        if events.last().event is AgentAudio || events.last().event is UserAudio {
            before
        } else {
            before.push(events.last())
        }
    }
}

/// Recording one more event.
proof fn lemma_records_push(from: RecorderView, events: Seq<Occurrence>, e: Occurrence, to: RecorderView)
    ensures
        records_all(from, events.push(e), to) <==> exists|mid: RecorderView|
            records_all(from, events, mid) && #[trigger] mid.records(
                e.event,
                e.pcm,
                e.timestamp,
                e.elapsed_ns,
                to,
            ),
{
    assert(events.push(e).drop_last() =~= events);
}

/// After any events the agent is muted exactly where an interrupt was not followed by the start of
/// a turn.
proof fn lemma_muted_after(from: RecorderView, events: Seq<Occurrence>, to: RecorderView)
    requires
        records_all(from, events, to),
    ensures
        to.track.agent_muted == muted_after(from.track.agent_muted, events),
    decreases events.len(),
{
    if events.len() > 0 {
        let e = events.last();
        let mid = choose|mid: RecorderView|
            records_all(from, events.drop_last(), mid) && #[trigger] mid.records(
                e.event,
                e.pcm,
                e.timestamp,
                e.elapsed_ns,
                to,
            );
        lemma_muted_after(from, events.drop_last(), mid);
    }
}

/// After any events, a chunk of agent audio is dropped where an interrupt was not followed by the
/// start of a turn; otherwise it is recorded, unless the longest recording is reached.
pub proof fn law_muted_between_interrupt_and_turn(
    from: RecorderView,
    events: Seq<Occurrence>,
    to: RecorderView,
    bytes: Seq<u8>,
    chunk_rate: u32,
    offset: u64,
)
    requires
        records_all(from, events, to),
    ensures
        muted_after(from.track.agent_muted, events) ==> to.track.after_agent(
            bytes,
            chunk_rate,
            offset,
        ) == to.track,
        !muted_after(from.track.agent_muted, events) && !to.track.duration_capped
            ==> to.track.after_agent(bytes, chunk_rate, offset).agent
            == crate::recording::mix::placed(
            to.track.agent,
            crate::pcm::samples_of(bytes),
            to.track.agent_start(chunk_rate, offset) as nat,
        ),
{
    lemma_muted_after(from, events, to);
}

/// Agent audio between a barge-in and the next start of a turn is never recorded: whatever happens,
/// the recording and the transcript are those that the events without that audio make.
pub proof fn law_interrupted_audio_is_not_recorded(
    from: RecorderView,
    events: Seq<Occurrence>,
    to: RecorderView,
)
    ensures
        records_all(from, events, to) <==> records_all(
            from,
            without_muted_audio(from.track.agent_muted, events),
            to,
        ),
    decreases events.len(),
{
    if events.len() > 0 {
        let e = events.last();
        let rest = events.drop_last();
        let muted = from.track.agent_muted;
        let kept = without_muted_audio(muted, rest);
        assert forall|mid: RecorderView|
            #![trigger mid.records(e.event, e.pcm, e.timestamp, e.elapsed_ns, to)]
            records_all(from, rest, mid) == records_all(from, kept, mid) by {
            law_interrupted_audio_is_not_recorded(from, rest, mid);
        }
        if e.event is AgentAudio && muted_after(muted, rest) {
            assert forall|mid: RecorderView| records_all(from, rest, mid) implies (
            #[trigger] mid.records(e.event, e.pcm, e.timestamp, e.elapsed_ns, to) <==> to
                == mid) by {
                lemma_muted_after(from, rest, mid);
            }
            law_interrupted_audio_is_not_recorded(from, rest, to);
            if records_all(from, rest, to) {
                assert(to.records(e.event, e.pcm, e.timestamp, e.elapsed_ns, to));
            }
        } else {
            lemma_records_push(from, kept, e, to);
        }
    }
}

/// A recording that is capped stays so, whatever happens.
proof fn lemma_capped_stays(from: RecorderView, events: Seq<Occurrence>, to: RecorderView)
    requires
        from.track.duration_capped,
        records_all(from, events, to),
    ensures
        to.track.duration_capped,
    decreases events.len(),
{
    if events.len() > 0 {
        let e = events.last();
        let mid = choose|mid: RecorderView|
            records_all(from, events.drop_last(), mid) && #[trigger] mid.records(
                e.event,
                e.pcm,
                e.timestamp,
                e.elapsed_ns,
                to,
            );
        lemma_capped_stays(from, events.drop_last(), mid);
    }
}

/// Once one timeline is as long as the longest recording, no more audio is recorded: whatever
/// happens from then on, the recording and the transcript are those that the events without their
/// audio make. So the transcript goes on as it would.
pub proof fn law_capped_recording_takes_no_audio(
    from: RecorderView,
    events: Seq<Occurrence>,
    to: RecorderView,
)
    requires
        from.track.wf(),
        from.track.reaches_cap(
            crate::recording::mix::longer(from.track.user.len(), from.track.agent.len()),
        ) || from.track.duration_capped,
    ensures
        records_all(from, events, to) <==> records_all(from, without_audio(events), to),
    decreases events.len(),
{
    if events.len() > 0 {
        let e = events.last();
        let rest = events.drop_last();
        let kept = without_audio(rest);
        assert forall|mid: RecorderView|
            #![trigger mid.records(e.event, e.pcm, e.timestamp, e.elapsed_ns, to)]
            records_all(from, rest, mid) == records_all(from, kept, mid) by {
            law_capped_recording_takes_no_audio(from, rest, mid);
        }
        if e.event is AgentAudio || e.event is UserAudio {
            assert forall|mid: RecorderView| records_all(from, rest, mid) implies (
            #[trigger] mid.records(e.event, e.pcm, e.timestamp, e.elapsed_ns, to) <==> to
                == mid) by {
                lemma_capped_stays(from, rest, mid);
            }
            law_capped_recording_takes_no_audio(from, rest, to);
            if records_all(from, rest, to) {
                assert(to.records(e.event, e.pcm, e.timestamp, e.elapsed_ns, to));
            }
        } else {
            lemma_records_push(from, kept, e, to);
        }
    }
}

/// What an assistant says is dated to the audio that opened its stretch of speech, where nothing was
/// logged for the assistant in between.
pub proof fn law_assistant_is_dated_to_its_audio(
    r: RecorderView,
    audio: Event,
    pcm: Seq<u8>,
    started: String,
    heard_ns: u64,
    mid: RecorderView,
    message: Event,
    later: String,
    said_ns: u64,
    to: RecorderView,
)
    requires
        audio matches Event::AgentAudio { sample_rate, offset_samples, .. } && r.track.snaps(
            sample_rate,
            offset_samples,
        ),
        message matches Event::Transcript { role, .. } && role@ == "assistant"@,
        r.records(audio, pcm, started, heard_ns, mid),
        mid.records(message, Seq::empty(), later, said_ns, to),
    ensures
        mid.log.entries == r.log.entries,
        to.log.entries.len() == r.log.entries.len() + 1,
        to.log.entries.last() matches crate::recording::transcript::TranscriptEntry::Message {
            timestamp,
            ..
        } && timestamp == started,
        to.track == mid.track,
{
}

/// Audio of a side changes the timeline of that side alone, and nothing but audio, a barge-in and the
/// start of a turn changes either.
pub proof fn law_sides_are_recorded_apart(
    r: RecorderView,
    event: Event,
    pcm: Seq<u8>,
    timestamp: String,
    elapsed_ns: u64,
    to: RecorderView,
)
    requires
        r.records(event, pcm, timestamp, elapsed_ns, to),
    ensures
        event is UserAudio ==> to.track.agent == r.track.agent && to.log == r.log,
        event is AgentAudio ==> to.track.user == r.track.user && to.log.entries == r.log.entries,
        !(event is UserAudio) && !(event is AgentAudio) && !(event is Interrupt) ==> to.track.user
            == r.track.user && to.track.agent == r.track.agent,
        event is Interrupt ==> to.track.user == r.track.user && to.log == r.log,
        step_of(event) is Finish <==> event is SessionEnded,
        step_of(event) is ResetAgentResamplers <==> event is Interrupt,
{
}

/// Audio is taken as it is at the recording rate, resampled from every other rate, and dropped once
/// the recording is capped or, for the agent's, while the agent is muted.
pub proof fn law_audio_is_brought_to_the_recording_rate(r: RecorderView, event: Event)
    ensures
        event matches Event::UserAudio { sample_rate, .. } ==> {
            &&& audio_plan_of(r, event) is Drop <==> r.track.duration_capped
            &&& !r.track.duration_capped ==> (audio_plan_of(r, event) is Direct <==> sample_rate
                == r.track.sample_rate)
        },
        event matches Event::AgentAudio { sample_rate, .. } ==> {
            &&& audio_plan_of(r, event) is Drop <==> r.track.duration_capped || r.track.agent_muted
            &&& !(audio_plan_of(r, event) is Drop) ==> (audio_plan_of(r, event) is Direct
                <==> sample_rate == r.track.sample_rate)
        },
        !(event is UserAudio) && !(event is AgentAudio) ==> audio_plan_of(r, event) is Drop,
{
}

} // verus!
