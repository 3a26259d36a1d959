//! Per-turn latency metrics.
//!
//! The [`TurnTracker`] keeps the instants of the key pipeline stages and computes the latency
//! breakdown when the turn completes.
use crate::clock::{ms_between_opt, ms_or_zero, Millis};
use vstd::prelude::*;

verus! {

/// Latency breakdown of one turn.
#[derive(Clone, Copy, Debug, PartialEq, Eq, Structural)]
pub struct TurnMetrics {
    /// Monotonic turn counter within the session.
    pub turn_id: u64,
    /// How long silence lasted before speech counted as ended.
    pub vad_silence_ms: Millis,
    /// From the end of speech to the end-of-utterance decision.
    pub eou_delay_ms: Millis,
    /// From the end-of-utterance decision to the transcript.
    pub stt_ms: Millis,
    /// From the transcript to the first model token.
    pub llm_first_token_ms: Millis,
    /// From the first text fed to synthesis to the first audio chunk.
    pub tts_first_audio_ms: Millis,
    /// From the end-of-utterance decision to the first audio chunk.
    pub ttfa_ms: Millis,
    /// From the end-of-utterance decision to the end of synthesis, or to the end of the turn where
    /// that was not marked.
    pub total_ms: Millis,
    /// From the start of synthesis to its end, or to the end of the turn where that was not marked.
    pub tts_duration_ms: Millis,
    /// From the end of speech to the first audio chunk.
    pub user_agent_latency_ms: Option<Millis>,
    /// Duration of the user's speech.
    pub input_audio_duration_ms: Millis,
    /// Duration of the generated speech.
    pub output_audio_duration_ms: Millis,
    /// From the start of user speech to the transcript.
    pub stt_total_duration_ms: Millis,
    /// From the finalize signal to the first recognised text.
    pub stt_ttfb_ms: Option<Millis>,
    /// From the first text fed to synthesis to the first audio chunk.
    pub tts_ttfb_ms: Option<Millis>,
    /// From the first text fed to synthesis to the end of synthesis.
    pub tts_total_duration_ms: Millis,
    /// From the first model token to the first text fed to synthesis.
    pub text_aggregation_ms: Option<Millis>,
}

/// Timing anchors of user input.
#[derive(Clone, Copy, Debug, PartialEq, Eq, Structural)]
pub struct InteractionAnchors {
    pub vad_speech_ended: Option<u64>,
    pub stt_audio_start: Option<u64>,
    pub stt_finalize_sent: Option<u64>,
    pub stt_first_text: Option<u64>,
    pub transcript: Option<u64>,
    pub input_audio_duration_ms: Millis,
}

/// Timing anchors of the turn pipeline.
#[derive(Clone, Copy, Debug, PartialEq, Eq, Structural)]
pub struct PipelineAnchors {
    pub speech_ended: Option<u64>,
    pub llm_first_token: Option<u64>,
    pub tts_start: Option<u64>,
    pub tts_text_fed: Option<u64>,
    pub tts_first_audio: Option<u64>,
    pub tts_finished: Option<u64>,
    pub output_audio_duration_ms: Millis,
}

/// No input anchor set.
pub open spec fn no_input() -> InteractionAnchors {
    InteractionAnchors {
        vad_speech_ended: None,
        stt_audio_start: None,
        stt_finalize_sent: None,
        stt_first_text: None,
        transcript: None,
        input_audio_duration_ms: crate::clock::millis(0),
    }
}

/// No pipeline anchor set.
pub open spec fn no_pipeline() -> PipelineAnchors {
    PipelineAnchors {
        speech_ended: None,
        llm_first_token: None,
        tts_start: None,
        tts_text_fed: None,
        tts_first_audio: None,
        tts_finished: None,
        output_audio_duration_ms: crate::clock::millis(0),
    }
}

impl Default for InteractionAnchors {
    fn default() -> (a: Self)
        ensures
            a == no_input(),
    {
        InteractionAnchors {
            vad_speech_ended: None,
            stt_audio_start: None,
            stt_finalize_sent: None,
            stt_first_text: None,
            transcript: None,
            input_audio_duration_ms: Millis { ns: 0 },
        }
    }
}

impl Default for PipelineAnchors {
    fn default() -> (a: Self)
        ensures
            a == no_pipeline(),
    {
        PipelineAnchors {
            speech_ended: None,
            llm_first_token: None,
            tts_start: None,
            tts_text_fed: None,
            tts_first_audio: None,
            tts_finished: None,
            output_audio_duration_ms: Millis { ns: 0 },
        }
    }
}

/// Keeps the instants of the key points within a single user turn.
///
/// Pending input is kept apart from the active turn, so that the input anchors of a barge-in
/// survive the cancellation of the turn before it.
#[derive(Clone, Copy, Debug, PartialEq, Eq, Structural)]
pub struct TurnTracker {
    pub vad_silence_ms: Millis,
    /// User input being tracked, before or during the current turn.
    pub input: InteractionAnchors,
    /// User input that was committed to the current turn.
    pub committed_input: InteractionAnchors,
    /// Pipeline activity of the current turn.
    pub pipeline: PipelineAnchors,
}

/// The value already there, or `now` where there is none.
pub open spec fn first_write(old_value: Option<u64>, now: u64) -> Option<u64> {
    match old_value {
        Some(t) => Some(t),
        None => Some(now),
    }
}

fn keep_first(old_value: Option<u64>, now: u64) -> (r: Option<u64>)
    ensures
        r == first_write(old_value, now),
{
    match old_value {
        Some(t) => Some(t),
        None => Some(now),
    }
}

/// The instant `back` before `now`, or `now` where the clock does not reach back that far.
pub open spec fn backdated(now: u64, back: Millis) -> u64 {
    if now >= back.ns {
        (now - back.ns) as u64
    } else {
        now
    }
}

/// A call that changes a tracker.
pub enum TrackerCall {
    SetVadSilence { ms: Millis },
    MarkVadSpeechEnded { now: u64 },
    SetInputAudioDuration { ms: Millis },
    MarkSpeechEnded { now: u64 },
    MarkSttAudioStart { now: u64 },
    MarkSttFinalizeSent { now: u64 },
    MarkSttFirstText { now: u64 },
    MarkTranscript { now: u64 },
    MarkLlmFirstToken { now: u64 },
    MarkTtsStart { now: u64 },
    MarkTtsTextFed { now: u64 },
    MarkTtsFirstAudio { now: u64 },
    MarkTtsFinished { now: u64 },
    CommitInputAnchors,
    SetOutputAudioDuration { ms: Millis },
    ResetPipeline,
    ResetInput,
    Reset,
    Finish { turn_id: u64, now: u64 },
}

impl TurnTracker {
    /// The input that the metrics of this turn speak of: the committed input where it has a
    /// transcript, else the pending input.
    pub open spec fn metrics_input(self) -> InteractionAnchors {
        if self.committed_input.transcript is Some {
            self.committed_input
        } else {
            self.input
        }
    }

    /// Synthesis metrics at `now`: total duration, time to first byte, text aggregation time.
    pub open spec fn tts_metrics_at(self, now: u64) -> (Millis, Option<Millis>, Option<Millis>) {
        let end = first_write(self.pipeline.tts_finished, now);
        (
            crate::clock::or_zero(crate::clock::span_opt(self.pipeline.tts_text_fed, end)),
            crate::clock::span_opt(self.pipeline.tts_text_fed, self.pipeline.tts_first_audio),
            crate::clock::span_opt(self.pipeline.llm_first_token, self.pipeline.tts_text_fed),
        )
    }

    /// Recognition metrics at `now`: total duration, time to first byte.
    pub open spec fn stt_metrics_at(self, now: u64) -> (Millis, Option<Millis>) {
        let input = self.metrics_input();
        let end = first_write(input.transcript, now);
        (
            crate::clock::or_zero(crate::clock::span_opt(input.stt_audio_start, end)),
            crate::clock::span_opt(input.stt_finalize_sent, input.stt_first_text),
        )
    }

    /// The metrics of a turn that ends at `now`; none where no turn was started.
    pub open spec fn metrics_at(self, turn_id: u64, now: u64) -> Option<TurnMetrics> {
        match self.pipeline.speech_ended {
            None => None,
            Some(start) => {
                let input = self.metrics_input();
                let p = self.pipeline;
                let stt = self.stt_metrics_at(now);
                let tts = self.tts_metrics_at(now);
                let end = first_write(p.tts_finished, now);
                Some(
                    TurnMetrics {
                        turn_id,
                        vad_silence_ms: self.vad_silence_ms,
                        eou_delay_ms: crate::clock::or_zero(
                            crate::clock::span_opt(input.vad_speech_ended, Some(start)),
                        ),
                        stt_ms: crate::clock::or_zero(
                            crate::clock::span_opt(Some(start), input.transcript),
                        ),
                        llm_first_token_ms: crate::clock::or_zero(
                            crate::clock::span_opt(input.transcript, p.llm_first_token),
                        ),
                        tts_first_audio_ms: crate::clock::or_zero(
                            crate::clock::span_opt(p.tts_text_fed, p.tts_first_audio),
                        ),
                        ttfa_ms: crate::clock::or_zero(
                            crate::clock::span_opt(Some(start), p.tts_first_audio),
                        ),
                        total_ms: crate::clock::or_zero(crate::clock::span_opt(Some(start), end)),
                        tts_duration_ms: crate::clock::or_zero(
                            crate::clock::span_opt(p.tts_start, end),
                        ),
                        user_agent_latency_ms: crate::clock::span_opt(
                            input.vad_speech_ended,
                            p.tts_first_audio,
                        ),
                        input_audio_duration_ms: input.input_audio_duration_ms,
                        output_audio_duration_ms: p.output_audio_duration_ms,
                        stt_total_duration_ms: stt.0,
                        stt_ttfb_ms: stt.1,
                        tts_ttfb_ms: tts.1,
                        tts_total_duration_ms: tts.0,
                        text_aggregation_ms: tts.2,
                    },
                )
            },
        }
    }

    /// The tracker after a barge-in: pipeline and committed input cleared, pending input kept.
    pub open spec fn without_pipeline(self) -> TurnTracker {
        TurnTracker { pipeline: no_pipeline(), committed_input: no_input(), ..self }
    }

    /// The tracker with the pending input frozen for the current turn.
    pub open spec fn with_committed_input(self) -> TurnTracker {
        TurnTracker { committed_input: self.input, input: no_input(), ..self }
    }

    /// The tracker of a fresh session.
    pub open spec fn fresh() -> TurnTracker {
        TurnTracker {
            vad_silence_ms: crate::clock::millis(0),
            input: no_input(),
            committed_input: no_input(),
            pipeline: no_pipeline(),
        }
    }

    /// The tracker after a call. Of marks that can come more than once in a turn, the first counts
    /// where the instant is that of something first, else the last.
    pub open spec fn after(self, call: TrackerCall) -> TurnTracker {
        match call {
            TrackerCall::SetVadSilence { ms } => TurnTracker { vad_silence_ms: ms, ..self },
            TrackerCall::MarkVadSpeechEnded { now } => TurnTracker {
                input: InteractionAnchors {
                    vad_speech_ended: Some(backdated(now, self.vad_silence_ms)),
                    ..self.input
                },
                ..self
            },
            TrackerCall::SetInputAudioDuration { ms } => TurnTracker {
                input: InteractionAnchors { input_audio_duration_ms: ms, ..self.input },
                ..self
            },
            TrackerCall::MarkSpeechEnded { now } => TurnTracker {
                pipeline: PipelineAnchors {
                    speech_ended: first_write(self.pipeline.speech_ended, now),
                    ..self.pipeline
                },
                ..self
            },
            TrackerCall::MarkSttAudioStart { now } => TurnTracker {
                input: InteractionAnchors {
                    stt_audio_start: first_write(self.input.stt_audio_start, now),
                    ..self.input
                },
                ..self
            },
            TrackerCall::MarkSttFinalizeSent { now } => TurnTracker {
                input: InteractionAnchors { stt_finalize_sent: Some(now), ..self.input },
                ..self
            },
            TrackerCall::MarkSttFirstText { now } => TurnTracker {
                input: InteractionAnchors {
                    stt_first_text: first_write(self.input.stt_first_text, now),
                    ..self.input
                },
                ..self
            },
            TrackerCall::MarkTranscript { now } => TurnTracker {
                input: InteractionAnchors { transcript: Some(now), ..self.input },
                ..self
            },
            TrackerCall::MarkLlmFirstToken { now } => TurnTracker {
                pipeline: PipelineAnchors {
                    llm_first_token: first_write(self.pipeline.llm_first_token, now),
                    ..self.pipeline
                },
                ..self
            },
            TrackerCall::MarkTtsStart { now } => TurnTracker {
                pipeline: PipelineAnchors {
                    tts_start: first_write(self.pipeline.tts_start, now),
                    ..self.pipeline
                },
                ..self
            },
            TrackerCall::MarkTtsTextFed { now } => TurnTracker {
                pipeline: PipelineAnchors {
                    tts_text_fed: first_write(self.pipeline.tts_text_fed, now),
                    ..self.pipeline
                },
                ..self
            },
            TrackerCall::MarkTtsFirstAudio { now } => TurnTracker {
                pipeline: PipelineAnchors {
                    tts_first_audio: first_write(self.pipeline.tts_first_audio, now),
                    ..self.pipeline
                },
                ..self
            },
            TrackerCall::MarkTtsFinished { now } => TurnTracker {
                pipeline: PipelineAnchors { tts_finished: Some(now), ..self.pipeline },
                ..self
            },
            TrackerCall::CommitInputAnchors => self.with_committed_input(),
            TrackerCall::SetOutputAudioDuration { ms } => TurnTracker {
                pipeline: PipelineAnchors { output_audio_duration_ms: ms, ..self.pipeline },
                ..self
            },
            TrackerCall::ResetPipeline => self.without_pipeline(),
            TrackerCall::ResetInput => TurnTracker { input: no_input(), ..self },
            TrackerCall::Reset => TurnTracker {
                vad_silence_ms: self.vad_silence_ms,
                ..TurnTracker::fresh()
            },
            TrackerCall::Finish { turn_id, now } => if self.metrics_at(turn_id, now) is Some {
                self.without_pipeline()
            } else {
                self
            },
        }
    }

    /// A tracker without anchors.
    pub fn new() -> (t: Self)
        ensures
            t == TurnTracker::fresh(),
    {
        TurnTracker {
            vad_silence_ms: Millis { ns: 0 },
            input: InteractionAnchors::default(),
            committed_input: InteractionAnchors::default(),
            pipeline: PipelineAnchors::default(),
        }
    }

    /// Sets the silence window by which the end of speech is backdated.
    pub fn set_vad_silence_ms(&mut self, ms: Millis)
        ensures
            *final(self) == old(self).after(TrackerCall::SetVadSilence { ms }),
    {
        self.vad_silence_ms = ms;
    }

    /// The silence window.
    pub fn vad_silence_ms(&self) -> (ms: Millis)
        ensures
            ms == self.vad_silence_ms,
    {
        self.vad_silence_ms
    }

    /// Speech has ended: records `now`, backdated by the silence window.
    pub fn mark_vad_speech_ended(&mut self, now: u64)
        ensures
            *final(self) == old(self).after(TrackerCall::MarkVadSpeechEnded { now }),
    {
        let back: u64 = self.vad_silence_ms.ns;
        let at: u64 = if now >= back {
            now - back
        } else {
            now
        };
        self.input.vad_speech_ended = Some(at);
    }

    /// Sets the duration of the user's speech.
    pub fn set_input_audio_duration(&mut self, ms: Millis)
        ensures
            *final(self) == old(self).after(TrackerCall::SetInputAudioDuration { ms }),
    {
        self.input.input_audio_duration_ms = ms;
    }

    /// The end-of-utterance decision is committed. The first call of a turn counts.
    pub fn mark_speech_ended(&mut self, now: u64)
        ensures
            *final(self) == old(self).after(TrackerCall::MarkSpeechEnded { now }),
    {
        self.pipeline.speech_ended = keep_first(self.pipeline.speech_ended, now);
    }

    /// Recognition streaming has started. The first call counts.
    pub fn mark_stt_audio_start(&mut self, now: u64)
        ensures
            *final(self) == old(self).after(TrackerCall::MarkSttAudioStart { now }),
    {
        self.input.stt_audio_start = keep_first(self.input.stt_audio_start, now);
    }

    /// The finalize signal was sent to the recogniser. The last call counts.
    pub fn mark_stt_finalize_sent(&mut self, now: u64)
        ensures
            *final(self) == old(self).after(TrackerCall::MarkSttFinalizeSent { now }),
    {
        self.input.stt_finalize_sent = Some(now);
    }

    /// The first partial text was recognised. The first call counts.
    pub fn mark_stt_first_text(&mut self, now: u64)
        ensures
            *final(self) == old(self).after(TrackerCall::MarkSttFirstText { now }),
    {
        self.input.stt_first_text = keep_first(self.input.stt_first_text, now);
    }

    /// The final transcript has come. The last call counts.
    pub fn mark_transcript(&mut self, now: u64)
        ensures
            *final(self) == old(self).after(TrackerCall::MarkTranscript { now }),
    {
        self.input.transcript = Some(now);
    }

    /// The first model token has come. The first call of a turn counts.
    pub fn mark_llm_first_token(&mut self, now: u64)
        ensures
            *final(self) == old(self).after(TrackerCall::MarkLlmFirstToken { now }),
    {
        self.pipeline.llm_first_token = keep_first(self.pipeline.llm_first_token, now);
    }

    /// Synthesis has started. The first call of a turn counts.
    pub fn mark_tts_start(&mut self, now: u64)
        ensures
            *final(self) == old(self).after(TrackerCall::MarkTtsStart { now }),
    {
        self.pipeline.tts_start = keep_first(self.pipeline.tts_start, now);
    }

    /// The first text was fed to synthesis. The first call of a turn counts.
    pub fn mark_tts_text_fed(&mut self, now: u64)
        ensures
            *final(self) == old(self).after(TrackerCall::MarkTtsTextFed { now }),
    {
        self.pipeline.tts_text_fed = keep_first(self.pipeline.tts_text_fed, now);
    }

    /// Whether text was fed to synthesis in this turn.
    pub fn has_tts_text_fed(&self) -> (r: bool)
        ensures
            r == (self.pipeline.tts_text_fed is Some),
    {
        self.pipeline.tts_text_fed.is_some()
    }

    /// The first audio chunk was sent. The first call of a turn counts.
    pub fn mark_tts_first_audio(&mut self, now: u64)
        ensures
            *final(self) == old(self).after(TrackerCall::MarkTtsFirstAudio { now }),
    {
        self.pipeline.tts_first_audio = keep_first(self.pipeline.tts_first_audio, now);
    }

    /// Synthesis has finished. The last call counts.
    pub fn mark_tts_finished(&mut self, now: u64)
        ensures
            *final(self) == old(self).after(TrackerCall::MarkTtsFinished { now }),
    {
        self.pipeline.tts_finished = Some(now);
    }

    /// Synthesis metrics: total duration, time to first byte, text aggregation time.
    ///
    /// The end of synthesis counts as the end, or `now` where it was not marked.
    pub fn tts_metrics(&self, now: u64) -> (m: (Millis, Option<Millis>, Option<Millis>))
        ensures
            m == self.tts_metrics_at(now),
    {
        let end = keep_first(self.pipeline.tts_finished, now);
        (
            ms_or_zero(ms_between_opt(self.pipeline.tts_text_fed, end)),
            ms_between_opt(self.pipeline.tts_text_fed, self.pipeline.tts_first_audio),
            ms_between_opt(self.pipeline.llm_first_token, self.pipeline.tts_text_fed),
        )
    }

    /// Recognition metrics: total duration, time to first byte.
    pub fn stt_metrics(&self, now: u64) -> (m: (Millis, Option<Millis>))
        ensures
            m == self.stt_metrics_at(now),
    {
        let input = if self.committed_input.transcript.is_some() {
            self.committed_input
        } else {
            self.input
        };
        let end = keep_first(input.transcript, now);
        (
            ms_or_zero(ms_between_opt(input.stt_audio_start, end)),
            ms_between_opt(input.stt_finalize_sent, input.stt_first_text),
        )
    }

    /// Freezes the pending input for the current turn and clears it for the next one.
    pub fn commit_input_anchors(&mut self)
        ensures
            *final(self) == old(self).after(TrackerCall::CommitInputAnchors),
    {
        self.committed_input = self.input;
        self.reset_input();
    }

    /// Sets the duration of the generated speech.
    pub fn set_output_audio_duration(&mut self, ms: Millis)
        ensures
            *final(self) == old(self).after(TrackerCall::SetOutputAudioDuration { ms }),
    {
        self.pipeline.output_audio_duration_ms = ms;
    }

    /// Ends the turn: computes its metrics and clears the pipeline.
    ///
    /// Without a started turn there are no metrics and nothing changes. Pending input is kept in
    /// either case: the user may already be speaking again.
    pub fn finish(&mut self, turn_id: u64, now: u64) -> (m: Option<TurnMetrics>)
        ensures
            m == old(self).metrics_at(turn_id, now),
            *final(self) == old(self).after(TrackerCall::Finish { turn_id, now }),
    {
        let start: u64 = match self.pipeline.speech_ended {
            Some(t) => t,
            None => return None,
        };
        let input = if self.committed_input.transcript.is_some() {
            self.committed_input
        } else {
            self.input
        };
        let (stt_total_duration_ms, stt_ttfb_ms) = self.stt_metrics(now);
        let (tts_total_duration_ms, tts_ttfb_ms, text_aggregation_ms) = self.tts_metrics(now);
        let end = keep_first(self.pipeline.tts_finished, now);
        let metrics = TurnMetrics {
            turn_id,
            vad_silence_ms: self.vad_silence_ms,
            eou_delay_ms: ms_or_zero(ms_between_opt(input.vad_speech_ended, Some(start))),
            stt_ms: ms_or_zero(ms_between_opt(Some(start), input.transcript)),
            llm_first_token_ms: ms_or_zero(
                ms_between_opt(input.transcript, self.pipeline.llm_first_token),
            ),
            tts_first_audio_ms: ms_or_zero(
                ms_between_opt(self.pipeline.tts_text_fed, self.pipeline.tts_first_audio),
            ),
            ttfa_ms: ms_or_zero(ms_between_opt(Some(start), self.pipeline.tts_first_audio)),
            total_ms: ms_or_zero(ms_between_opt(Some(start), end)),
            tts_duration_ms: ms_or_zero(ms_between_opt(self.pipeline.tts_start, end)),
            user_agent_latency_ms: ms_between_opt(
                input.vad_speech_ended,
                self.pipeline.tts_first_audio,
            ),
            input_audio_duration_ms: input.input_audio_duration_ms,
            output_audio_duration_ms: self.pipeline.output_audio_duration_ms,
            stt_total_duration_ms,
            stt_ttfb_ms,
            tts_ttfb_ms,
            tts_total_duration_ms,
            text_aggregation_ms,
        };
        self.reset_pipeline();
        Some(metrics)
    }

    /// Clears the turn pipeline and the committed input; pending input is kept.
    pub fn reset_pipeline(&mut self)
        ensures
            *final(self) == old(self).after(TrackerCall::ResetPipeline),
    {
        self.pipeline = PipelineAnchors::default();
        self.committed_input = InteractionAnchors::default();
    }

    /// Clears the pending input only.
    pub fn reset_input(&mut self)
        ensures
            *final(self) == old(self).after(TrackerCall::ResetInput),
    {
        self.input = InteractionAnchors::default();
    }

    /// Clears every anchor; the silence window stays.
    pub fn reset(&mut self)
        ensures
            *final(self) == old(self).after(TrackerCall::Reset),
    {
        self.reset_pipeline();
        self.reset_input();
    }
}

impl Default for TurnTracker {
    fn default() -> (t: Self)
        ensures
            t == TurnTracker::fresh(),
    {
        TurnTracker::new()
    }
}

/// A barge-in does not lose the user's pending input: cancelling the turn and committing gives the
/// new turn exactly the anchors that were pending.
pub proof fn law_barge_in_keeps_pending_input(t: TurnTracker)
    ensures
        t.without_pipeline().with_committed_input().committed_input == t.input,
        t.without_pipeline().input == t.input,
{
}

/// The breakdown of a turn is consistent: the time to first audio as reported for the pipeline and
/// for the service agree; where audio came before synthesis ended, the whole turn lasts at least as
/// long as the wait for its first audio; and where synthesis started before text was fed to it, it
/// lasts at least as long as the service took for that text.
pub proof fn law_metrics_consistent(t: TurnTracker, turn_id: u64, now: u64)
    requires
        t.metrics_at(turn_id, now) is Some,
    ensures
        ({
            let m = t.metrics_at(turn_id, now)->0;
            let p = t.pipeline;
            let end = first_write(p.tts_finished, now)->0;
            &&& m.tts_first_audio_ms == crate::clock::or_zero(m.tts_ttfb_ms)
            &&& (p.tts_first_audio matches Some(a) ==> a <= end) ==> m.ttfa_ms.ns <= m.total_ms.ns
            &&& p.tts_start is Some && p.tts_text_fed is Some && p.tts_start->0
                <= p.tts_text_fed->0 ==> m.tts_total_duration_ms.ns <= m.tts_duration_ms.ns
        }),
{
}

/// A mark of which the first call counts is not moved by a later call.
pub proof fn law_first_write_wins(old_value: Option<u64>, first: u64, second: u64)
    ensures
        first_write(first_write(old_value, first), second) == first_write(old_value, first),
{
}

/// The tracker of a session after the given calls.
pub open spec fn after_calls(calls: Seq<TrackerCall>) -> TurnTracker
    decreases calls.len(),
{
    if calls.len() == 0 {
        TurnTracker::fresh()
    } else {
        after_calls(calls.drop_last()).after(calls.last())
    }
}

/// Whether call `i` clears the turn: a reset of everything or of the pipeline, or a finish that gave
/// metrics.
pub open spec fn clears_turn(calls: Seq<TrackerCall>, i: int) -> bool {
    match calls[i] {
        TrackerCall::Reset | TrackerCall::ResetPipeline => true,
        TrackerCall::Finish { turn_id, now } => after_calls(calls.take(i)).metrics_at(
            turn_id,
            now,
        ) is Some,
        _ => false,
    }
}

/// Whether call `i` marks the end of speech and no later call clears the turn.
pub open spec fn marked_last_at(calls: Seq<TrackerCall>, i: int) -> bool {
    &&& 0 <= i < calls.len()
    &&& calls[i] is MarkSpeechEnded
    &&& forall|j: int| i < j < calls.len() ==> !#[trigger] clears_turn(calls, j)
}

/// Whether the end of speech was marked after the turn was cleared last.
pub open spec fn speech_end_marked(calls: Seq<TrackerCall>) -> bool {
    exists|i: int| marked_last_at(calls, i)
}

/// The end of speech is known exactly where it was marked after the turn was cleared last.
proof fn lemma_speech_end_known(calls: Seq<TrackerCall>)
    ensures
        after_calls(calls).pipeline.speech_ended is Some <==> speech_end_marked(calls),
    decreases calls.len(),
{
    if calls.len() > 0 {
        let n = calls.len() - 1;
        let before = calls.drop_last();
        lemma_speech_end_known(before);
        assert(calls.take(n) =~= before);
        assert forall|j: int| 0 <= j < n implies #[trigger] clears_turn(calls, j) == clears_turn(
            before,
            j,
        ) by {
            assert(calls.take(j) =~= before.take(j));
        }
        assert forall|i: int| 0 <= i < n implies #[trigger] marked_last_at(calls, i) == (
        marked_last_at(before, i) && !clears_turn(calls, n)) by {
            if marked_last_at(calls, i) {
                assert forall|j: int| i < j < n implies !#[trigger] clears_turn(before, j) by {
                    assert(!clears_turn(calls, j));
                }
            }
        }
        if speech_end_marked(before) && !clears_turn(calls, n) {
            let i = choose|i: int| marked_last_at(before, i);
            assert(marked_last_at(calls, i));
        }
        if calls[n] is MarkSpeechEnded {
            assert(marked_last_at(calls, n));
        } else if speech_end_marked(calls) {
            let i = choose|i: int| marked_last_at(calls, i);
            assert(marked_last_at(before, i));
        }
    }
}

/// Whatever calls came before, finishing a turn gives metrics exactly where the end of speech was
/// marked after the tracker was made, reset, its pipeline reset, or a turn finished with metrics,
/// whichever came last. The metrics are those of the turn that was asked for, and finishing again at
/// once gives none.
pub proof fn law_finish_needs_a_marked_turn(
    calls: Seq<TrackerCall>,
    turn_id: u64,
    now: u64,
    next_id: u64,
    later: u64,
)
    ensures
        after_calls(calls).metrics_at(turn_id, now) is Some <==> speech_end_marked(calls),
        after_calls(calls).metrics_at(turn_id, now) matches Some(m) ==> m.turn_id == turn_id,
        after_calls(calls.push(TrackerCall::Finish { turn_id, now })).metrics_at(
            next_id,
            later,
        ) is None,
{
    lemma_speech_end_known(calls);
    assert(calls.push(TrackerCall::Finish { turn_id, now }).drop_last() =~= calls);
}

/// `m` is the time from `a` to `b`, or nothing where either is not known.
pub open spec fn measures(m: Millis, a: Option<u64>, b: Option<u64>) -> bool {
    match (a, b) {
        (Some(x), Some(y)) => (x <= y ==> x + m.ns == y) && (x > y ==> m.ns == 0),
        _ => m.ns == 0,
    }
}

/// `m` is the time from `a` to `b`, known exactly where both are.
pub open spec fn measures_known(m: Option<Millis>, a: Option<u64>, b: Option<u64>) -> bool {
    match m {
        Some(x) => a is Some && b is Some && measures(x, a, b),
        None => a is None || b is None,
    }
}

/// Each latency of a turn is the time between the two marks that it is named after, whatever the
/// other marks are.
pub proof fn law_latencies_lie_between_their_marks(t: TurnTracker, turn_id: u64, now: u64)
    requires
        t.metrics_at(turn_id, now) is Some,
    ensures
        ({
            let m = t.metrics_at(turn_id, now)->0;
            let p = t.pipeline;
            let input = if t.committed_input.transcript is Some {
                t.committed_input
            } else {
                t.input
            };
            let end = if p.tts_finished is Some {
                p.tts_finished
            } else {
                Some(now)
            };
            let heard = if input.transcript is Some {
                input.transcript
            } else {
                Some(now)
            };
            &&& m.turn_id == turn_id
            &&& m.vad_silence_ms.ns == t.vad_silence_ms.ns
            &&& measures(m.eou_delay_ms, input.vad_speech_ended, p.speech_ended)
            &&& measures(m.stt_ms, p.speech_ended, input.transcript)
            &&& measures(m.llm_first_token_ms, input.transcript, p.llm_first_token)
            &&& measures(m.tts_first_audio_ms, p.tts_text_fed, p.tts_first_audio)
            &&& measures(m.ttfa_ms, p.speech_ended, p.tts_first_audio)
            &&& measures(m.total_ms, p.speech_ended, end)
            &&& measures(m.tts_duration_ms, p.tts_start, end)
            &&& measures_known(m.user_agent_latency_ms, input.vad_speech_ended, p.tts_first_audio)
            &&& m.input_audio_duration_ms.ns == input.input_audio_duration_ms.ns
            &&& m.output_audio_duration_ms.ns == p.output_audio_duration_ms.ns
            &&& measures(m.stt_total_duration_ms, input.stt_audio_start, heard)
            &&& measures_known(m.stt_ttfb_ms, input.stt_finalize_sent, input.stt_first_text)
            &&& measures_known(m.tts_ttfb_ms, p.tts_text_fed, p.tts_first_audio)
            &&& measures(m.tts_total_duration_ms, p.tts_text_fed, end)
            &&& measures_known(m.text_aggregation_ms, p.llm_first_token, p.tts_text_fed)
        }),
{
}

/// The wait for the model counts from the transcript to the first token: marking anything else of
/// the turn does not change it.
pub proof fn law_model_latency_ignores_speech_marks(
    t: TurnTracker,
    call: TrackerCall,
    a: u64,
    b: u64,
    turn_id: u64,
    now: u64,
)
    requires
        t.pipeline.speech_ended is Some,
        t.committed_input.transcript == Some(a),
        t.pipeline.llm_first_token == Some(b),
        a <= b,
        call is MarkTtsStart || call is MarkTtsTextFed || call is MarkTtsFirstAudio
            || call is MarkTtsFinished || call is SetOutputAudioDuration || call is MarkLlmFirstToken
            || call is MarkSpeechEnded || call is MarkTranscript || call is MarkVadSpeechEnded
            || call is MarkSttAudioStart || call is MarkSttFinalizeSent || call is MarkSttFirstText,
    ensures
        t.after(call).metrics_at(turn_id, now) matches Some(m) && m.llm_first_token_ms.ns == b - a,
{
}

/// Whether a call clears the turn.
pub open spec fn clears_pipeline(t: TurnTracker, call: TrackerCall) -> bool {
    ||| call is Reset
    ||| call is ResetPipeline
    ||| call is Finish && t.pipeline.speech_ended is Some
}

/// Whether a call clears the pending input.
pub open spec fn clears_input(call: TrackerCall) -> bool {
    call is Reset || call is ResetInput || call is CommitInputAnchors
}

/// Every mark of the turn is set by its own call alone and kept until the turn is cleared. Of marks
/// of something first, the first call of a turn counts; of the end of synthesis, the last.
pub proof fn law_turn_marks_are_kept(t: TurnTracker, call: TrackerCall)
    ensures
        call matches TrackerCall::MarkSpeechEnded { now } ==> t.pipeline.speech_ended is None
            ==> t.after(call).pipeline.speech_ended == Some(now),
        !clears_pipeline(t, call)
            && (t.pipeline.speech_ended is Some || !(call is MarkSpeechEnded))
            ==> t.after(call).pipeline.speech_ended == t.pipeline.speech_ended,
        clears_pipeline(t, call) ==> t.after(call).pipeline.speech_ended is None,
        call matches TrackerCall::MarkLlmFirstToken { now }
            ==> t.pipeline.llm_first_token is None
            ==> t.after(call).pipeline.llm_first_token == Some(now),
        !clears_pipeline(t, call)
            && (t.pipeline.llm_first_token is Some || !(call is MarkLlmFirstToken))
            ==> t.after(call).pipeline.llm_first_token == t.pipeline.llm_first_token,
        clears_pipeline(t, call) ==> t.after(call).pipeline.llm_first_token is None,
        call matches TrackerCall::MarkTtsStart { now } ==> t.pipeline.tts_start is None
            ==> t.after(call).pipeline.tts_start == Some(now),
        !clears_pipeline(t, call)
            && (t.pipeline.tts_start is Some || !(call is MarkTtsStart))
            ==> t.after(call).pipeline.tts_start == t.pipeline.tts_start,
        clears_pipeline(t, call) ==> t.after(call).pipeline.tts_start is None,
        call matches TrackerCall::MarkTtsTextFed { now } ==> t.pipeline.tts_text_fed is None
            ==> t.after(call).pipeline.tts_text_fed == Some(now),
        !clears_pipeline(t, call)
            && (t.pipeline.tts_text_fed is Some || !(call is MarkTtsTextFed))
            ==> t.after(call).pipeline.tts_text_fed == t.pipeline.tts_text_fed,
        clears_pipeline(t, call) ==> t.after(call).pipeline.tts_text_fed is None,
        call matches TrackerCall::MarkTtsFirstAudio { now }
            ==> t.pipeline.tts_first_audio is None
            ==> t.after(call).pipeline.tts_first_audio == Some(now),
        !clears_pipeline(t, call)
            && (t.pipeline.tts_first_audio is Some || !(call is MarkTtsFirstAudio))
            ==> t.after(call).pipeline.tts_first_audio == t.pipeline.tts_first_audio,
        clears_pipeline(t, call) ==> t.after(call).pipeline.tts_first_audio is None,
        call matches TrackerCall::MarkTtsFinished { now }
            ==> t.after(call).pipeline.tts_finished == Some(now),
        !clears_pipeline(t, call) && !(call is MarkTtsFinished)
            ==> t.after(call).pipeline.tts_finished == t.pipeline.tts_finished,
        clears_pipeline(t, call) ==> t.after(call).pipeline.tts_finished is None,
        call matches TrackerCall::SetOutputAudioDuration { ms } ==> t.after(
            call,
        ).pipeline.output_audio_duration_ms == ms,
        !clears_pipeline(t, call) && !(call is SetOutputAudioDuration) ==> t.after(
            call,
        ).pipeline.output_audio_duration_ms == t.pipeline.output_audio_duration_ms,
        clears_pipeline(t, call) ==> t.after(call).pipeline.output_audio_duration_ms.ns == 0,
{
}

/// Every mark of the pending input is set by its own call alone and kept until the input is
/// committed or cleared; the end of speech is dated back by the silence that it took to notice it.
pub proof fn law_input_marks_are_kept(t: TurnTracker, call: TrackerCall)
    ensures
        call matches TrackerCall::MarkSttAudioStart { now }
            ==> t.input.stt_audio_start is None
            ==> t.after(call).input.stt_audio_start == Some(now),
        !clears_input(call)
            && (t.input.stt_audio_start is Some || !(call is MarkSttAudioStart))
            ==> t.after(call).input.stt_audio_start == t.input.stt_audio_start,
        clears_input(call) ==> t.after(call).input.stt_audio_start is None,
        call matches TrackerCall::MarkSttFinalizeSent { now }
            ==> t.after(call).input.stt_finalize_sent == Some(now),
        !clears_input(call) && !(call is MarkSttFinalizeSent)
            ==> t.after(call).input.stt_finalize_sent == t.input.stt_finalize_sent,
        clears_input(call) ==> t.after(call).input.stt_finalize_sent is None,
        call matches TrackerCall::MarkSttFirstText { now } ==> t.input.stt_first_text is None
            ==> t.after(call).input.stt_first_text == Some(now),
        !clears_input(call)
            && (t.input.stt_first_text is Some || !(call is MarkSttFirstText))
            ==> t.after(call).input.stt_first_text == t.input.stt_first_text,
        clears_input(call) ==> t.after(call).input.stt_first_text is None,
        call matches TrackerCall::MarkTranscript { now }
            ==> t.after(call).input.transcript == Some(now),
        !clears_input(call) && !(call is MarkTranscript)
            ==> t.after(call).input.transcript == t.input.transcript,
        clears_input(call) ==> t.after(call).input.transcript is None,
        call matches TrackerCall::MarkVadSpeechEnded { now } ==> now >= t.vad_silence_ms.ns ==> (
        t.after(call).input.vad_speech_ended matches Some(at) && at + t.vad_silence_ms.ns == now),
        call matches TrackerCall::MarkVadSpeechEnded { now } ==> now < t.vad_silence_ms.ns
            ==> t.after(
            call,
        ).input.vad_speech_ended == Some(now),
        !clears_input(call) && !(call is MarkVadSpeechEnded) ==> t.after(
            call,
        ).input.vad_speech_ended == t.input.vad_speech_ended,
        clears_input(call) ==> t.after(call).input.vad_speech_ended is None,
        call matches TrackerCall::SetInputAudioDuration { ms } ==> t.after(
            call,
        ).input.input_audio_duration_ms == ms,
        !clears_input(call) && !(call is SetInputAudioDuration) ==> t.after(
            call,
        ).input.input_audio_duration_ms == t.input.input_audio_duration_ms,
        clears_input(call) ==> t.after(call).input.input_audio_duration_ms.ns == 0,
{
}

/// The input of a turn is what was pending when it was committed, and stays that until the turn is
/// cleared. The silence that ends speech stays as it was set.
pub proof fn law_committed_input_is_kept(t: TurnTracker, call: TrackerCall)
    ensures
        call is CommitInputAnchors ==> t.after(call).committed_input == t.input,
        !(call is CommitInputAnchors) && !clears_pipeline(t, call) ==> t.after(call).committed_input
            == t.committed_input,
        clears_pipeline(t, call) ==> t.after(call).committed_input.transcript is None,
        call matches TrackerCall::SetVadSilence { ms } ==> t.after(call).vad_silence_ms == ms,
        !(call is SetVadSilence) ==> t.after(call).vad_silence_ms == t.vad_silence_ms,
{
}

/// A new tracker knows of no mark, and no duration was told it.
pub proof fn law_new_tracker_knows_nothing(turn_id: u64, now: u64)
    ensures
        ({
            let t = TurnTracker::fresh();
            &&& t.metrics_at(turn_id, now) is None
            &&& t.pipeline.speech_ended is None && t.pipeline.llm_first_token is None
            &&& t.pipeline.tts_start is None && t.pipeline.tts_text_fed is None
            &&& t.pipeline.tts_first_audio is None && t.pipeline.tts_finished is None
            &&& t.pipeline.output_audio_duration_ms.ns == 0
            &&& t.input == t.committed_input
            &&& t.input.vad_speech_ended is None && t.input.stt_audio_start is None
            &&& t.input.stt_finalize_sent is None && t.input.stt_first_text is None
            &&& t.input.transcript is None && t.input.input_audio_duration_ms.ns == 0
            &&& t.vad_silence_ms.ns == 0
        }),
{
}

} // verus!
