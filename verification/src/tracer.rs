//! Tracer: the single entry point of the session for events, traces and turn metrics.
use crate::bus::EventBus;
use crate::clock::Millis;
use crate::event::Event;
use crate::turn_tracker::{TurnMetrics, TurnTracker};
use vstd::prelude::*;

verus! {

/// Observability facade of one voice session.
///
/// Emitted events wait in `bus` until the caller hands them to subscribers. Instants are
/// nanoseconds on the clock that `session_start` was read from.
pub struct Tracer {
    pub bus: EventBus,
    pub turn_tracker: TurnTracker,
    /// Sequence number of the last trace event.
    pub trace_seq: u64,
    /// When the session started.
    pub session_start: u64,
    /// Text fed to synthesis in this turn.
    pub tts_text: String,
    /// Number of the current or last turn, from 1.
    pub turn_count: u64,
    /// Whether a turn is open.
    pub turn_open: bool,
}

/// The event that closes a cancelled turn.
pub open spec fn cancelled_turn(turn_number: u64) -> Event {
    Event::TurnEnded {
        turn_number,
        was_interrupted: true,
        turn_duration_ms: None,
        user_agent_latency_ms: None,
        vad_silence_ms: None,
    }
}

/// The event that closes a turn with the given metrics.
pub open spec fn ended_turn(turn_number: u64, was_interrupted: bool, m: Option<TurnMetrics>) -> Event {
    Event::TurnEnded {
        turn_number,
        was_interrupted,
        turn_duration_ms: match m {
            Some(x) => Some(x.total_ms),
            None => None,
        },
        user_agent_latency_ms: match m {
            Some(x) => x.user_agent_latency_ms,
            None => None,
        },
        vad_silence_ms: match m {
            Some(x) => Some(x.vad_silence_ms),
            None => None,
        },
    }
}

/// `e` reports recognition of `transcript` with the given metrics.
pub open spec fn is_stt_complete(
    e: Event,
    provider: Seq<char>,
    model: Seq<char>,
    transcript: Seq<char>,
    language: Seq<char>,
    vad_enabled: bool,
    metrics: (Millis, Option<Millis>),
) -> bool {
    &&& e matches Event::SttComplete {
        provider: p,
        model: m,
        transcript: t,
        is_final,
        language: Some(l),
        duration_ms,
        ttfb_ms,
        vad_enabled: v,
    }
    &&& p@ == provider
    &&& m@ == model
    &&& t@ == transcript
    &&& is_final
    &&& l@ == language
    &&& duration_ms == metrics.0
    &&& ttfb_ms == metrics.1
    &&& v == vad_enabled
}

/// `e` reports synthesis of `text` with the given metrics.
pub open spec fn is_tts_complete(
    e: Event,
    provider: Seq<char>,
    model: Seq<char>,
    text: String,
    voice_id: Seq<char>,
    metrics: (Millis, Option<Millis>, Option<Millis>),
) -> bool {
    &&& e matches Event::TtsComplete {
        provider: p,
        model: m,
        text: t,
        voice_id: v,
        character_count,
        duration_ms,
        ttfb_ms,
        text_aggregation_ms,
    }
    &&& p@ == provider
    &&& m@ == model
    &&& t == text
    &&& v@ == voice_id
    &&& character_count == text@.len()
    &&& duration_ms == metrics.0
    &&& ttfb_ms == metrics.1
    &&& text_aggregation_ms == metrics.2
}

/// The events that were emitted between two states of a tracer.
pub open spec fn new_events(before: Tracer, after: Tracer) -> Seq<Event> {
    after.bus.pending@.skip(before.bus.pending@.len() as int)
}

/// Nothing emitted before was taken back.
pub open spec fn grew(before: Tracer, after: Tracer) -> bool {
    after.bus.pending@ == before.bus.pending@ + new_events(before, after)
}

/// `events` are what a started turn emits: the end of a turn that is still open, then `TurnStarted`
/// and `SttComplete`.
pub open spec fn is_turn_start(
    t: Tracer,
    events: Seq<Event>,
    provider: Seq<char>,
    model: Seq<char>,
    transcript: Seq<char>,
    language: Seq<char>,
    vad_enabled: bool,
    now: u64,
) -> bool {
    let tracker = t.tracker_after_start();
    &&& events.len() == t.cancel_events().len() + 2
    &&& events.drop_last() == t.cancel_events() + seq![
        Event::TurnStarted { turn_number: (t.turn_count + 1) as u64 },
    ]
    &&& is_stt_complete(
        events.last(),
        provider,
        model,
        transcript,
        language,
        vad_enabled,
        tracker.stt_metrics_at(now),
    )
}

/// Whether a finished turn reports synthesis: text was marked as fed to it, even if empty, or text
/// was accumulated.
pub open spec fn reports_synthesis(t: Tracer) -> bool {
    t.turn_tracker.pipeline.tts_text_fed is Some || t.tts_text@.len() > 0
}

/// `events` are what a finished turn emits: `TtsComplete` where there was synthesis, then
/// `TurnMetrics` where there are metrics, then `TurnEnded`. Nothing where no turn is open.
pub open spec fn is_turn_finish(
    t: Tracer,
    events: Seq<Event>,
    was_interrupted: bool,
    provider: Seq<char>,
    model: Seq<char>,
    voice_id: Seq<char>,
    now: u64,
) -> bool {
    let m = t.turn_tracker.metrics_at(t.turn_count, now);
    let tail = (match m {
        Some(x) => seq![Event::TurnMetrics(x)],
        None => Seq::<Event>::empty(),
    }) + seq![ended_turn(t.turn_count, was_interrupted, m)];
    if !t.turn_open {
        events.len() == 0
    } else if reports_synthesis(t) {
        &&& events.len() == 1 + tail.len()
        &&& is_tts_complete(
            events[0],
            provider,
            model,
            t.tts_text,
            voice_id,
            t.turn_tracker.tts_metrics_at(now),
        )
        &&& events.skip(1) == tail
    } else {
        events == tail
    }
}

impl Tracer {
    /// `self` and `other` differ in their turn tracker at most.
    pub open spec fn same_but_tracker(self, other: Tracer) -> bool {
        self == (Tracer { turn_tracker: self.turn_tracker, ..other })
    }

    /// The events of a cancelled turn: one that closes it, where it was open.
    pub open spec fn cancel_events(self) -> Seq<Event> {
        if self.turn_open {
            seq![cancelled_turn(self.turn_count)]
        } else {
            Seq::empty()
        }
    }

    /// The microseconds from the start of the session to `now`.
    pub open spec fn elapsed_us(self, now: u64) -> u64 {
        crate::clock::span(self.session_start, now).ns / 1000
    }

    /// The turn tracker after a turn has started.
    pub open spec fn tracker_after_start(self) -> TurnTracker {
        if self.turn_open {
            self.turn_tracker.without_pipeline().with_committed_input()
        } else {
            self.turn_tracker.with_committed_input()
        }
    }

    /// The turn tracker after a turn was finished.
    pub open spec fn tracker_after_finish(self) -> TurnTracker {
        if self.turn_open && self.turn_tracker.pipeline.speech_ended is Some {
            self.turn_tracker.without_pipeline()
        } else {
            self.turn_tracker
        }
    }

    /// A tracer of a session that starts at `now`.
    pub fn new(now: u64) -> (t: Self)
        ensures
            t.bus.pending@ == Seq::<Event>::empty(),
            t.turn_tracker == TurnTracker::fresh(),
            t.trace_seq == 0,
            t.session_start == now,
            t.tts_text@ == Seq::<char>::empty(),
            t.turn_count == 0,
            !t.turn_open,
    {
        Tracer {
            bus: EventBus::new(),
            turn_tracker: TurnTracker::new(),
            trace_seq: 0,
            session_start: now,
            tts_text: String::new(),
            turn_count: 0,
            turn_open: false,
        }
    }

    /// Emits a raw trace event with the next sequence number and the microseconds since the
    /// session started.
    pub fn trace(&mut self, label: &'static str, now: u64)
        requires
            old(self).trace_seq < u64::MAX,
        ensures
            final(self).trace_seq == old(self).trace_seq + 1,
            grew(*old(self), *final(self)),
            new_events(*old(self), *final(self)).len() == 1,
            crate::event::is_trace(
                new_events(*old(self), *final(self))[0],
                (old(self).trace_seq + 1) as u64,
                old(self).elapsed_us(now),
                label@,
            ),
            *final(self) == (Tracer {
                bus: final(self).bus,
                trace_seq: final(self).trace_seq,
                ..*old(self)
            }),
    {
        self.trace_seq = self.trace_seq + 1;
        let elapsed_us: u64 = crate::clock::ms_between(self.session_start, now).ns / 1000;
        self.bus.emit(
            Event::Trace { seq: self.trace_seq, elapsed_us, label: label.to_owned() },
        );
        assert(self.bus.pending@ =~= old(self).bus.pending@ + new_events(*old(self), *self));
    }

    /// Emits a structured event.
    pub fn emit(&mut self, event: Event)
        ensures
            final(self).bus.pending@ == old(self).bus.pending@.push(event),
            grew(*old(self), *final(self)),
            new_events(*old(self), *final(self)) == seq![event],
            *final(self) == (Tracer { bus: final(self).bus, ..*old(self) }),
    {
        self.bus.emit(event);
        assert(self.bus.pending@ =~= old(self).bus.pending@ + new_events(*old(self), *self));
        assert(new_events(*old(self), *self) =~= seq![event]);
    }

    /// Takes the events emitted so far, in order.
    pub fn drain_events(&mut self) -> (events: Vec<Event>)
        ensures
            events@ == old(self).bus.pending@,
            final(self).bus.pending@ == Seq::<Event>::empty(),
            *final(self) == (Tracer { bus: final(self).bus, ..*old(self) }),
    {
        self.bus.drain()
    }

    /// The end-of-utterance decision is committed. The first call of a turn counts.
    pub fn mark_speech_ended(&mut self, now: u64)
        ensures
            final(self).same_but_tracker(*old(self)),
            final(self).turn_tracker == (TurnTracker {
                pipeline: crate::turn_tracker::PipelineAnchors {
                    speech_ended: crate::turn_tracker::first_write(
                        old(self).turn_tracker.pipeline.speech_ended,
                        now,
                    ),
                    ..old(self).turn_tracker.pipeline
                },
                ..old(self).turn_tracker
            }),
    {
        self.turn_tracker.mark_speech_ended(now);
    }

    /// Recognition streaming has started. The first call counts.
    pub fn mark_stt_audio_start(&mut self, now: u64)
        ensures
            final(self).same_but_tracker(*old(self)),
            final(self).turn_tracker == (TurnTracker {
                input: crate::turn_tracker::InteractionAnchors {
                    stt_audio_start: crate::turn_tracker::first_write(
                        old(self).turn_tracker.input.stt_audio_start,
                        now,
                    ),
                    ..old(self).turn_tracker.input
                },
                ..old(self).turn_tracker
            }),
    {
        self.turn_tracker.mark_stt_audio_start(now);
    }

    /// The finalize signal was sent to the recogniser.
    pub fn mark_stt_finalize_sent(&mut self, now: u64)
        ensures
            final(self).same_but_tracker(*old(self)),
            final(self).turn_tracker == (TurnTracker {
                input: crate::turn_tracker::InteractionAnchors {
                    stt_finalize_sent: Some(now),
                    ..old(self).turn_tracker.input
                },
                ..old(self).turn_tracker
            }),
    {
        self.turn_tracker.mark_stt_finalize_sent(now);
    }

    /// The first partial text was recognised. The first call counts.
    pub fn mark_stt_first_text(&mut self, now: u64)
        ensures
            final(self).same_but_tracker(*old(self)),
            final(self).turn_tracker == (TurnTracker {
                input: crate::turn_tracker::InteractionAnchors {
                    stt_first_text: crate::turn_tracker::first_write(
                        old(self).turn_tracker.input.stt_first_text,
                        now,
                    ),
                    ..old(self).turn_tracker.input
                },
                ..old(self).turn_tracker
            }),
    {
        self.turn_tracker.mark_stt_first_text(now);
    }

    /// The final transcript has come.
    pub fn mark_transcript(&mut self, now: u64)
        ensures
            final(self).same_but_tracker(*old(self)),
            final(self).turn_tracker == (TurnTracker {
                input: crate::turn_tracker::InteractionAnchors {
                    transcript: Some(now),
                    ..old(self).turn_tracker.input
                },
                ..old(self).turn_tracker
            }),
    {
        self.turn_tracker.mark_transcript(now);
    }

    /// The first model token has come. The first call of a turn counts.
    pub fn mark_llm_first_token(&mut self, now: u64)
        ensures
            final(self).same_but_tracker(*old(self)),
            final(self).turn_tracker == (TurnTracker {
                pipeline: crate::turn_tracker::PipelineAnchors {
                    llm_first_token: crate::turn_tracker::first_write(
                        old(self).turn_tracker.pipeline.llm_first_token,
                        now,
                    ),
                    ..old(self).turn_tracker.pipeline
                },
                ..old(self).turn_tracker
            }),
    {
        self.turn_tracker.mark_llm_first_token(now);
    }

    /// Synthesis has started. The first call of a turn counts.
    pub fn mark_tts_start(&mut self, now: u64)
        ensures
            final(self).same_but_tracker(*old(self)),
            final(self).turn_tracker == (TurnTracker {
                pipeline: crate::turn_tracker::PipelineAnchors {
                    tts_start: crate::turn_tracker::first_write(
                        old(self).turn_tracker.pipeline.tts_start,
                        now,
                    ),
                    ..old(self).turn_tracker.pipeline
                },
                ..old(self).turn_tracker
            }),
    {
        self.turn_tracker.mark_tts_start(now);
    }

    /// The first text was fed to synthesis. The first call of a turn counts.
    pub fn mark_tts_text_fed(&mut self, now: u64)
        ensures
            final(self).same_but_tracker(*old(self)),
            final(self).turn_tracker == (TurnTracker {
                pipeline: crate::turn_tracker::PipelineAnchors {
                    tts_text_fed: crate::turn_tracker::first_write(
                        old(self).turn_tracker.pipeline.tts_text_fed,
                        now,
                    ),
                    ..old(self).turn_tracker.pipeline
                },
                ..old(self).turn_tracker
            }),
    {
        self.turn_tracker.mark_tts_text_fed(now);
    }

    /// The first audio chunk was sent. The first call of a turn counts.
    pub fn mark_tts_first_audio(&mut self, now: u64)
        ensures
            final(self).same_but_tracker(*old(self)),
            final(self).turn_tracker == (TurnTracker {
                pipeline: crate::turn_tracker::PipelineAnchors {
                    tts_first_audio: crate::turn_tracker::first_write(
                        old(self).turn_tracker.pipeline.tts_first_audio,
                        now,
                    ),
                    ..old(self).turn_tracker.pipeline
                },
                ..old(self).turn_tracker
            }),
    {
        self.turn_tracker.mark_tts_first_audio(now);
    }

    /// Synthesis has finished.
    pub fn mark_tts_finished(&mut self, now: u64)
        ensures
            final(self).same_but_tracker(*old(self)),
            final(self).turn_tracker == (TurnTracker {
                pipeline: crate::turn_tracker::PipelineAnchors {
                    tts_finished: Some(now),
                    ..old(self).turn_tracker.pipeline
                },
                ..old(self).turn_tracker
            }),
    {
        self.turn_tracker.mark_tts_finished(now);
    }

    /// Speech has ended: records `now`, backdated by the silence window.
    pub fn mark_vad_speech_ended(&mut self, now: u64)
        ensures
            final(self).same_but_tracker(*old(self)),
            final(self).turn_tracker == (TurnTracker {
                input: crate::turn_tracker::InteractionAnchors {
                    vad_speech_ended: Some(
                        crate::turn_tracker::backdated(now, old(self).turn_tracker.vad_silence_ms),
                    ),
                    ..old(self).turn_tracker.input
                },
                ..old(self).turn_tracker
            }),
    {
        self.turn_tracker.mark_vad_speech_ended(now);
    }

    /// Sets the silence window by which the end of speech is backdated.
    pub fn set_vad_silence_ms(&mut self, ms: Millis)
        ensures
            final(self).same_but_tracker(*old(self)),
            final(self).turn_tracker == (TurnTracker {
                vad_silence_ms: ms,
                ..old(self).turn_tracker
            }),
    {
        self.turn_tracker.set_vad_silence_ms(ms);
    }

    /// The silence window.
    pub fn vad_silence_ms(&self) -> (ms: Millis)
        ensures
            ms == self.turn_tracker.vad_silence_ms,
    {
        self.turn_tracker.vad_silence_ms()
    }

    /// Sets the duration of the user's speech.
    pub fn set_input_audio_duration(&mut self, ms: Millis)
        ensures
            final(self).same_but_tracker(*old(self)),
            final(self).turn_tracker == (TurnTracker {
                input: crate::turn_tracker::InteractionAnchors {
                    input_audio_duration_ms: ms,
                    ..old(self).turn_tracker.input
                },
                ..old(self).turn_tracker
            }),
    {
        self.turn_tracker.set_input_audio_duration(ms);
    }

    /// Sets the duration of the generated speech.
    pub fn set_output_audio_duration(&mut self, ms: Millis)
        ensures
            final(self).same_but_tracker(*old(self)),
            final(self).turn_tracker == (TurnTracker {
                pipeline: crate::turn_tracker::PipelineAnchors {
                    output_audio_duration_ms: ms,
                    ..old(self).turn_tracker.pipeline
                },
                ..old(self).turn_tracker
            }),
    {
        self.turn_tracker.set_output_audio_duration(ms);
    }

    /// Opens a new turn and reports the recognised text.
    ///
    /// A turn that is still open is cancelled first. Then `TurnStarted` and `SttComplete` are
    /// emitted, and the pending input anchors are frozen for this turn.
    pub fn start_turn(
        &mut self,
        stt_provider: &str,
        stt_model: &str,
        transcript: &str,
        language: &str,
        vad_enabled: bool,
        now: u64,
    )
        requires
            old(self).turn_count < u64::MAX,
        ensures
            final(self).turn_open,
            final(self).turn_count == old(self).turn_count + 1,
            final(self).turn_tracker == old(self).tracker_after_start(),
            final(self).tts_text@ == if old(self).turn_open {
                Seq::<char>::empty()
            } else {
                old(self).tts_text@
            },
            final(self).trace_seq == old(self).trace_seq,
            final(self).session_start == old(self).session_start,
            grew(*old(self), *final(self)),
            is_turn_start(
                *old(self),
                new_events(*old(self), *final(self)),
                stt_provider@,
                stt_model@,
                transcript@,
                language@,
                vad_enabled,
                now,
            ),
    {
        if self.turn_open {
            self.cancel_turn();
        }
        self.turn_count = self.turn_count + 1;
        self.turn_open = true;
        self.bus.emit(Event::TurnStarted { turn_number: self.turn_count });
        let ghost opened = self.bus.pending@;
        self.turn_tracker.commit_input_anchors();
        let (duration_ms, ttfb_ms) = self.turn_tracker.stt_metrics(now);
        self.bus.emit(
            Event::SttComplete {
                provider: stt_provider.to_owned(),
                model: stt_model.to_owned(),
                transcript: transcript.to_owned(),
                is_final: true,
                language: Some(language.to_owned()),
                duration_ms,
                ttfb_ms,
                vad_enabled,
            },
        );
        proof {
            let events = new_events(*old(self), *self);
            assert(self.bus.pending@.drop_last() =~= opened);
            assert(self.bus.pending@ =~= old(self).bus.pending@ + events);
            assert(events.drop_last() =~= old(self).cancel_events() + seq![
                Event::TurnStarted { turn_number: (old(self).turn_count + 1) as u64 },
            ]);
        }
    }

    /// Appends text fed to synthesis in this turn.
    pub fn append_tts_text(&mut self, text: &str)
        ensures
            final(self).tts_text@ == old(self).tts_text@ + text@,
            *final(self) == (Tracer { tts_text: final(self).tts_text, ..*old(self) }),
    {
        self.tts_text.append(text);
    }

    /// Completes the turn: emits `TtsComplete` where text was fed to synthesis or accumulated for
    /// it, then `TurnMetrics` where there are metrics, then `TurnEnded`.
    ///
    /// Does nothing where no turn is open.
    pub fn finish_turn(
        &mut self,
        was_interrupted: bool,
        tts_provider: &str,
        tts_model: &str,
        voice_id: &str,
        now: u64,
    ) -> (m: Option<TurnMetrics>)
        ensures
            !old(self).turn_open ==> m is None && *final(self) == *old(self),
            old(self).turn_open ==> {
                &&& m == old(self).turn_tracker.metrics_at(old(self).turn_count, now)
                &&& final(self).tts_text@ == Seq::<char>::empty()
            },
            !final(self).turn_open,
            final(self).turn_count == old(self).turn_count,
            final(self).trace_seq == old(self).trace_seq,
            final(self).session_start == old(self).session_start,
            final(self).turn_tracker == old(self).tracker_after_finish(),
            grew(*old(self), *final(self)),
            is_turn_finish(
                *old(self),
                new_events(*old(self), *final(self)),
                was_interrupted,
                tts_provider@,
                tts_model@,
                voice_id@,
                now,
            ),
    {
        if !self.turn_open {
            assert(grew(*old(self), *self));
            return None;
        }
        self.turn_open = false;
        let ghost before = self.bus.pending@;
        let fed = self.turn_tracker.has_tts_text_fed() || !self.tts_text.as_str().is_empty();
        if fed {
            let (duration_ms, ttfb_ms, text_aggregation_ms) = self.turn_tracker.tts_metrics(now);
            let mut text = String::new();
            std::mem::swap(&mut text, &mut self.tts_text);
            let character_count: usize = text.as_str().unicode_len();
            self.bus.emit(
                Event::TtsComplete {
                    provider: tts_provider.to_owned(),
                    model: tts_model.to_owned(),
                    text,
                    voice_id: voice_id.to_owned(),
                    character_count,
                    duration_ms,
                    ttfb_ms,
                    text_aggregation_ms,
                },
            );
        } else {
            self.tts_text = String::new();
        }
        let ghost spoken = self.bus.pending@;
        let metrics = self.turn_tracker.finish(self.turn_count, now);
        let mut turn_duration_ms: Option<Millis> = None;
        let mut user_agent_latency_ms: Option<Millis> = None;
        let mut vad_silence_ms: Option<Millis> = None;
        if let Some(m) = metrics {
            self.bus.emit(Event::TurnMetrics(m));
            turn_duration_ms = Some(m.total_ms);
            user_agent_latency_ms = m.user_agent_latency_ms;
            vad_silence_ms = Some(m.vad_silence_ms);
        }
        self.bus.emit(
            Event::TurnEnded {
                turn_number: self.turn_count,
                was_interrupted,
                turn_duration_ms,
                user_agent_latency_ms,
                vad_silence_ms,
            },
        );
        proof {
            let tail = (match metrics {
                Some(x) => seq![Event::TurnMetrics(x)],
                None => Seq::<Event>::empty(),
            }) + seq![ended_turn(old(self).turn_count, was_interrupted, metrics)];
            let events = new_events(*old(self), *self);
            assert(self.bus.pending@ =~= spoken + tail);
            assert(self.bus.pending@ =~= before + events);
            if fed {
                assert(events.skip(1) =~= tail);
            } else {
                assert(events =~= tail);
            }
        }
        metrics
    }

    /// Cancels the current turn: clears the pipeline and, where a turn is open, closes it as
    /// interrupted.
    pub fn cancel_turn(&mut self)
        ensures
            !final(self).turn_open,
            final(self).turn_tracker == old(self).turn_tracker.without_pipeline(),
            final(self).tts_text@ == Seq::<char>::empty(),
            final(self).bus.pending@ == old(self).bus.pending@ + old(self).cancel_events(),
            grew(*old(self), *final(self)),
            new_events(*old(self), *final(self)) == old(self).cancel_events(),
            final(self).turn_count == old(self).turn_count,
            final(self).trace_seq == old(self).trace_seq,
            final(self).session_start == old(self).session_start,
    {
        self.turn_tracker.reset_pipeline();
        self.tts_text = String::new();
        if self.turn_open {
            self.turn_open = false;
            self.bus.emit(
                Event::TurnEnded {
                    turn_number: self.turn_count,
                    was_interrupted: true,
                    turn_duration_ms: None,
                    user_agent_latency_ms: None,
                    vad_silence_ms: None,
                },
            );
        }
        assert(self.bus.pending@ =~= old(self).bus.pending@ + old(self).cancel_events());
        assert(new_events(*old(self), *self) =~= old(self).cancel_events());
    }
}

/// What was emitted over two steps is what the first emitted, then what the second emitted.
pub proof fn lemma_new_events_add(a: Tracer, b: Tracer, c: Tracer)
    requires
        grew(a, b),
        grew(b, c),
    ensures
        grew(a, c),
        new_events(a, c) == new_events(a, b) + new_events(b, c),
{
    assert(new_events(a, c) =~= new_events(a, b) + new_events(b, c));
    assert(c.bus.pending@ =~= a.bus.pending@ + new_events(a, c));
}

/// How many turns a sequence of events opens.
pub open spec fn opened_turns(events: Seq<Event>) -> nat
    decreases events.len(),
{
    if events.len() == 0 {
        0
    } else {
        opened_turns(events.drop_last()) + if events.last() is TurnStarted {
            1nat
        } else {
            0nat
        }
    }
}

/// How many turns a sequence of events closes.
pub open spec fn closed_turns(events: Seq<Event>) -> nat
    decreases events.len(),
{
    if events.len() == 0 {
        0
    } else {
        closed_turns(events.drop_last()) + if events.last() is TurnEnded {
            1nat
        } else {
            0nat
        }
    }
}

/// The opened and closed turns of a concatenation are the sums over its parts.
pub proof fn lemma_turns_add(a: Seq<Event>, b: Seq<Event>)
    ensures
        opened_turns(a + b) == opened_turns(a) + opened_turns(b),
        closed_turns(a + b) == closed_turns(a) + closed_turns(b),
    decreases b.len(),
{
    if b.len() == 0 {
        assert(a + b =~= a);
    } else {
        assert((a + b).drop_last() =~= a + b.drop_last());
        lemma_turns_add(a, b.drop_last());
    }
}

/// The events so far close every turn they open, but for the one that is still open.
pub open spec fn turns_balanced(t: Tracer, emitted: Seq<Event>) -> bool {
    opened_turns(emitted) == closed_turns(emitted) + if t.turn_open {
        1nat
    } else {
        0nat
    }
}

/// Starting a turn keeps the events balanced: the turn before it, where still open, is closed
/// before the new one opens.
pub proof fn law_start_turn_balanced(
    before: Tracer,
    emitted: Seq<Event>,
    events: Seq<Event>,
    provider: Seq<char>,
    model: Seq<char>,
    transcript: Seq<char>,
    language: Seq<char>,
    vad_enabled: bool,
    now: u64,
)
    requires
        turns_balanced(before, emitted),
        is_turn_start(
            before,
            events,
            provider,
            model,
            transcript,
            language,
            vad_enabled,
            now,
        ),
    ensures
        opened_turns(emitted + events) == closed_turns(emitted + events) + 1,
{
    reveal_with_fuel(opened_turns, 3);
    reveal_with_fuel(closed_turns, 3);
    let started = seq![Event::TurnStarted { turn_number: (before.turn_count + 1) as u64 }];
    lemma_turns_add(emitted, events);
    lemma_turns_add(before.cancel_events(), started);
    assert(started.drop_last() =~= Seq::<Event>::empty());
    if before.turn_open {
        assert(before.cancel_events().drop_last() =~= Seq::<Event>::empty());
    }
}

/// Finishing a turn closes it exactly once.
pub proof fn law_finish_turn_balanced(
    before: Tracer,
    emitted: Seq<Event>,
    events: Seq<Event>,
    was_interrupted: bool,
    provider: Seq<char>,
    model: Seq<char>,
    voice_id: Seq<char>,
    now: u64,
)
    requires
        turns_balanced(before, emitted),
        is_turn_finish(before, events, was_interrupted, provider, model, voice_id, now),
    ensures
        opened_turns(emitted + events) == closed_turns(emitted + events),
{
    reveal_with_fuel(opened_turns, 3);
    reveal_with_fuel(closed_turns, 3);
    lemma_turns_add(emitted, events);
    let m = before.turn_tracker.metrics_at(before.turn_count, now);
    let first = match m {
        Some(x) => seq![Event::TurnMetrics(x)],
        None => Seq::<Event>::empty(),
    };
    let last = seq![ended_turn(before.turn_count, was_interrupted, m)];
    lemma_turns_add(first, last);
    assert(last.drop_last() =~= Seq::<Event>::empty());
    if m is Some {
        assert(first.drop_last() =~= Seq::<Event>::empty());
    }
    if before.turn_open && reports_synthesis(before) {
        let head = seq![events[0]];
        assert(head + events.skip(1) =~= events);
        lemma_turns_add(head, events.skip(1));
        assert(head.drop_last() =~= Seq::<Event>::empty());
    }
}

/// Cancelling a turn, open or not, leaves every opened turn closed.
pub proof fn law_cancel_turn_balanced(before: Tracer, emitted: Seq<Event>)
    requires
        turns_balanced(before, emitted),
    ensures
        opened_turns(emitted + before.cancel_events()) == closed_turns(
            emitted + before.cancel_events(),
        ),
{
    reveal_with_fuel(opened_turns, 2);
    reveal_with_fuel(closed_turns, 2);
    lemma_turns_add(emitted, before.cancel_events());
    if before.turn_open {
        assert(before.cancel_events().drop_last() =~= Seq::<Event>::empty());
    }
}

/// A turn starts under the next number, after the turn that was still open was closed as
/// interrupted, and what was recognised is reported last, as it was given.
pub proof fn law_turns_start_under_the_next_number(
    t: Tracer,
    events: Seq<Event>,
    provider: Seq<char>,
    model: Seq<char>,
    transcript: Seq<char>,
    language: Seq<char>,
    vad_enabled: bool,
    now: u64,
)
    requires
        t.turn_count < u64::MAX,
        is_turn_start(t, events, provider, model, transcript, language, vad_enabled, now),
    ensures
        events.len() == if t.turn_open {
            3int
        } else {
            2int
        },
        events[events.len() - 2] matches Event::TurnStarted { turn_number } && turn_number
            == t.turn_count + 1,
        t.turn_open ==> (events[0] matches Event::TurnEnded {
            turn_number,
            was_interrupted,
            turn_duration_ms,
            user_agent_latency_ms,
            vad_silence_ms,
        } && turn_number == t.turn_count && was_interrupted && turn_duration_ms is None
            && user_agent_latency_ms is None && vad_silence_ms is None),
        events.last() matches Event::SttComplete {
            provider: p,
            model: m,
            transcript: s,
            is_final,
            language: Some(l),
            vad_enabled: v,
            ..
        } && p@ == provider && m@ == model && s@ == transcript && is_final && l@ == language && v
            == vad_enabled,
{
    let n = events.len() as int;
    assert(events.drop_last()[n - 2] == events[n - 2]);
    if t.turn_open {
        assert(events.drop_last()[0] == events[0]);
    }
}

/// The input of a started turn is what was pending, nothing is pending any more, and what a turn
/// before it left is gone.
pub proof fn law_turns_start_with_the_pending_input(t: Tracer)
    ensures
        t.tracker_after_start().committed_input == t.turn_tracker.input,
        t.tracker_after_start().input.transcript is None,
        t.tracker_after_start().input.vad_speech_ended is None,
        t.tracker_after_start().input.stt_audio_start is None,
        t.turn_open ==> t.tracker_after_start().pipeline.speech_ended is None
            && t.tracker_after_start().pipeline.tts_text_fed is None,
        !t.turn_open ==> t.tracker_after_start().pipeline == t.turn_tracker.pipeline,
        t.tracker_after_start().vad_silence_ms == t.turn_tracker.vad_silence_ms,
{
}

/// A turn that is finished ends last, under its number and with its own metrics, which are reported
/// just before where there are any. All text that was fed to synthesis is reported before that, with
/// its length in characters. Without an open turn nothing is reported.
pub proof fn law_finished_turns_are_reported(
    t: Tracer,
    events: Seq<Event>,
    was_interrupted: bool,
    provider: Seq<char>,
    model: Seq<char>,
    voice_id: Seq<char>,
    now: u64,
)
    requires
        is_turn_finish(t, events, was_interrupted, provider, model, voice_id, now),
    ensures
        ({
            let m = t.turn_tracker.metrics_at(t.turn_count, now);
            let fed = t.turn_tracker.pipeline.tts_text_fed is Some || t.tts_text@.len() > 0;
            let n = events.len() as int;
            &&& !t.turn_open ==> n == 0
            &&& t.turn_open ==> {
                &&& n == 1 + (if m is Some {
                    1int
                } else {
                    0int
                }) + (if fed {
                    1int
                } else {
                    0int
                })
                &&& events[n - 1] matches Event::TurnEnded {
                    turn_number,
                    was_interrupted: w,
                    turn_duration_ms,
                    user_agent_latency_ms,
                    vad_silence_ms,
                }
                &&& turn_number == t.turn_count
                &&& w == was_interrupted
                &&& m is None ==> turn_duration_ms is None && user_agent_latency_ms is None
                    && vad_silence_ms is None
                &&& m matches Some(x) ==> turn_duration_ms == Some(x.total_ms)
                    && user_agent_latency_ms == x.user_agent_latency_ms && vad_silence_ms == Some(
                    x.vad_silence_ms,
                ) && events[n - 2] == Event::TurnMetrics(x)
            }
            &&& t.turn_open && fed ==> {
                &&& events[0] matches Event::TtsComplete {
                    provider: p,
                    model: o,
                    text,
                    voice_id: v,
                    character_count,
                    ..
                }
                &&& p@ == provider
                &&& o@ == model
                &&& text@ == t.tts_text@
                &&& v@ == voice_id
                &&& character_count == t.tts_text@.len()
            }
        }),
{
    let n = events.len() as int;
    if t.turn_open && reports_synthesis(t) {
        let tail = events.skip(1);
        assert(tail[tail.len() - 1] == events[n - 1]);
        if t.turn_tracker.metrics_at(t.turn_count, now) is Some {
            assert(tail[0] == events[1]);
        }
    }
}

/// A finished turn leaves nothing of its pipeline behind, and what is pending is kept.
pub proof fn law_finished_turns_leave_the_input(t: Tracer)
    ensures
        t.tracker_after_finish().input == t.turn_tracker.input,
        t.turn_open && t.turn_tracker.pipeline.speech_ended is Some
            ==> t.tracker_after_finish().pipeline.speech_ended is None
            && t.tracker_after_finish().pipeline.tts_first_audio is None
            && t.tracker_after_finish().committed_input.transcript is None,
        !t.turn_open ==> t.tracker_after_finish() == t.turn_tracker,
{
}

/// A cancelled turn is closed as interrupted, under its number, where one is open.
pub proof fn law_cancelled_turns_are_closed(t: Tracer)
    ensures
        !t.turn_open ==> t.cancel_events().len() == 0,
        t.turn_open ==> t.cancel_events().len() == 1 && (t.cancel_events()[0] matches
            Event::TurnEnded { turn_number, was_interrupted, turn_duration_ms, .. } && turn_number
            == t.turn_count && was_interrupted && turn_duration_ms is None),
{
}

/// Trace events are dated in whole microseconds since the start of the session.
pub proof fn law_traces_are_dated(t: Tracer, now: u64)
    requires
        t.session_start <= now,
    ensures
        t.session_start + 1000 * t.elapsed_us(now) <= now < t.session_start + 1000 * (t.elapsed_us(
            now,
        ) + 1),
{
}

/// The recognition of a turn is timed by the marks of the input that was pending when it started.
pub proof fn law_recognition_is_timed(
    t: Tracer,
    events: Seq<Event>,
    provider: Seq<char>,
    model: Seq<char>,
    transcript: Seq<char>,
    language: Seq<char>,
    vad_enabled: bool,
    now: u64,
)
    requires
        is_turn_start(t, events, provider, model, transcript, language, vad_enabled, now),
    ensures
        ({
            let input = t.turn_tracker.input;
            &&& events.last() matches Event::SttComplete { duration_ms, ttfb_ms, .. }
            &&& input.transcript is Some ==> crate::turn_tracker::measures(
                duration_ms,
                input.stt_audio_start,
                input.transcript,
            ) && crate::turn_tracker::measures_known(
                ttfb_ms,
                input.stt_finalize_sent,
                input.stt_first_text,
            )
            &&& input.transcript is None ==> duration_ms.ns == 0 && ttfb_ms is None
        }),
{
}

/// The synthesis of a turn is timed from when text was first fed to it.
pub proof fn law_synthesis_is_timed(
    t: Tracer,
    events: Seq<Event>,
    was_interrupted: bool,
    provider: Seq<char>,
    model: Seq<char>,
    voice_id: Seq<char>,
    now: u64,
)
    requires
        is_turn_finish(t, events, was_interrupted, provider, model, voice_id, now),
        t.turn_open,
        t.turn_tracker.pipeline.tts_text_fed is Some,
    ensures
        ({
            let p = t.turn_tracker.pipeline;
            let end = if p.tts_finished is Some {
                p.tts_finished
            } else {
                Some(now)
            };
            &&& events[0] matches Event::TtsComplete {
                duration_ms,
                ttfb_ms,
                text_aggregation_ms,
                ..
            }
            &&& crate::turn_tracker::measures(duration_ms, p.tts_text_fed, end)
            &&& crate::turn_tracker::measures_known(ttfb_ms, p.tts_text_fed, p.tts_first_audio)
            &&& crate::turn_tracker::measures_known(
                text_aggregation_ms,
                p.llm_first_token,
                p.tts_text_fed,
            )
        }),
{
}

} // verus!
