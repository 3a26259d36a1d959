//! The event loop of native audio sessions, in which one model hears and speaks.
//!
//! The caller owns the microphone, the model connection, the resamplers and the timers. It hands
//! what happens to the session and does what the session says; the events for observers collect in
//! the session's tracer.
use crate::audio_ml::vad::{VadEvent, VadThreshold};
use crate::clock::Millis;
use crate::event::{Event, Float64, LlmCompletionData};
use crate::pcm::whole_samples;
use crate::text::{concat, trim};
use crate::tracer::Tracer;
use vstd::prelude::*;

verus! {

/// Sample rate of the agent audio on the bus.
pub const WEBRTC_RATE: u32 = 48_000;

/// Sample rate of the microphone audio after resampling.
pub const SAMPLE_RATE: u32 = 16_000;

/// Longest wait for playback to drain after a hang-up.
pub const MAX_DRAIN_NS: u64 = 15_000_000_000;

/// Name of the provider in events.
pub const PROVIDER: &'static str = "gemini_live";

/// A native audio session.
pub struct NativeSession {
    pub tracer: Tracer,
    /// Configured model, where one is.
    pub model: Option<String>,
    pub voice_id: String,
    pub language: String,
    /// Whether voice activity is detected locally.
    pub vad_ok: bool,
    pub recording_enabled: bool,
    pub bot_speaking: bool,
    /// What the bot has said in this turn so far.
    pub bot_transcript: String,
    /// When the session ends after a hang-up.
    pub hangup_target: Option<u64>,
    /// When it ends at the latest.
    pub hangup_max_target: Option<u64>,
}

/// The system prompt, with the greeting that the first message must be, where there is one.
pub open spec fn prompt_with_greeting(prompt: Seq<char>, greeting: Option<String>) -> Seq<char> {
    match greeting {
        Some(g) => if crate::text::trimmed(g@).len() > 0 {
            prompt + "\n\nYour first message must be EXACTLY this greeting: \""@
                + crate::text::trimmed(g@) + "\""@
        } else {
            prompt
        },
        None => prompt,
    }
}

/// Adds the greeting to the system prompt.
pub fn system_prompt_with_greeting(prompt: &str, greeting: &Option<String>) -> (r: String)
    ensures
        r@ == prompt_with_greeting(prompt@, *greeting),
{
    let mut r = prompt.to_owned();
    if let Some(g) = greeting {
        let greet = trim(g.as_str());
        if !greet.as_str().is_empty() {
            r.append("\n\nYour first message must be EXACTLY this greeting: \"");
            r.append(greet.as_str());
            r.append("\"");
        }
    }
    r
}

/// What the session does with an API key.
#[derive(Clone, Copy, Debug, PartialEq, Eq, Structural)]
pub enum Admission {
    /// Connect to the model.
    Connect,
    /// The session is over: there is no key.
    Refused,
}

/// The position of a flush of the bot transcript among events: one event or none.
pub open spec fn flush_len(text: Seq<char>) -> nat {
    if crate::text::trimmed(text).len() > 0 {
        1
    } else {
        0
    }
}

/// `events` are what flushing the bot transcript emits.
pub open spec fn is_flush(text: Seq<char>, events: Seq<Event>) -> bool {
    &&& events.len() == flush_len(text)
    &&& events.len() == 1 ==> crate::event::is_transcript(
        events[0],
        "assistant"@,
        crate::text::trimmed(text),
    )
}

/// What the bot has said in this turn, after one more text of it.
pub open spec fn said_after(said: Seq<char>, text: Seq<char>, is_final: bool) -> Seq<char> {
    if text.len() == 0 {
        said
    } else if is_final {
        text
    } else {
        said + text
    }
}

/// What the bot has said after several pieces of text.
pub open spec fn said_after_pieces(said: Seq<char>, pieces: Seq<Seq<char>>) -> Seq<char>
    decreases pieces.len(),
{
    if pieces.len() == 0 {
        said
    } else {
        said_after(said_after_pieces(said, pieces.drop_last()), pieces.last(), false)
    }
}

/// `e` reports a finished generation with the given token counts and nothing else known.
pub open spec fn is_llm_complete(
    e: Event,
    model: Seq<char>,
    prompt_tokens: u32,
    completion_tokens: u32,
) -> bool {
    &&& e matches Event::LlmComplete(d)
    &&& d.provider@ == PROVIDER@
    &&& d.model@ == model
    &&& d.input_json@ == "{}"@
    &&& d.output_json@ == "{}"@
    &&& d.tools_json is None
    &&& d.temperature.bits == 0
    &&& d.max_tokens == 0
    &&& d.duration_ms.ns == 0
    &&& d.ttfb_ms is None
    &&& d.prompt_tokens == prompt_tokens
    &&& d.completion_tokens == completion_tokens
    &&& d.cache_read_tokens is None
    &&& d.span_label@ == "llm"@
}

impl NativeSession {
    /// The end of the drain is known whenever the session is hanging up, and lies within its limit.
    pub open spec fn wf(&self) -> bool {
        &&& self.hangup_target is Some <==> self.hangup_max_target is Some
        &&& self.hangup_target is Some ==> self.hangup_target->0 <= self.hangup_max_target->0
    }

    /// `self` and `other` differ in their tracer at most.
    pub open spec fn same_but_tracer(self, other: NativeSession) -> bool {
        self == (NativeSession { tracer: self.tracer, ..other })
    }

    /// The model name in events.
    pub open spec fn model_label(self) -> Seq<char> {
        match self.model {
            Some(m) => m@,
            None => PROVIDER@,
        }
    }

    /// The events that a step emitted.
    pub open spec fn emitted(before: NativeSession, after: NativeSession) -> Seq<Event> {
        crate::tracer::new_events(before.tracer, after.tracer)
    }

    /// Nothing emitted before a step was taken back.
    pub open spec fn grew(before: NativeSession, after: NativeSession) -> bool {
        crate::tracer::grew(before.tracer, after.tracer)
    }

    /// A session that has not started yet.
    pub fn new(
        tracer: Tracer,
        model: Option<String>,
        voice_id: String,
        language: String,
        recording_enabled: bool,
    ) -> (s: Self)
        ensures
            s.wf(),
            s.tracer == tracer,
            s.model == model,
            s.voice_id == voice_id,
            s.language == language,
            !s.vad_ok,
            s.recording_enabled == recording_enabled,
            !s.bot_speaking,
            s.bot_transcript@ == Seq::<char>::empty(),
            s.hangup_target is None,
    {
        NativeSession {
            tracer,
            model,
            voice_id,
            language,
            vad_ok: false,
            recording_enabled,
            bot_speaking: false,
            bot_transcript: String::new(),
            hangup_target: None,
            hangup_max_target: None,
        }
    }

    /// Starts the session: announces it, and ends it at once where the API key is blank.
    pub fn start(&mut self, api_key: &str) -> (a: Admission)
        requires
            old(self).wf(),
        ensures
            final(self).wf(),
            final(self).same_but_tracer(*old(self)),
            final(self).tracer == (Tracer { bus: final(self).tracer.bus, ..old(self).tracer }),
            Self::grew(*old(self), *final(self)),
            ({
                let events = Self::emitted(*old(self), *final(self));
                if crate::text::trimmed(api_key@).len() > 0 {
                    a is Connect && events == seq![Event::SessionReady]
                } else {
                    &&& a is Refused
                    &&& events.len() == 3
                    &&& events[0] is SessionReady
                    &&& crate::event::is_error(
                        events[1],
                        "native_multimodal"@,
                        "No Gemini API key found in Native Multimodal configuration."@,
                    )
                    &&& events[2] is SessionEnded
                }
            }),
    {
        self.tracer.emit(Event::SessionReady);
        if !trim(api_key).as_str().is_empty() {
            return Admission::Connect;
        }
        self.tracer.emit(
            Event::Error {
                source: "native_multimodal".to_owned(),
                message: "No Gemini API key found in Native Multimodal configuration.".to_owned(),
            },
        );
        self.tracer.emit(Event::SessionEnded);
        assert(self.tracer.bus.pending@ =~= old(self).tracer.bus.pending@ + Self::emitted(
            *old(self),
            *self,
        ));
        Admission::Refused
    }

    /// The first connection failed: reports it and ends the session.
    pub fn on_connect_failed(&mut self, reason: &str)
        requires
            old(self).wf(),
        ensures
            final(self).wf(),
            final(self).same_but_tracer(*old(self)),
            final(self).tracer == (Tracer { bus: final(self).tracer.bus, ..old(self).tracer }),
            Self::grew(*old(self), *final(self)),
            ({
                let events = Self::emitted(*old(self), *final(self));
                &&& events.len() == 2
                &&& crate::event::is_error(
                    events[0],
                    "native_multimodal"@,
                    "Gemini Live connect failed: "@ + reason@,
                )
                &&& events[1] is SessionEnded
            }),
    {
        self.tracer.emit(
            Event::Error {
                source: "native_multimodal".to_owned(),
                message: concat("Gemini Live connect failed: ", reason),
            },
        );
        self.tracer.emit(Event::SessionEnded);
        assert(self.tracer.bus.pending@ =~= old(self).tracer.bus.pending@ + Self::emitted(
            *old(self),
            *self,
        ));
    }

    /// Notes whether voice activity is detected locally; without it there is no barge-in.
    pub fn set_vad_ok(&mut self, ok: bool)
        requires
            old(self).wf(),
        ensures
            final(self).wf(),
            *final(self) == (NativeSession { vad_ok: ok, ..*old(self) }),
    {
        self.vad_ok = ok;
    }

    /// How sure the detector has to be of the next packet. The microphone is not denoised here, so
    /// it has to be surer while the bot speaks.
    pub fn vad_threshold(&self) -> (t: VadThreshold)
        ensures
            t == if self.bot_speaking {
                VadThreshold::PlaybackRaw
            } else {
                VadThreshold::Idle
            },
    {
        if self.bot_speaking {
            VadThreshold::PlaybackRaw
        } else {
            VadThreshold::Idle
        }
    }

    /// Takes a microphone frame at [`SAMPLE_RATE`]: it is put on the bus where the session is
    /// recorded, and its samples go to the model.
    pub fn on_mic_frame(&mut self, frame: &[u8]) -> (samples: Vec<i16>)
        requires
            old(self).wf(),
        ensures
            final(self).wf(),
            final(self).same_but_tracer(*old(self)),
            final(self).tracer == (Tracer { bus: final(self).tracer.bus, ..old(self).tracer }),
            Self::grew(*old(self), *final(self)),
            samples@ == crate::pcm::samples_of(frame@),
            ({
                let events = Self::emitted(*old(self), *final(self));
                if old(self).recording_enabled {
                    &&& events.len() == 1
                    &&& events[0] matches Event::UserAudio { pcm, sample_rate }
                    &&& pcm@ == frame@
                    &&& sample_rate == SAMPLE_RATE
                } else {
                    events.len() == 0
                }
            }),
    {
        if self.recording_enabled {
            self.tracer.emit(
                Event::UserAudio {
                    pcm: vstd::slice::slice_to_vec(frame),
                    sample_rate: SAMPLE_RATE,
                },
            );
        }
        assert(self.tracer.bus.pending@ =~= old(self).tracer.bus.pending@ + Self::emitted(
            *old(self),
            *self,
        ));
        whole_samples(frame)
    }

    fn flush_transcript(&mut self)
        requires
            old(self).wf(),
        ensures
            final(self).wf(),
            *final(self) == (NativeSession {
                tracer: final(self).tracer,
                bot_transcript: final(self).bot_transcript,
                ..*old(self)
            }),
            final(self).tracer == (Tracer { bus: final(self).tracer.bus, ..old(self).tracer }),
            final(self).bot_transcript@ == Seq::<char>::empty(),
            Self::grew(*old(self), *final(self)),
            is_flush(old(self).bot_transcript@, Self::emitted(*old(self), *final(self))),
    {
        let text = trim(self.bot_transcript.as_str());
        self.bot_transcript = String::new();
        if !text.as_str().is_empty() {
            self.tracer.emit(Event::Transcript { role: "assistant".to_owned(), text });
        }
        assert(self.tracer.bus.pending@ =~= old(self).tracer.bus.pending@ + Self::emitted(
            *old(self),
            *self,
        ));
    }

    /// `events` are what the start of user speech emits: a breadcrumb and, where it interrupts the
    /// bot, what the bot said so far, the end of the turn, and the news that the bot is silent.
    pub open spec fn is_speech_start(self, events: Seq<Event>, now: u64) -> bool {
        let flushed = flush_len(self.bot_transcript@) as int;
        let closed = self.tracer.cancel_events();
        let at = 1 + flushed + closed.len();
        let elapsed = self.tracer.elapsed_us(now);
        &&& events.len() == if self.bot_speaking {
            at + 3
        } else {
            1
        }
        &&& crate::event::is_trace(
            events[0],
            (self.tracer.trace_seq + 1) as u64,
            elapsed,
            "SpeechStarted"@,
        )
        &&& self.bot_speaking ==> {
            &&& is_flush(self.bot_transcript@, events.subrange(1, 1 + flushed))
            &&& events.subrange(1 + flushed, at) == closed
            &&& crate::event::is_trace(
                events[at],
                (self.tracer.trace_seq + 2) as u64,
                elapsed,
                "SpeechEnded"@,
            )
            &&& events[at + 1] is Interrupt
            &&& events[at + 2] matches Event::StateChanged { state }
            &&& state@ == "listening"@
        }
    }

    /// Takes the last report of the detector on a packet. Tells whether the bot is interrupted: the
    /// caller then stops the model and the playback.
    pub fn on_vad_event(&mut self, event: Option<VadEvent>, now: u64) -> (interrupt: bool)
        requires
            old(self).wf(),
            old(self).tracer.trace_seq < u64::MAX - 1,
        ensures
            final(self).wf(),
            interrupt == (event == Some(VadEvent::SpeechStart) && old(self).bot_speaking),
            event != Some(VadEvent::SpeechStart) ==> *final(self) == *old(self),
            event == Some(VadEvent::SpeechStart) ==> {
                &&& Self::grew(*old(self), *final(self))
                &&& old(self).is_speech_start(Self::emitted(*old(self), *final(self)), now)
                &&& !final(self).bot_speaking
                &&& *final(self) == (NativeSession {
                    tracer: final(self).tracer,
                    bot_transcript: final(self).bot_transcript,
                    bot_speaking: false,
                    ..*old(self)
                })
                &&& final(self).tracer.session_start == old(self).tracer.session_start
                &&& final(self).tracer.turn_count == old(self).tracer.turn_count
                &&& final(self).tracer.trace_seq == old(self).tracer.trace_seq + if interrupt {
                    2int
                } else {
                    1
                }
            },
            interrupt ==> {
                &&& final(self).tracer.tts_text@ == Seq::<char>::empty()
                &&& final(self).bot_transcript@ == Seq::<char>::empty()
                &&& !final(self).tracer.turn_open
                &&& final(self).tracer.turn_tracker
                    == old(self).tracer.turn_tracker.without_pipeline()
            },
            !interrupt ==> {
                &&& final(self).tracer.tts_text == old(self).tracer.tts_text
                &&& final(self).bot_transcript == old(self).bot_transcript
                &&& final(self).tracer.turn_open == old(self).tracer.turn_open
                &&& final(self).tracer.turn_tracker == old(self).tracer.turn_tracker
            },
    {
        let started = match event {
            Some(e) => e == VadEvent::SpeechStart,
            None => false,
        };
        if !started {
            return false;
        }
        let ghost s0 = *self;
        self.tracer.trace("SpeechStarted", now);
        let ghost s1 = *self;
        if !self.bot_speaking {
            return false;
        }
        self.bot_speaking = false;
        self.flush_transcript();
        let ghost s2 = *self;
        self.tracer.cancel_turn();
        let ghost s3 = *self;
        self.tracer.trace("SpeechEnded", now);
        let ghost s4 = *self;
        self.tracer.emit(Event::Interrupt);
        self.tracer.emit(Event::StateChanged { state: "listening".to_owned() });
        proof {
            let e12 = Self::emitted(s1, s2);
            crate::tracer::lemma_new_events_add(s0.tracer, s1.tracer, s2.tracer);
            crate::tracer::lemma_new_events_add(s0.tracer, s2.tracer, s3.tracer);
            crate::tracer::lemma_new_events_add(s0.tracer, s3.tracer, s4.tracer);
            assert(self.tracer.bus.pending@ =~= s4.tracer.bus.pending@ + Self::emitted(s4, *self));
            crate::tracer::lemma_new_events_add(s0.tracer, s4.tracer, self.tracer);
            let events = Self::emitted(s0, *self);
            let f = flush_len(s0.bot_transcript@) as int;
            let closed = s0.tracer.cancel_events();
            assert(events.subrange(1, 1 + f) =~= e12);
            assert(events.subrange(1 + f, 1 + f + closed.len()) =~= closed);
        }
        true
    }

    /// The bot has something to say. Tells whether it is the first audio of its turn: the caller
    /// then moves the audio cursor to the present and starts to count playback anew.
    pub fn on_bot_audio_begin(&mut self, now: u64) -> (first: bool)
        requires
            old(self).wf(),
        ensures
            final(self).wf(),
            first == !old(self).bot_speaking,
            *final(self) == (NativeSession {
                bot_speaking: true,
                tracer: final(self).tracer,
                ..*old(self)
            }),
            final(self).tracer == if first {
                Tracer {
                    turn_tracker: crate::turn_tracker::TurnTracker {
                        pipeline: crate::turn_tracker::PipelineAnchors {
                            tts_first_audio: crate::turn_tracker::first_write(
                                old(self).tracer.turn_tracker.pipeline.tts_first_audio,
                                now,
                            ),
                            ..old(self).tracer.turn_tracker.pipeline
                        },
                        ..old(self).tracer.turn_tracker
                    },
                    ..old(self).tracer
                }
            } else {
                old(self).tracer
            },
    {
        if self.bot_speaking {
            return false;
        }
        self.bot_speaking = true;
        self.tracer.mark_tts_first_audio(now);
        true
    }

    /// When the session ends if playback lasts `remaining_ns` from `now`, but at `limit` at the
    /// latest.
    pub open spec fn drain_end(now: u64, remaining_ns: u64, limit: u64) -> u64 {
        if now + remaining_ns <= limit {
            (now + remaining_ns) as u64
        } else {
            limit
        }
    }

    /// Takes bot audio, resampled to [`WEBRTC_RATE`], with its position on the agent timeline and
    /// the playback time that is left with it. Puts it on the bus; a pending hang-up waits for it.
    pub fn on_bot_audio(&mut self, pcm: Vec<u8>, offset_samples: u64, remaining_ns: u64, now: u64)
        requires
            old(self).wf(),
        ensures
            final(self).wf(),
            *final(self) == (NativeSession {
                tracer: final(self).tracer,
                hangup_target: match old(self).hangup_max_target {
                    Some(limit) => Some(Self::drain_end(now, remaining_ns, limit)),
                    None => None,
                },
                ..*old(self)
            }),
            final(self).tracer == (Tracer { bus: final(self).tracer.bus, ..old(self).tracer }),
            Self::grew(*old(self), *final(self)),
            Self::emitted(*old(self), *final(self)) == seq![
                Event::AgentAudio { pcm, sample_rate: WEBRTC_RATE, offset_samples },
            ],
    {
        if let Some(limit) = self.hangup_max_target {
            let target: u64 = now.saturating_add(remaining_ns);
            self.hangup_target = Some(
                if target > limit {
                    limit
                } else {
                    target
                },
            );
        }
        self.tracer.emit(Event::AgentAudio { pcm, sample_rate: WEBRTC_RATE, offset_samples });
    }

    fn model_name(&self) -> (m: String)
        ensures
            m@ == self.model_label(),
    {
        match &self.model {
            Some(m) => m.clone(),
            None => PROVIDER.to_owned(),
        }
    }

    /// `events` are what a completed turn emits: what the bot said, the generation, and the end of
    /// the turn.
    pub open spec fn is_turn_completion(
        self,
        events: Seq<Event>,
        prompt_tokens: u32,
        completion_tokens: u32,
        now: u64,
    ) -> bool {
        let f = flush_len(self.bot_transcript@) as int;
        &&& events.len() >= f + 1
        &&& is_flush(self.bot_transcript@, events.take(f))
        &&& is_llm_complete(events[f], self.model_label(), prompt_tokens, completion_tokens)
        &&& crate::tracer::is_turn_finish(
            self.tracer,
            events.skip(f + 1),
            false,
            PROVIDER@,
            self.model_label(),
            self.voice_id@,
            now,
        )
    }

    /// The model has completed its turn.
    pub fn on_turn_complete(&mut self, prompt_tokens: u32, completion_tokens: u32, now: u64)
        requires
            old(self).wf(),
        ensures
            final(self).wf(),
            *final(self) == (NativeSession {
                tracer: final(self).tracer,
                bot_transcript: final(self).bot_transcript,
                bot_speaking: false,
                ..*old(self)
            }),
            final(self).bot_transcript@ == Seq::<char>::empty(),
            !final(self).tracer.turn_open,
            final(self).tracer.turn_tracker == old(self).tracer.tracker_after_finish(),
            final(self).tracer.tts_text@ == if old(self).tracer.turn_open {
                Seq::<char>::empty()
            } else {
                old(self).tracer.tts_text@
            },
            final(self).tracer.turn_count == old(self).tracer.turn_count,
            final(self).tracer.trace_seq == old(self).tracer.trace_seq,
            final(self).tracer.session_start == old(self).tracer.session_start,
            Self::grew(*old(self), *final(self)),
            old(self).is_turn_completion(
                Self::emitted(*old(self), *final(self)),
                prompt_tokens,
                completion_tokens,
                now,
            ),
    {
        let ghost s0 = *self;
        self.bot_speaking = false;
        self.flush_transcript();
        let ghost s1 = *self;
        let model = self.model_name();
        self.tracer.emit(
            Event::LlmComplete(
                LlmCompletionData {
                    provider: PROVIDER.to_owned(),
                    model: model.clone(),
                    input_json: "{}".to_owned(),
                    output_json: "{}".to_owned(),
                    tools_json: None,
                    temperature: Float64 { bits: 0 },
                    max_tokens: 0,
                    duration_ms: Millis { ns: 0 },
                    ttfb_ms: None,
                    prompt_tokens,
                    completion_tokens,
                    cache_read_tokens: None,
                    span_label: "llm".to_owned(),
                },
            ),
        );
        let ghost s2 = *self;
        let _metrics = self.tracer.finish_turn(
            false,
            PROVIDER,
            model.as_str(),
            self.voice_id.as_str(),
            now,
        );
        proof {
            crate::tracer::lemma_new_events_add(s0.tracer, s1.tracer, s2.tracer);
            crate::tracer::lemma_new_events_add(s0.tracer, s2.tracer, self.tracer);
            let events = Self::emitted(s0, *self);
            let f = flush_len(s0.bot_transcript@) as int;
            assert(events.take(f) =~= Self::emitted(s0, s1));
            assert(events.skip(f + 1) =~= Self::emitted(s2, *self));
            assert(events[f] == Self::emitted(s1, s2)[0]);
        }
    }

    /// What the user said, which is put on the bus. The final text opens a turn; a text that is not
    /// final yet is an interim one.
    pub fn on_input_transcript(&mut self, text: String, is_final: bool, now: u64)
        requires
            old(self).wf(),
            old(self).tracer.turn_count < u64::MAX,
        ensures
            final(self).wf(),
            final(self).same_but_tracer(*old(self)),
            Self::grew(*old(self), *final(self)),
            !is_final ==> {
                let events = Self::emitted(*old(self), *final(self));
                &&& events.len() == 1
                &&& crate::event::is_transcript_chunk(events[0], "user"@, text@)
                &&& final(self).tracer == (Tracer {
                    bus: final(self).tracer.bus,
                    ..old(self).tracer
                })
            },
            is_final ==> {
                let events = Self::emitted(*old(self), *final(self));
                &&& events.len() > 0
                &&& crate::event::is_transcript(events[0], "user"@, text@)
                &&& crate::tracer::is_turn_start(
                    old(self).tracer,
                    events.skip(1),
                    PROVIDER@,
                    old(self).model_label(),
                    text@,
                    old(self).language@,
                    old(self).vad_ok,
                    now,
                )
                &&& final(self).tracer.turn_open
                &&& final(self).tracer.turn_count == old(self).tracer.turn_count + 1
                &&& final(self).tracer.turn_tracker == old(self).tracer.tracker_after_start()
                &&& final(self).tracer.tts_text@ == if old(self).tracer.turn_open {
                    Seq::<char>::empty()
                } else {
                    old(self).tracer.tts_text@
                }
                &&& final(self).tracer.trace_seq == old(self).tracer.trace_seq
                &&& final(self).tracer.session_start == old(self).tracer.session_start
            },
    {
        if !is_final {
            self.tracer.emit(
                Event::TranscriptChunk { role: "user".to_owned(), text, is_final: false },
            );
            return;
        }
        let ghost s0 = *self;
        self.tracer.emit(Event::Transcript { role: "user".to_owned(), text: text.clone() });
        let ghost s1 = *self;
        let model = self.model_name();
        self.tracer.start_turn(
            PROVIDER,
            model.as_str(),
            text.as_str(),
            self.language.as_str(),
            self.vad_ok,
            now,
        );
        proof {
            crate::tracer::lemma_new_events_add(s0.tracer, s1.tracer, self.tracer);
            assert(Self::emitted(s0, *self).skip(1) =~= Self::emitted(s1, *self));
        }
    }

    /// What the bot said. A piece that is not final is put on the bus as an interim text and added to
    /// what it said so far; the final text takes the place of that. Empty text changes nothing but
    /// the turn's metrics, which count the text as fed to synthesis.
    pub fn on_output_transcript(&mut self, text: String, is_final: bool, now: u64)
        requires
            old(self).wf(),
        ensures
            final(self).wf(),
            Self::grew(*old(self), *final(self)),
            ({
                let events = Self::emitted(*old(self), *final(self));
                if text@.len() > 0 && !is_final {
                    &&& events.len() == 1
                    &&& crate::event::is_transcript_chunk(events[0], "assistant"@, text@)
                } else {
                    events.len() == 0
                }
            }),
            final(self).bot_transcript@ == if text@.len() == 0 {
                old(self).bot_transcript@
            } else if is_final {
                text@
            } else {
                old(self).bot_transcript@ + text@
            },
            final(self).bot_transcript@ == said_after(old(self).bot_transcript@, text@, is_final),
            *final(self) == (NativeSession {
                tracer: final(self).tracer,
                bot_transcript: final(self).bot_transcript,
                ..*old(self)
            }),
            final(self).tracer.tts_text@ == old(self).tracer.tts_text@ + text@,
            final(self).tracer == (Tracer {
                bus: final(self).tracer.bus,
                tts_text: final(self).tracer.tts_text,
                turn_tracker: crate::turn_tracker::TurnTracker {
                    pipeline: crate::turn_tracker::PipelineAnchors {
                        tts_text_fed: crate::turn_tracker::first_write(
                            old(self).tracer.turn_tracker.pipeline.tts_text_fed,
                            now,
                        ),
                        ..old(self).tracer.turn_tracker.pipeline
                    },
                    ..old(self).tracer.turn_tracker
                },
                ..old(self).tracer
            }),
    {
        if !text.as_str().is_empty() {
            if is_final {
                self.bot_transcript = text.clone();
            } else {
                self.bot_transcript.append(text.as_str());
                self.tracer.emit(
                    Event::TranscriptChunk {
                        role: "assistant".to_owned(),
                        text: text.clone(),
                        is_final: false,
                    },
                );
            }
        }
        self.tracer.mark_tts_text_fed(now);
        self.tracer.append_tts_text(text.as_str());
    }

    /// A tool has started.
    pub fn on_tool_started(&mut self, id: String, name: String)
        requires
            old(self).wf(),
        ensures
            final(self).wf(),
            final(self).same_but_tracer(*old(self)),
            final(self).tracer == (Tracer { bus: final(self).tracer.bus, ..old(self).tracer }),
            Self::grew(*old(self), *final(self)),
            Self::emitted(*old(self), *final(self)).len() == 1,
            crate::event::is_tool_activity(
                Self::emitted(*old(self), *final(self))[0],
                Some(id),
                name@,
                "started"@,
            ),
    {
        self.tracer.emit(
            Event::ToolActivity {
                tool_call_id: Some(id),
                tool_name: name,
                status: "started".to_owned(),
                error_message: None,
            },
        );
    }

    /// A tool has completed.
    pub fn on_tool_completed(&mut self, name: String, success: bool)
        requires
            old(self).wf(),
        ensures
            final(self).wf(),
            final(self).same_but_tracer(*old(self)),
            final(self).tracer == (Tracer { bus: final(self).tracer.bus, ..old(self).tracer }),
            Self::grew(*old(self), *final(self)),
            Self::emitted(*old(self), *final(self)).len() == 1,
            crate::event::is_tool_activity(
                Self::emitted(*old(self), *final(self))[0],
                None,
                name@,
                if success {
                    "completed"@
                } else {
                    "failed"@
                },
            ),
    {
        let status = if success {
            "completed"
        } else {
            "failed"
        };
        self.tracer.emit(
            Event::ToolActivity {
                tool_call_id: None,
                tool_name: name,
                status: status.to_owned(),
                error_message: None,
            },
        );
    }

    /// The agent hangs up: the session ends when playback has drained, after 15 seconds at the
    /// latest. Only the first hang-up counts.
    pub fn on_hang_up(&mut self, remaining_ns: u64, now: u64)
        requires
            old(self).wf(),
            now <= u64::MAX - MAX_DRAIN_NS,
        ensures
            final(self).wf(),
            old(self).hangup_target is Some ==> *final(self) == *old(self),
            old(self).hangup_target is None ==> {
                &&& *final(self) == (NativeSession {
                    tracer: final(self).tracer,
                    hangup_target: Some(
                        Self::drain_end(now, remaining_ns, (now + MAX_DRAIN_NS) as u64),
                    ),
                    hangup_max_target: Some((now + MAX_DRAIN_NS) as u64),
                    ..*old(self)
                })
                &&& final(self).tracer == (Tracer {
                    bus: final(self).tracer.bus,
                    ..old(self).tracer
                })
                &&& Self::grew(*old(self), *final(self))
                &&& Self::emitted(*old(self), *final(self)).len() == 1
                &&& crate::event::is_tool_activity(
                    Self::emitted(*old(self), *final(self))[0],
                    None,
                    "hang_up"@,
                    "completed"@,
                )
            },
    {
        if self.hangup_target.is_some() {
            return;
        }
        let delay: u64 = if remaining_ns <= MAX_DRAIN_NS {
            remaining_ns
        } else {
            MAX_DRAIN_NS
        };
        self.hangup_target = Some(now + delay);
        self.hangup_max_target = Some(now + MAX_DRAIN_NS);
        self.tracer.emit(
            Event::ToolActivity {
                tool_call_id: None,
                tool_name: "hang_up".to_owned(),
                status: "completed".to_owned(),
                error_message: None,
            },
        );
    }

    /// Playback has drained after a hang-up: reports what the bot said last and ends its turn.
    pub fn on_hangup_elapsed(&mut self, now: u64)
        requires
            old(self).wf(),
        ensures
            final(self).wf(),
            *final(self) == (NativeSession {
                tracer: final(self).tracer,
                bot_transcript: final(self).bot_transcript,
                ..*old(self)
            }),
            final(self).bot_transcript@ == Seq::<char>::empty(),
            !final(self).tracer.turn_open,
            final(self).tracer.turn_tracker == old(self).tracer.tracker_after_finish(),
            final(self).tracer.tts_text@ == if old(self).tracer.turn_open {
                Seq::<char>::empty()
            } else {
                old(self).tracer.tts_text@
            },
            final(self).tracer.turn_count == old(self).tracer.turn_count,
            final(self).tracer.trace_seq == old(self).tracer.trace_seq,
            final(self).tracer.session_start == old(self).tracer.session_start,
            Self::grew(*old(self), *final(self)),
            ({
                let events = Self::emitted(*old(self), *final(self));
                let f = flush_len(old(self).bot_transcript@) as int;
                &&& events.len() >= f
                &&& is_flush(old(self).bot_transcript@, events.take(f))
                &&& crate::tracer::is_turn_finish(
                    old(self).tracer,
                    events.skip(f),
                    false,
                    PROVIDER@,
                    old(self).model_label(),
                    old(self).voice_id@,
                    now,
                )
            }),
    {
        let ghost s0 = *self;
        self.flush_transcript();
        let ghost s1 = *self;
        let model = self.model_name();
        let _metrics = self.tracer.finish_turn(
            false,
            PROVIDER,
            model.as_str(),
            self.voice_id.as_str(),
            now,
        );
        proof {
            crate::tracer::lemma_new_events_add(s0.tracer, s1.tracer, self.tracer);
            let events = Self::emitted(s0, *self);
            let f = flush_len(s0.bot_transcript@) as int;
            assert(events.take(f) =~= Self::emitted(s0, s1));
            assert(events.skip(f) =~= Self::emitted(s1, *self));
        }
    }

    /// The model reports an error; the session goes on.
    pub fn on_provider_error(&mut self, message: String)
        requires
            old(self).wf(),
        ensures
            final(self).wf(),
            final(self).same_but_tracer(*old(self)),
            final(self).tracer == (Tracer { bus: final(self).tracer.bus, ..old(self).tracer }),
            Self::grew(*old(self), *final(self)),
            Self::emitted(*old(self), *final(self)).len() == 1,
            crate::event::is_error(
                Self::emitted(*old(self), *final(self))[0],
                PROVIDER@,
                message@,
            ),
    {
        self.tracer.emit(Event::Error { source: PROVIDER.to_owned(), message });
    }

    /// The model connection was lost and is back: the bot is silent and its turn is cancelled.
    pub fn on_reconnected(&mut self)
        requires
            old(self).wf(),
        ensures
            final(self).wf(),
            *final(self) == (NativeSession {
                tracer: final(self).tracer,
                bot_speaking: false,
                ..*old(self)
            }),
            !final(self).tracer.turn_open,
            final(self).tracer.turn_tracker == old(self).tracer.turn_tracker.without_pipeline(),
            final(self).tracer.tts_text@ == Seq::<char>::empty(),
            final(self).tracer.turn_count == old(self).tracer.turn_count,
            final(self).tracer.trace_seq == old(self).tracer.trace_seq,
            final(self).tracer.session_start == old(self).tracer.session_start,
            Self::grew(*old(self), *final(self)),
            Self::emitted(*old(self), *final(self)) == old(self).tracer.cancel_events(),
    {
        self.bot_speaking = false;
        self.tracer.cancel_turn();
    }

    /// The session is over.
    pub fn end(&mut self)
        requires
            old(self).wf(),
        ensures
            final(self).wf(),
            final(self).same_but_tracer(*old(self)),
            final(self).tracer == (Tracer { bus: final(self).tracer.bus, ..old(self).tracer }),
            Self::grew(*old(self), *final(self)),
            Self::emitted(*old(self), *final(self)) == seq![Event::SessionEnded],
    {
        self.tracer.emit(Event::SessionEnded);
    }
}

/// Attempts to bring a lost model connection back.
pub const MAX_ATTEMPTS: u32 = 5;

/// Wait after the first failed attempt.
pub const FIRST_BACKOFF_MS: u64 = 500;

/// What to do next about a lost model connection.
#[derive(Clone, Copy, Debug, PartialEq, Eq, Structural)]
pub enum ReconnectStep {
    /// The connection is back.
    Connected,
    /// Wait, then try again.
    Retry { wait_ms: u64 },
    /// Wait, then end the session.
    GiveUp { wait_ms: u64 },
}

/// The wait after failed attempt number `n`: it doubles with each attempt.
pub open spec fn backoff_ms(n: nat) -> nat
    decreases n,
{
    if n <= 1 {
        FIRST_BACKOFF_MS as nat
    } else {
        2 * backoff_ms((n - 1) as nat)
    }
}

/// The waits after the first `n` failed attempts, together.
pub open spec fn total_backoff_ms(n: nat) -> nat
    decreases n,
{
    if n == 0 {
        0
    } else {
        total_backoff_ms((n - 1) as nat) + backoff_ms(n)
    }
}

/// A lost model connection that is being brought back.
#[derive(Clone, Copy, Debug, PartialEq, Eq, Structural)]
pub struct Reconnect {
    /// Failed attempts so far.
    pub failed: u32,
    /// Wait after the next failed attempt.
    pub next_wait_ms: u64,
}

impl Reconnect {
    /// Fewer attempts failed than may, and the wait is that of the next attempt.
    pub open spec fn wf(&self) -> bool {
        self.failed < MAX_ATTEMPTS && self.next_wait_ms == backoff_ms((self.failed + 1) as nat)
    }

    /// An attempt that came out as `connected` says leads to `step` and to `next`.
    pub open spec fn steps(self, connected: bool, step: ReconnectStep, next: Reconnect) -> bool {
        match step {
            ReconnectStep::Connected => connected && next == self,
            ReconnectStep::Retry { wait_ms } => {
                &&& !connected
                &&& next.failed == self.failed + 1
                &&& next.failed < MAX_ATTEMPTS
                &&& next.wf()
                &&& wait_ms == self.next_wait_ms
            },
            ReconnectStep::GiveUp { wait_ms } => {
                &&& !connected
                &&& next.failed == self.failed + 1
                &&& next.failed == MAX_ATTEMPTS
                &&& wait_ms == self.next_wait_ms
            },
        }
    }

    /// No attempt was made yet.
    pub fn new() -> (r: Self)
        ensures
            r.wf(),
            r.failed == 0,
    {
        Reconnect { failed: 0, next_wait_ms: FIRST_BACKOFF_MS }
    }

    /// Takes the outcome of an attempt.
    pub fn on_attempt(&mut self, connected: bool) -> (step: ReconnectStep)
        requires
            old(self).wf(),
        ensures
            connected ==> step is Connected && *final(self) == *old(self),
            old(self).steps(connected, step, *final(self)),
            !connected ==> {
                let n = (old(self).failed + 1) as nat;
                &&& final(self).failed == n
                &&& if n < MAX_ATTEMPTS {
                    step == (ReconnectStep::Retry { wait_ms: backoff_ms(n) as u64 })
                        && final(self).wf()
                } else {
                    step == (ReconnectStep::GiveUp { wait_ms: backoff_ms(n) as u64 })
                }
            },
    {
        if connected {
            return ReconnectStep::Connected;
        }
        proof {
            reveal_with_fuel(backoff_ms, 6);
        }
        let wait_ms: u64 = self.next_wait_ms;
        self.failed = self.failed + 1;
        self.next_wait_ms = wait_ms * 2;
        if self.failed < MAX_ATTEMPTS {
            ReconnectStep::Retry { wait_ms }
        } else {
            ReconnectStep::GiveUp { wait_ms }
        }
    }
}

/// Each wait is twice the one before, so however many attempts fail, all waits together are one
/// first wait short of the next one.
pub proof fn law_backoff_doubles(n: nat)
    requires
        n >= 1,
    ensures
        backoff_ms(n + 1) == 2 * backoff_ms(n),
        total_backoff_ms(n) == backoff_ms(n + 1) - FIRST_BACKOFF_MS,
    decreases n,
{
    reveal_with_fuel(total_backoff_ms, 2);
    if n > 1 {
        law_backoff_doubles((n - 1) as nat);
    }
}

/// A hang-up never keeps the session longer than 15 seconds, however much audio still comes.
pub proof fn law_drain_is_limited(now: u64, remaining_ns: u64, later: u64, more_ns: u64)
    requires
        now <= u64::MAX - MAX_DRAIN_NS,
    ensures
        NativeSession::drain_end(now, remaining_ns, (now + MAX_DRAIN_NS) as u64) <= now
            + MAX_DRAIN_NS,
        NativeSession::drain_end(later, more_ns, (now + MAX_DRAIN_NS) as u64) <= now
            + MAX_DRAIN_NS,
{
}

/// What the bot said is reported once: after its turn is completed there is nothing left to report
/// until it speaks again.
pub proof fn law_transcript_reported_once(text: Seq<char>, events: Seq<Event>)
    requires
        text.len() == 0,
        is_flush(text, events),
    ensures
        events.len() == 0,
{
    assert(crate::text::trim_start_of(text) == text);
    assert(crate::text::trim_end_of(text) == text);
}

/// What the bot has said is all of its pieces, one after the other in the order in which they came:
/// character `j` of a piece follows all pieces before it.
pub proof fn law_pieces_are_said_in_order(said: Seq<char>, pieces: Seq<Seq<char>>, i: int, j: int)
    requires
        0 <= i < pieces.len(),
        0 <= j < pieces[i].len(),
    ensures
        ({
            let before = said_after_pieces(said, pieces.take(i)).len() as int;
            let all = said_after_pieces(said, pieces);
            &&& before + pieces[i].len() <= all.len()
            &&& all[before + j] == pieces[i][j]
            &&& forall|k: int| 0 <= k < said.len() ==> #[trigger] all[k] == said[k]
            &&& said.len() <= before
        }),
    decreases pieces.len(),
{
    let rest = pieces.drop_last();
    lemma_said_grows(said, rest);
    if i == pieces.len() - 1 {
        assert(pieces.take(i) =~= rest);
    } else {
        assert(rest[i] == pieces[i]);
        assert(rest.take(i) =~= pieces.take(i));
        law_pieces_are_said_in_order(said, rest, i, j);
    }
}

proof fn lemma_said_grows(said: Seq<char>, pieces: Seq<Seq<char>>)
    ensures
        said.len() <= said_after_pieces(said, pieces).len(),
        forall|k: int|
            0 <= k < said.len() ==> #[trigger] said_after_pieces(said, pieces)[k] == said[k],
    decreases pieces.len(),
{
    if pieces.len() > 0 {
        lemma_said_grows(said, pieces.drop_last());
    }
}

/// The final text takes the place of all pieces, unless it is empty.
pub proof fn law_final_text_replaces_pieces(said: Seq<char>, text: Seq<char>)
    ensures
        text.len() > 0 ==> said_after(said, text, true) == text,
        text.len() == 0 ==> said_after(said, text, true) == said,
{
}

/// Flushing reports what the bot said without the white space around it, in one message of the
/// assistant, where it said anything.
pub proof fn law_flush_reports_what_was_said(text: Seq<char>, events: Seq<Event>)
    requires
        is_flush(text, events),
    ensures
        (exists|k: int| 0 <= k < text.len() && !crate::text::is_white_space(#[trigger] text[k]))
            <==> events.len() == 1,
        events.len() <= 1,
        events.len() == 1 ==> (events[0] matches Event::Transcript { role, text: t } && role@
            == "assistant"@ && exists|a: int, b: int| crate::text::is_trimming(text, t@, a, b)),
{
    crate::text::law_trimming_is_exact(text);
    let (a, b) = choose|a: int, b: int|
        crate::text::is_trimming(text, crate::text::trimmed(text), a, b);
    if events.len() == 1 {
        assert(!crate::text::is_white_space(text[a]));
    }
}

/// The bot is only interrupted while it speaks. What it said is then reported, its turn is closed
/// where one is open, and the news of the interruption and of silence come last, in this order.
pub proof fn law_speech_interrupts_the_bot(s: NativeSession, events: Seq<Event>, now: u64)
    requires
        s.is_speech_start(events, now),
        s.tracer.trace_seq < u64::MAX - 1,
    ensures
        events[0] matches Event::Trace { seq, label, .. } && seq == s.tracer.trace_seq + 1 && label@
            == "SpeechStarted"@,
        !s.bot_speaking ==> events.len() == 1,
        s.bot_speaking ==> {
            let n = events.len() as int;
            let said = exists|k: int|
                0 <= k < s.bot_transcript@.len() && !crate::text::is_white_space(
                    #[trigger] s.bot_transcript@[k],
                );
            &&& n == 4 + (if said {
                1int
            } else {
                0int
            }) + (if s.tracer.turn_open {
                1int
            } else {
                0int
            })
            &&& events[n - 1] matches Event::StateChanged { state }
            &&& state@ == "listening"@
            &&& events[n - 2] is Interrupt
            &&& events[n - 3] matches Event::Trace { seq, label, .. }
            &&& seq == s.tracer.trace_seq + 2
            &&& label@ == "SpeechEnded"@
            &&& s.tracer.turn_open ==> (events[n - 4] matches Event::TurnEnded {
                turn_number,
                was_interrupted,
                ..
            } && turn_number == s.tracer.turn_count && was_interrupted)
            &&& said ==> (events[1] matches Event::Transcript { role, .. } && role@
                == "assistant"@)
        },
{
    if s.bot_speaking {
        let f = flush_len(s.bot_transcript@) as int;
        let at = 1 + f + s.tracer.cancel_events().len();
        let flushed = events.subrange(1, 1 + f);
        law_flush_reports_what_was_said(s.bot_transcript@, flushed);
        crate::tracer::law_cancelled_turns_are_closed(s.tracer);
        if s.tracer.turn_open {
            assert(events.subrange(1 + f, at)[0] == events[1 + f]);
        }
        if f == 1 {
            assert(flushed[0] == events[1]);
        }
    }
}

/// A completed turn reports what the bot said first, then the generation with the token counts that
/// came, and the end of the turn last, which was not interrupted.
pub proof fn law_completed_turns_are_reported(
    s: NativeSession,
    events: Seq<Event>,
    prompt_tokens: u32,
    completion_tokens: u32,
    now: u64,
)
    requires
        s.is_turn_completion(events, prompt_tokens, completion_tokens, now),
    ensures
        ({
            let said = exists|k: int|
                0 <= k < s.bot_transcript@.len() && !crate::text::is_white_space(
                    #[trigger] s.bot_transcript@[k],
                );
            let at = if said {
                1int
            } else {
                0int
            };
            &&& events.len() > at
            &&& said ==> (events[0] matches Event::Transcript { role, .. } && role@
                == "assistant"@)
            &&& events[at] matches Event::LlmComplete(d)
            &&& d.prompt_tokens == prompt_tokens
            &&& d.completion_tokens == completion_tokens
            &&& s.model matches Some(m) ==> d.model@ == m@
            &&& s.tracer.turn_open ==> (events.last() matches Event::TurnEnded {
                turn_number,
                was_interrupted,
                ..
            } && turn_number == s.tracer.turn_count && !was_interrupted)
            &&& !s.tracer.turn_open ==> events.len() == at + 1
        }),
{
    let f = flush_len(s.bot_transcript@) as int;
    law_flush_reports_what_was_said(s.bot_transcript@, events.take(f));
    let tail = events.skip(f + 1);
    crate::tracer::law_finished_turns_are_reported(
        s.tracer,
        tail,
        false,
        PROVIDER@,
        s.model_label(),
        s.voice_id@,
        now,
    );
    if f == 1 {
        assert(events.take(f)[0] == events[0]);
    }
    if s.tracer.turn_open {
        assert(tail.last() == events.last());
    }
}

/// The session ends when playback has drained, or at its limit, whichever comes first.
pub proof fn law_drain_ends_with_playback_or_at_the_limit(now: u64, remaining_ns: u64, limit: u64)
    ensures
        NativeSession::drain_end(now, remaining_ns, limit) <= now + remaining_ns,
        NativeSession::drain_end(now, remaining_ns, limit) <= limit,
        NativeSession::drain_end(now, remaining_ns, limit) == now + remaining_ns
            || NativeSession::drain_end(now, remaining_ns, limit) == limit,
{
}

/// The waits after the five failed attempts are half a second, one, two, four and eight seconds.
pub proof fn law_waits_of_a_lost_connection(
    r: Reconnect,
    connected: bool,
    step: ReconnectStep,
    next: Reconnect,
)
    requires
        r.wf(),
        r.steps(connected, step, next),
    ensures
        step is Connected <==> connected,
        step is GiveUp <==> !connected && r.failed == 4,
        connected ==> next == r,
        !connected ==> next.failed == r.failed + 1,
        step matches ReconnectStep::Retry { wait_ms } ==> {
            &&& next.next_wait_ms == 2 * wait_ms
            &&& r.failed == 0 ==> wait_ms == 500
        },
        step matches ReconnectStep::GiveUp { wait_ms } ==> wait_ms == 8000,
{
    reveal_with_fuel(backoff_ms, 6);
}

/// The greeting is put after the prompt, in quotation marks and without the white space around it;
/// a blank one changes nothing.
pub proof fn law_prompt_ends_with_the_greeting(prompt: Seq<char>, greeting: Option<String>)
    ensures
        greeting is None ==> prompt_with_greeting(prompt, greeting) == prompt,
        greeting matches Some(g) ==> {
            let p = prompt_with_greeting(prompt, greeting);
            exists|a: int, b: int|
                {
                    &&& #[trigger] crate::text::is_trimming(g@, g@.subrange(a, b), a, b)
                    &&& a == b ==> p == prompt
                    &&& a < b ==> {
                        let n = p.len() as int;
                        &&& n > prompt.len() + (b - a) + 2
                        &&& prompt.is_prefix_of(p)
                        &&& p.last() == '"'
                        &&& p.subrange(n - 1 - (b - a), n - 1) == g@.subrange(a, b)
                        &&& p[n - 2 - (b - a)] == '"'
                    }
                }
        },
{
    if let Some(g) = greeting {
        let t = crate::text::trimmed(g@);
        crate::text::law_trimming_is_exact(g@);
        let (a, b) = choose|a: int, b: int| crate::text::is_trimming(g@, t, a, b);
        let p = prompt_with_greeting(prompt, greeting);
        let n = p.len() as int;
        let lead = "\n\nYour first message must be EXACTLY this greeting: \""@;
        reveal_strlit("\n\nYour first message must be EXACTLY this greeting: \"");
        reveal_strlit("\"");
        assert(crate::text::is_trimming(g@, g@.subrange(a, b), a, b));
        if a < b {
            assert(lead.len() == 53);
            assert(lead[52] == '"');
            assert(p.take(prompt.len() as int) =~= prompt);
            assert(p.subrange(n - 1 - (b - a), n - 1) =~= t);
        }
    }
}

/// However long playback still lasts, a hang-up ends the session within 15 seconds, and earlier only
/// where playback is over.
pub proof fn law_hang_up_waits_for_playback(now: u64, remaining_ns: u64)
    requires
        now <= u64::MAX - MAX_DRAIN_NS,
    ensures
        ({
            let end = NativeSession::drain_end(now, remaining_ns, (now + MAX_DRAIN_NS) as u64);
            &&& remaining_ns <= 15_000_000_000 ==> end == now + remaining_ns
            &&& remaining_ns > 15_000_000_000 ==> end == now + 15_000_000_000
        }),
{
}

} // verus!
