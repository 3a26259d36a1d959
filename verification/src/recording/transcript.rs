//! The transcript side of a recording.
use crate::clock::Millis;
use crate::event::Event;
use crate::text::{concat, decimal_of, same};
use vstd::prelude::*;

verus! {

/// A single entry of the session transcript.
#[derive(Clone, Debug)]
pub enum TranscriptEntry {
    /// User or assistant speech. `was_interrupted` is set where the assistant's speech was
    /// cancelled before it reached the client.
    Message { role: String, text: String, timestamp: String, was_interrupted: bool },
    /// A tool execution lifecycle event.
    ToolCall { tool_name: String, status: String, timestamp: String },
    /// Language-model generation metadata.
    LlmGeneration {
        provider: String,
        model: String,
        prompt_tokens: u32,
        completion_tokens: u32,
        duration_ms: Millis,
        timestamp: String,
    },
    /// Per-turn latency metrics.
    TurnMetrics {
        turn_id: u64,
        total_ms: Millis,
        user_agent_latency_ms: Option<Millis>,
        timestamp: String,
    },
    /// A session lifecycle event.
    SessionEvent { kind: String, timestamp: String },
}

/// The transcript of a session that is being recorded.
pub struct TranscriptLog {
    pub include_tool_details: bool,
    pub include_llm_metadata: bool,
    pub entries: Vec<TranscriptEntry>,
    /// The assistant message that a following interruption would silence.
    pub last_assistant_idx: Option<usize>,
    /// When the agent started to speak, for the assistant message that follows.
    pub pending_assistant_turn_ts: Option<String>,
}

/// A [`TranscriptLog`] as a value.
#[verifier::ext_equal]
pub struct LogView {
    pub include_tool_details: bool,
    pub include_llm_metadata: bool,
    pub entries: Seq<TranscriptEntry>,
    pub last_assistant_idx: Option<usize>,
    pub pending_assistant_turn_ts: Option<String>,
}

impl View for TranscriptLog {
    type V = LogView;

    open spec fn view(&self) -> LogView {
        LogView {
            include_tool_details: self.include_tool_details,
            include_llm_metadata: self.include_llm_metadata,
            entries: self.entries@,
            last_assistant_idx: self.last_assistant_idx,
            pending_assistant_turn_ts: self.pending_assistant_turn_ts,
        }
    }
}

/// The entry marked as interrupted.
pub open spec fn silenced(e: TranscriptEntry) -> TranscriptEntry {
    match e {
        TranscriptEntry::Message { role, text, timestamp, .. } => TranscriptEntry::Message {
            role,
            text,
            timestamp,
            was_interrupted: true,
        },
        _ => e,
    }
}

/// `e` is a session event of the given kind and time.
pub open spec fn is_session_event(e: TranscriptEntry, kind: Seq<char>, timestamp: String) -> bool {
    e matches TranscriptEntry::SessionEvent { kind: k, timestamp: t } && k@ == kind && t == timestamp
}

/// The kind of the entry that marks the start of turn `n`.
pub open spec fn turn_started_kind(n: u64) -> Seq<char> {
    "turn_started ("@ + crate::text::decimal(n as nat) + ")"@
}

impl LogView {
    /// The remembered assistant message is one.
    pub open spec fn wf(self) -> bool {
        self.last_assistant_idx matches Some(i) ==> {
            &&& i < self.entries.len()
            &&& self.entries[i as int] matches TranscriptEntry::Message { role, .. }
            &&& role@ == "assistant"@
        }
    }

    /// The log with one more entry.
    pub open spec fn with(self, e: TranscriptEntry) -> LogView {
        LogView { entries: self.entries.push(e), ..self }
    }

    /// The log after a spoken message. An assistant message is dated to the start of its audio
    /// where that is known, and is the one that an interruption would silence.
    pub open spec fn after_message(self, role: String, text: String, timestamp: String) -> LogView {
        if role@ == "assistant"@ {
            LogView {
                entries: self.entries.push(
                    TranscriptEntry::Message {
                        role,
                        text,
                        timestamp: match self.pending_assistant_turn_ts {
                            Some(t) => t,
                            None => timestamp,
                        },
                        was_interrupted: false,
                    },
                ),
                last_assistant_idx: Some(self.entries.len() as usize),
                pending_assistant_turn_ts: None,
                ..self
            }
        } else {
            LogView {
                entries: self.entries.push(
                    TranscriptEntry::Message { role, text, timestamp, was_interrupted: false },
                ),
                last_assistant_idx: None,
                ..self
            }
        }
    }

    /// The log after a turn has ended: an interruption silences the remembered assistant message.
    pub open spec fn after_turn_ended(self, was_interrupted: bool) -> LogView {
        LogView {
            entries: match self.last_assistant_idx {
                Some(i) => if was_interrupted {
                    self.entries.update(i as int, silenced(self.entries[i as int]))
                } else {
                    self.entries
                },
                None => self.entries,
            },
            last_assistant_idx: None,
            ..self
        }
    }

    /// `next` is the log after `event` at `timestamp`.
    pub open spec fn logs(self, event: Event, timestamp: String, next: LogView) -> bool {
        match event {
            Event::Transcript { role, text } => next == self.after_message(role, text, timestamp),
            Event::TurnEnded { was_interrupted, .. } => next == self.after_turn_ended(
                was_interrupted,
            ),
            Event::ToolActivity { tool_name, status, .. } => next == if self.include_tool_details {
                self.with(TranscriptEntry::ToolCall { tool_name, status, timestamp })
            } else {
                self
            },
            Event::LlmComplete(d) => next == if self.include_llm_metadata {
                self.with(
                    TranscriptEntry::LlmGeneration {
                        provider: d.provider,
                        model: d.model,
                        prompt_tokens: d.prompt_tokens,
                        completion_tokens: d.completion_tokens,
                        duration_ms: d.duration_ms,
                        timestamp,
                    },
                )
            } else {
                self
            },
            Event::TurnMetrics(m) => next == self.with(
                TranscriptEntry::TurnMetrics {
                    turn_id: m.turn_id,
                    total_ms: m.total_ms,
                    user_agent_latency_ms: m.user_agent_latency_ms,
                    timestamp,
                },
            ),
            Event::SessionEnded => {
                &&& next.entries.len() == self.entries.len() + 1
                &&& is_session_event(next.entries.last(), "ended"@, timestamp)
                &&& next == self.with(next.entries.last())
            },
            Event::TurnStarted { turn_number } => {
                &&& next.entries.len() == self.entries.len() + 1
                &&& is_session_event(
                    next.entries.last(),
                    turn_started_kind(turn_number),
                    timestamp,
                )
                &&& next == (LogView {
                    pending_assistant_turn_ts: None,
                    ..self.with(next.entries.last())
                })
            },
            _ => next == self,
        }
    }
}

impl TranscriptLog {
    /// The remembered assistant message is one.
    pub open spec fn wf(&self) -> bool {
        self@.wf()
    }

    /// The log of a session that started at `started_at`.
    pub fn new(include_tool_details: bool, include_llm_metadata: bool, started_at: String) -> (log:
        Self)
        ensures
            log.wf(),
            log@.include_tool_details == include_tool_details,
            log@.include_llm_metadata == include_llm_metadata,
            log@.entries.len() == 1,
            is_session_event(log@.entries[0], "started"@, started_at),
            log@.last_assistant_idx is None,
            log@.pending_assistant_turn_ts is None,
    {
        let mut entries: Vec<TranscriptEntry> = Vec::new();
        entries.push(
            TranscriptEntry::SessionEvent { kind: "started".to_owned(), timestamp: started_at },
        );
        TranscriptLog {
            include_tool_details,
            include_llm_metadata,
            entries,
            last_assistant_idx: None,
            pending_assistant_turn_ts: None,
        }
    }

    /// The agent has started to speak at `timestamp`.
    pub fn on_agent_speech(&mut self, timestamp: String)
        requires
            old(self).wf(),
        ensures
            final(self).wf(),
            final(self)@ == (LogView { pending_assistant_turn_ts: Some(timestamp), ..old(self)@ }),
    {
        self.pending_assistant_turn_ts = Some(timestamp);
    }

    fn on_message(&mut self, role: String, text: String, timestamp: String)
        requires
            old(self).wf(),
        ensures
            final(self).wf(),
            final(self)@ == old(self)@.after_message(role, text, timestamp),
    {
        let is_assistant = same(role.as_str(), "assistant");
        let idx: usize = self.entries.len();
        if is_assistant {
            let timestamp = match self.pending_assistant_turn_ts.take() {
                Some(t) => t,
                None => timestamp,
            };
            self.entries.push(
                TranscriptEntry::Message { role, text, timestamp, was_interrupted: false },
            );
            self.last_assistant_idx = Some(idx);
        } else {
            self.entries.push(
                TranscriptEntry::Message { role, text, timestamp, was_interrupted: false },
            );
            self.last_assistant_idx = None;
        }
        assert(self@ =~= old(self)@.after_message(role, text, timestamp));
    }

    fn on_turn_ended(&mut self, was_interrupted: bool)
        requires
            old(self).wf(),
        ensures
            final(self).wf(),
            final(self)@ == old(self)@.after_turn_ended(was_interrupted),
    {
        let last = self.last_assistant_idx.take();
        if was_interrupted {
            if let Some(idx) = last {
                let marked = match &self.entries[idx] {
                    TranscriptEntry::Message { role, text, timestamp, .. } => Some(
                        TranscriptEntry::Message {
                            role: role.clone(),
                            text: text.clone(),
                            timestamp: timestamp.clone(),
                            was_interrupted: true,
                        },
                    ),
                    _ => None,
                };
                if let Some(entry) = marked {
                    self.entries[idx] = entry;
                }
            }
        }
        assert(self@ =~= old(self)@.after_turn_ended(was_interrupted));
    }

    /// Logs `event`, which came at `timestamp`.
    pub fn on_event(&mut self, event: Event, timestamp: String)
        requires
            old(self).wf(),
        ensures
            final(self).wf(),
            old(self)@.logs(event, timestamp, final(self)@),
    {
        match event {
            Event::Transcript { role, text } => {
                self.on_message(role, text, timestamp);
            },
            Event::TurnEnded { was_interrupted, .. } => {
                self.on_turn_ended(was_interrupted);
            },
            Event::ToolActivity { tool_name, status, .. } => {
                if self.include_tool_details {
                    self.entries.push(TranscriptEntry::ToolCall { tool_name, status, timestamp });
                }
            },
            Event::LlmComplete(data) => {
                if self.include_llm_metadata {
                    self.entries.push(
                        TranscriptEntry::LlmGeneration {
                            provider: data.provider,
                            model: data.model,
                            prompt_tokens: data.prompt_tokens,
                            completion_tokens: data.completion_tokens,
                            duration_ms: data.duration_ms,
                            timestamp,
                        },
                    );
                }
            },
            Event::TurnMetrics(m) => {
                self.entries.push(
                    TranscriptEntry::TurnMetrics {
                        turn_id: m.turn_id,
                        total_ms: m.total_ms,
                        user_agent_latency_ms: m.user_agent_latency_ms,
                        timestamp,
                    },
                );
            },
            Event::SessionEnded => {
                self.entries.push(
                    TranscriptEntry::SessionEvent { kind: "ended".to_owned(), timestamp },
                );
            },
            Event::TurnStarted { turn_number } => {
                self.pending_assistant_turn_ts = None;
                let open = concat("turn_started (", decimal_of(turn_number).as_str());
                let kind = concat(open.as_str(), ")");
                self.entries.push(TranscriptEntry::SessionEvent { kind, timestamp });
            },
            _ => {},
        }
        assert(old(self)@.logs(event, timestamp, self@));
    }
}

/// Entries are only ever added at the end, and an entry that stands is changed by nothing but an
/// interruption, which silences the assistant message remembered last.
pub proof fn law_log_grows(before: LogView, event: Event, timestamp: String, after: LogView)
    requires
        before.wf(),
        before.logs(event, timestamp, after),
    ensures
        after.entries.len() >= before.entries.len(),
        after.entries.len() <= before.entries.len() + 1,
        forall|i: int|
            0 <= i < before.entries.len() ==> after.entries[i] == before.entries[i] || (event
                matches Event::TurnEnded { was_interrupted, .. } && was_interrupted
                && before.last_assistant_idx == Some(i as usize) && after.entries[i] == silenced(
                before.entries[i],
            )),
{
}

/// An assistant message followed by an interrupted end of turn is marked as interrupted; followed
/// by user speech first, it is not.
pub proof fn law_interruption_marks_last_assistant(
    log: LogView,
    assistant: String,
    user: String,
    said: String,
    heard: String,
    t1: String,
    t2: String,
)
    requires
        assistant@ == "assistant"@,
        user@ != "assistant"@,
        log.entries.len() + 1 < usize::MAX,
    ensures
        ({
            let spoken = log.after_message(assistant, said, t1);
            let cut = spoken.after_turn_ended(true);
            let answered = spoken.after_message(user, heard, t2).after_turn_ended(true);
            &&& cut.entries[log.entries.len() as int] matches TranscriptEntry::Message {
                was_interrupted,
                ..
            } && was_interrupted
            &&& answered.entries[log.entries.len() as int]
                == spoken.entries[log.entries.len() as int]
        }),
{
}

/// What is logged of an event is what it says, at the time at which it came.
pub proof fn law_entries_say_what_happened(
    before: LogView,
    event: Event,
    timestamp: String,
    after: LogView,
)
    requires
        before.logs(event, timestamp, after),
    ensures
        ({
            let n = before.entries.len() as int;
            let added = after.entries.len() == n + 1;
            let e = after.entries[n];
            &&& event matches Event::Transcript { role: r, text: t } ==> added && (e matches
                TranscriptEntry::Message { role, text, timestamp: at, was_interrupted } && role == r
                && text == t && !was_interrupted && (r@ != "assistant"@
                || before.pending_assistant_turn_ts is None ==> at == timestamp) && (r@
                == "assistant"@ && before.pending_assistant_turn_ts is Some ==> Some(at)
                == before.pending_assistant_turn_ts))
            &&& event matches Event::ToolActivity { tool_name: x, status: s, .. } ==> {
                &&& added <==> before.include_tool_details
                &&& !added ==> after == before
                &&& added ==> (e matches TranscriptEntry::ToolCall {
                    tool_name,
                    status,
                    timestamp: at,
                } && tool_name == x && status == s && at == timestamp)
            }
            &&& event matches Event::LlmComplete(d) ==> {
                &&& added <==> before.include_llm_metadata
                &&& !added ==> after == before
                &&& added ==> (e matches TranscriptEntry::LlmGeneration {
                    provider,
                    model,
                    prompt_tokens,
                    completion_tokens,
                    duration_ms,
                    timestamp: at,
                } && provider == d.provider && model == d.model && prompt_tokens
                    == d.prompt_tokens && completion_tokens == d.completion_tokens && duration_ms
                    == d.duration_ms && at == timestamp)
            }
            &&& event matches Event::TurnMetrics(m) ==> added && (e matches
                TranscriptEntry::TurnMetrics {
                turn_id,
                total_ms,
                user_agent_latency_ms,
                timestamp: at,
            } && turn_id == m.turn_id && total_ms == m.total_ms && user_agent_latency_ms
                == m.user_agent_latency_ms && at == timestamp)
            &&& event is SessionEnded ==> added && (e matches TranscriptEntry::SessionEvent {
                kind,
                timestamp: at,
            } && kind@ == "ended"@ && at == timestamp)
            &&& event matches Event::TurnStarted { turn_number } ==> added && (e matches
                TranscriptEntry::SessionEvent { kind, timestamp: at } && at == timestamp && kind@
                == "turn_started ("@ + crate::text::decimal(turn_number as nat) + ")"@)
        }),
{
}

/// The assistant message that an interruption would silence is the one logged last among messages:
/// a message of anyone else, and the end of a turn, leave none.
pub proof fn law_last_assistant_is_remembered(
    before: LogView,
    event: Event,
    timestamp: String,
    after: LogView,
)
    requires
        before.logs(event, timestamp, after),
        before.entries.len() < usize::MAX,
    ensures
        event matches Event::Transcript { role, .. } ==> after.last_assistant_idx == if role@
            == "assistant"@ {
            Some(before.entries.len() as usize)
        } else {
            None
        },
        event is TurnEnded ==> after.last_assistant_idx is None,
        !(event is Transcript) && !(event is TurnEnded) ==> after.last_assistant_idx
            == before.last_assistant_idx,
        event matches Event::TurnEnded { was_interrupted, .. } ==> !was_interrupted
            ==> after.entries
            == before.entries,
        event matches Event::Transcript { role, .. } ==> role@ == "assistant"@
            ==> after.pending_assistant_turn_ts is None,
        event is TurnStarted ==> after.pending_assistant_turn_ts is None,
        event matches Event::Transcript { role, .. } ==> role@ != "assistant"@
            ==> after.pending_assistant_turn_ts == before.pending_assistant_turn_ts,
{
}

/// Silencing a message marks it and leaves what it says, who said it and when.
pub proof fn law_silenced_message_keeps_its_text(e: TranscriptEntry)
    ensures
        e matches TranscriptEntry::Message { role, text, timestamp, .. } ==> (silenced(e) matches
            TranscriptEntry::Message { role: r, text: t, timestamp: at, was_interrupted } && r
            == role && t == text && at == timestamp && was_interrupted),
        !(e is Message) ==> silenced(e) == e,
{
}

} // verus!
