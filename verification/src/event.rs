//! Unified event types of the voice engine.
//!
//! Every event that the engine can produce is a variant of [`Event`]. Each variant belongs to
//! exactly one [`EventCategory`], by which subscribers filter the stream.
use crate::clock::Millis;
use crate::turn_tracker::TurnMetrics;
use vstd::prelude::*;

verus! {

/// Categories by which subscribers filter the stream.
#[derive(Clone, Copy, Debug, PartialEq, Eq, Hash, Structural)]
pub enum EventCategory {
    /// Session lifecycle: ready, state changed, interrupt, ended.
    Session,
    /// Conversation text.
    Transcript,
    /// Tool execution lifecycle.
    Tool,
    /// Agent lifecycle.
    Agent,
    /// Outbound speech chunks.
    AgentAudio,
    /// Per-turn latency breakdown.
    Metrics,
    /// Raw debug breadcrumbs.
    Trace,
    /// Pipeline errors.
    Error,
    /// Per-service hierarchical traces.
    Observability,
    /// Denoised user input audio.
    UserAudio,
}

/// A binary64 number that is only carried through, held as its bits.
#[derive(Clone, Copy, Debug, PartialEq, Eq, Structural)]
pub struct Float64 {
    pub bits: u64,
}

/// Data of a finished language-model generation.
#[derive(Clone, Debug)]
pub struct LlmCompletionData {
    pub provider: String,
    pub model: String,
    pub input_json: String,
    pub output_json: String,
    pub tools_json: Option<String>,
    pub temperature: Float64,
    pub max_tokens: u32,
    pub duration_ms: Millis,
    pub ttfb_ms: Option<Millis>,
    pub prompt_tokens: u32,
    pub completion_tokens: u32,
    pub cache_read_tokens: Option<u32>,
    /// Span label: `"llm"`, `"llm_tool_req"` or `"llm_tool_resp"`.
    pub span_label: String,
}

/// Every event the voice engine can produce.
#[derive(Clone, Debug)]
pub enum Event {
    /// The session is initialised and ready to receive audio.
    SessionReady,
    /// The session state has changed (listening, speaking, processing, ...).
    StateChanged { state: String },
    /// The pipeline was interrupted (barge-in).
    Interrupt,
    /// The session was ended by the agent.
    SessionEnded,
    /// Text from the user or the assistant.
    Transcript { role: String, text: String },
    /// A piece of text that is not final yet.
    TranscriptChunk { role: String, text: String, is_final: bool },
    /// A tool execution lifecycle event.
    ToolActivity {
        tool_call_id: Option<String>,
        tool_name: String,
        status: String,
        error_message: Option<String>,
    },
    /// An agent lifecycle event.
    AgentEvent { kind: String },
    /// An error from the pipeline.
    Error { source: String, message: String },
    /// A chunk of agent speech (PCM16), with the agent-audio sample counter at `sample_rate` at
    /// which it starts.
    AgentAudio { pcm: Vec<u8>, sample_rate: u32, offset_samples: u64 },
    /// The latency breakdown of a finished turn.
    TurnMetrics(TurnMetrics),
    /// A low-level breadcrumb with microsecond timing.
    Trace { seq: u64, elapsed_us: u64, label: String },
    /// A new conversational turn has started.
    TurnStarted { turn_number: u64 },
    /// The current turn has ended.
    TurnEnded {
        turn_number: u64,
        was_interrupted: bool,
        /// From the end-of-utterance decision to the end of synthesis, or to the end of the turn
        /// where that was not marked.
        turn_duration_ms: Option<Millis>,
        /// From the end of user speech to the start of agent speech.
        user_agent_latency_ms: Option<Millis>,
        /// How long silence had to last before speech counted as ended.
        vad_silence_ms: Option<Millis>,
    },
    /// Speech recognition completed.
    SttComplete {
        provider: String,
        model: String,
        transcript: String,
        is_final: bool,
        language: Option<String>,
        duration_ms: Millis,
        ttfb_ms: Option<Millis>,
        vad_enabled: bool,
    },
    /// Language-model generation completed.
    LlmComplete(LlmCompletionData),
    /// Speech synthesis completed.
    TtsComplete {
        provider: String,
        model: String,
        text: String,
        voice_id: String,
        character_count: usize,
        duration_ms: Millis,
        ttfb_ms: Option<Millis>,
        /// From the first model token to the first text fed to synthesis.
        text_aggregation_ms: Option<Millis>,
    },
    /// A denoised user input frame (mono PCM16).
    UserAudio { pcm: Vec<u8>, sample_rate: u32 },
}

/// The category an event belongs to.
pub open spec fn category_of(e: Event) -> EventCategory {
    match e {
        Event::SessionReady
        | Event::StateChanged { .. }
        | Event::Interrupt
        | Event::SessionEnded => EventCategory::Session,
        Event::Transcript { .. } | Event::TranscriptChunk { .. } => EventCategory::Transcript,
        Event::ToolActivity { .. } => EventCategory::Tool,
        Event::AgentEvent { .. } => EventCategory::Agent,
        Event::Error { .. } => EventCategory::Error,
        Event::AgentAudio { .. } => EventCategory::AgentAudio,
        Event::TurnMetrics(_) => EventCategory::Metrics,
        Event::Trace { .. } => EventCategory::Trace,
        Event::TurnStarted { .. }
        | Event::TurnEnded { .. }
        | Event::SttComplete { .. }
        | Event::LlmComplete(_)
        | Event::TtsComplete { .. } => EventCategory::Observability,
        Event::UserAudio { .. } => EventCategory::UserAudio,
    }
}

/// `e` is a transcript of the given role and text.
pub open spec fn is_transcript(e: Event, role: Seq<char>, text: Seq<char>) -> bool {
    e matches Event::Transcript { role: r, text: t } && r@ == role && t@ == text
}

/// `e` is an interim text of the given role.
pub open spec fn is_transcript_chunk(e: Event, role: Seq<char>, text: Seq<char>) -> bool {
    e matches Event::TranscriptChunk { role: r, text: t, is_final } && r@ == role && t@ == text
        && !is_final
}

/// `e` is an error of the given source and message.
pub open spec fn is_error(e: Event, source: Seq<char>, message: Seq<char>) -> bool {
    e matches Event::Error { source: s, message: m } && s@ == source && m@ == message
}

/// `e` reports the given status of a tool.
pub open spec fn is_tool_activity(
    e: Event,
    call_id: Option<String>,
    name: Seq<char>,
    status: Seq<char>,
) -> bool {
    &&& e matches Event::ToolActivity { tool_call_id, tool_name, status: s, error_message }
    &&& tool_call_id == call_id
    &&& tool_name@ == name
    &&& s@ == status
    &&& error_message is None
}

/// `e` is a breadcrumb with the given number, time and label.
pub open spec fn is_trace(e: Event, seq: u64, elapsed_us: u64, label: Seq<char>) -> bool {
    e matches Event::Trace { seq: n, elapsed_us: t, label: l } && n == seq && t == elapsed_us && l@
        == label
}

impl Event {
    /// The category this event belongs to.
    pub fn category(&self) -> (c: EventCategory)
        ensures
            c == category_of(*self),
    {
        match self {
            Event::SessionReady
            | Event::StateChanged { .. }
            | Event::Interrupt
            | Event::SessionEnded => EventCategory::Session,
            Event::Transcript { .. } | Event::TranscriptChunk { .. } => EventCategory::Transcript,
            Event::ToolActivity { .. } => EventCategory::Tool,
            Event::AgentEvent { .. } => EventCategory::Agent,
            Event::Error { .. } => EventCategory::Error,
            Event::AgentAudio { .. } => EventCategory::AgentAudio,
            Event::TurnMetrics(_) => EventCategory::Metrics,
            Event::Trace { .. } => EventCategory::Trace,
            Event::TurnStarted { .. }
            | Event::TurnEnded { .. }
            | Event::SttComplete { .. }
            | Event::LlmComplete(_)
            | Event::TtsComplete { .. } => EventCategory::Observability,
            Event::UserAudio { .. } => EventCategory::UserAudio,
        }
    }
}

/// Events reach those who asked for their kind: each category holds exactly the events that it is
/// named after.
pub proof fn law_categories_hold_their_events(e: Event)
    ensures
        category_of(e) is Session <==> e is SessionReady || e is StateChanged || e is Interrupt
            || e is SessionEnded,
        category_of(e) is Transcript <==> e is Transcript || e is TranscriptChunk,
        category_of(e) is Tool <==> e is ToolActivity,
        category_of(e) is Agent <==> e is AgentEvent,
        category_of(e) is Error <==> e is Error,
        category_of(e) is AgentAudio <==> e is AgentAudio,
        category_of(e) is UserAudio <==> e is UserAudio,
        category_of(e) is Metrics <==> e is TurnMetrics,
        category_of(e) is Trace <==> e is Trace,
        category_of(e) is Observability <==> e is TurnStarted || e is TurnEnded || e is SttComplete
            || e is LlmComplete || e is TtsComplete,
{
}

} // verus!
