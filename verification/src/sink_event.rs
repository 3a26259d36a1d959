//! Projection of bus events for storage sinks.
//!
//! A [`SinkEvent`] mirrors the bus events that matter for storage: audio, raw trace events and
//! interim texts have no counterpart.
use crate::clock::Millis;
use crate::event::{Event, EventCategory, Float64};
use crate::turn_tracker::TurnMetrics;
use vstd::prelude::*;

verus! {

/// An event as storage sinks keep it.
#[derive(Clone, Debug)]
pub enum SinkEvent {
    SessionReady,
    StateChanged { state: String },
    Interrupt,
    SessionEnded,
    Transcript { role: String, text: String },
    ToolActivity { tool_name: String, status: String },
    AgentEvent { kind: String },
    Error { source: String, message: String },
    TurnMetrics(TurnMetrics),
    TurnStarted { turn_number: u64 },
    TurnEnded {
        turn_number: u64,
        was_interrupted: bool,
        turn_duration_ms: Option<Millis>,
        user_agent_latency_ms: Option<Millis>,
        vad_silence_ms: Option<Millis>,
    },
    SttComplete {
        provider: String,
        model: String,
        transcript: String,
        is_final: bool,
        language: Option<String>,
        duration_ms: Millis,
        ttfb_ms: Option<Millis>,
        vad_enabled: bool,
    },
    LlmComplete {
        provider: String,
        model: String,
        input_json: String,
        output_json: String,
        tools_json: Option<String>,
        temperature: Float64,
        max_tokens: u32,
        duration_ms: Millis,
        ttfb_ms: Option<Millis>,
        prompt_tokens: u32,
        completion_tokens: u32,
        cache_read_tokens: Option<u32>,
        span_label: String,
    },
    TtsComplete {
        provider: String,
        model: String,
        text: String,
        voice_id: String,
        character_count: usize,
        duration_ms: Millis,
        ttfb_ms: Option<Millis>,
        text_aggregation_ms: Option<Millis>,
    },
}

/// What storage sinks keep of an event.
pub open spec fn sink_of(e: Event) -> Option<SinkEvent> {
    match e {
        Event::SessionReady => Some(SinkEvent::SessionReady),
        Event::StateChanged { state } => Some(SinkEvent::StateChanged { state }),
        Event::Interrupt => Some(SinkEvent::Interrupt),
        Event::SessionEnded => Some(SinkEvent::SessionEnded),
        Event::Transcript { role, text } => Some(SinkEvent::Transcript { role, text }),
        Event::ToolActivity { tool_name, status, .. } => Some(
            SinkEvent::ToolActivity { tool_name, status },
        ),
        Event::AgentEvent { kind } => Some(SinkEvent::AgentEvent { kind }),
        Event::Error { source, message } => Some(SinkEvent::Error { source, message }),
        Event::TurnMetrics(m) => Some(SinkEvent::TurnMetrics(m)),
        Event::TurnStarted { turn_number } => Some(SinkEvent::TurnStarted { turn_number }),
        Event::TurnEnded {
            turn_number,
            was_interrupted,
            turn_duration_ms,
            user_agent_latency_ms,
            vad_silence_ms,
        } => Some(
            SinkEvent::TurnEnded {
                turn_number,
                was_interrupted,
                turn_duration_ms,
                user_agent_latency_ms,
                vad_silence_ms,
            },
        ),
        Event::SttComplete {
            provider,
            model,
            transcript,
            is_final,
            language,
            duration_ms,
            ttfb_ms,
            vad_enabled,
        } => Some(
            SinkEvent::SttComplete {
                provider,
                model,
                transcript,
                is_final,
                language,
                duration_ms,
                ttfb_ms,
                vad_enabled,
            },
        ),
        Event::LlmComplete(d) => Some(
            SinkEvent::LlmComplete {
                provider: d.provider,
                model: d.model,
                input_json: d.input_json,
                output_json: d.output_json,
                tools_json: d.tools_json,
                temperature: d.temperature,
                max_tokens: d.max_tokens,
                duration_ms: d.duration_ms,
                ttfb_ms: d.ttfb_ms,
                prompt_tokens: d.prompt_tokens,
                completion_tokens: d.completion_tokens,
                cache_read_tokens: d.cache_read_tokens,
                span_label: d.span_label,
            },
        ),
        Event::TtsComplete {
            provider,
            model,
            text,
            voice_id,
            character_count,
            duration_ms,
            ttfb_ms,
            text_aggregation_ms,
        } => Some(
            SinkEvent::TtsComplete {
                provider,
                model,
                text,
                voice_id,
                character_count,
                duration_ms,
                ttfb_ms,
                text_aggregation_ms,
            },
        ),
        Event::AgentAudio { .. }
        | Event::Trace { .. }
        | Event::UserAudio { .. }
        | Event::TranscriptChunk { .. } => None,
    }
}

fn clone_text(t: &Option<String>) -> (r: Option<String>)
    ensures
        r == *t,
{
    match t {
        Some(s) => Some(s.clone()),
        None => None,
    }
}

/// What storage sinks keep of `event`; audio, raw trace events and interim texts are not kept.
pub fn from_event(event: &Event) -> (s: Option<SinkEvent>)
    ensures
        s == sink_of(*event),
{
    match event {
        Event::SessionReady => Some(SinkEvent::SessionReady),
        Event::StateChanged { state } => Some(SinkEvent::StateChanged { state: state.clone() }),
        Event::Interrupt => Some(SinkEvent::Interrupt),
        Event::SessionEnded => Some(SinkEvent::SessionEnded),
        Event::Transcript { role, text } => Some(
            SinkEvent::Transcript { role: role.clone(), text: text.clone() },
        ),
        Event::ToolActivity { tool_name, status, .. } => Some(
            SinkEvent::ToolActivity { tool_name: tool_name.clone(), status: status.clone() },
        ),
        Event::AgentEvent { kind } => Some(SinkEvent::AgentEvent { kind: kind.clone() }),
        Event::Error { source, message } => Some(
            SinkEvent::Error { source: source.clone(), message: message.clone() },
        ),
        Event::TurnMetrics(m) => Some(SinkEvent::TurnMetrics(*m)),
        Event::TurnStarted { turn_number } => Some(
            SinkEvent::TurnStarted { turn_number: *turn_number },
        ),
        Event::TurnEnded {
            turn_number,
            was_interrupted,
            turn_duration_ms,
            user_agent_latency_ms,
            vad_silence_ms,
        } => Some(
            SinkEvent::TurnEnded {
                turn_number: *turn_number,
                was_interrupted: *was_interrupted,
                turn_duration_ms: *turn_duration_ms,
                user_agent_latency_ms: *user_agent_latency_ms,
                vad_silence_ms: *vad_silence_ms,
            },
        ),
        Event::SttComplete {
            provider,
            model,
            transcript,
            is_final,
            language,
            duration_ms,
            ttfb_ms,
            vad_enabled,
        } => Some(
            SinkEvent::SttComplete {
                provider: provider.clone(),
                model: model.clone(),
                transcript: transcript.clone(),
                is_final: *is_final,
                language: clone_text(language),
                duration_ms: *duration_ms,
                ttfb_ms: *ttfb_ms,
                vad_enabled: *vad_enabled,
            },
        ),
        Event::LlmComplete(data) => Some(
            SinkEvent::LlmComplete {
                provider: data.provider.clone(),
                model: data.model.clone(),
                input_json: data.input_json.clone(),
                output_json: data.output_json.clone(),
                tools_json: clone_text(&data.tools_json),
                temperature: data.temperature,
                max_tokens: data.max_tokens,
                duration_ms: data.duration_ms,
                ttfb_ms: data.ttfb_ms,
                prompt_tokens: data.prompt_tokens,
                completion_tokens: data.completion_tokens,
                cache_read_tokens: data.cache_read_tokens,
                span_label: data.span_label.clone(),
            },
        ),
        Event::TtsComplete {
            provider,
            model,
            text,
            voice_id,
            character_count,
            duration_ms,
            ttfb_ms,
            text_aggregation_ms,
        } => Some(
            SinkEvent::TtsComplete {
                provider: provider.clone(),
                model: model.clone(),
                text: text.clone(),
                voice_id: voice_id.clone(),
                character_count: *character_count,
                duration_ms: *duration_ms,
                ttfb_ms: *ttfb_ms,
                text_aggregation_ms: *text_aggregation_ms,
            },
        ),
        Event::AgentAudio { .. }
        | Event::Trace { .. }
        | Event::UserAudio { .. }
        | Event::TranscriptChunk { .. } => None,
    }
}

/// The stored type name of an event.
pub open spec fn type_name_of(e: SinkEvent) -> Seq<char> {
    match e {
        SinkEvent::SessionReady => "session_ready"@,
        SinkEvent::StateChanged { .. } => "state_changed"@,
        SinkEvent::Interrupt => "interrupt"@,
        SinkEvent::SessionEnded => "session_ended"@,
        SinkEvent::Transcript { .. } => "transcript"@,
        SinkEvent::ToolActivity { .. } => "tool_activity"@,
        SinkEvent::AgentEvent { .. } => "agent_event"@,
        SinkEvent::Error { .. } => "error"@,
        SinkEvent::TurnMetrics(_) => "turn_metrics"@,
        SinkEvent::TurnStarted { .. } => "turn_started"@,
        SinkEvent::TurnEnded { .. } => "turn_ended"@,
        SinkEvent::SttComplete { .. } => "stt_complete"@,
        SinkEvent::LlmComplete { .. } => "llm_complete"@,
        SinkEvent::TtsComplete { .. } => "tts_complete"@,
    }
}

/// The stored type name of `event`.
pub fn event_type_name(event: &SinkEvent) -> (name: &'static str)
    ensures
        name@ == type_name_of(*event),
{
    match event {
        SinkEvent::SessionReady => "session_ready",
        SinkEvent::StateChanged { .. } => "state_changed",
        SinkEvent::Interrupt => "interrupt",
        SinkEvent::SessionEnded => "session_ended",
        SinkEvent::Transcript { .. } => "transcript",
        SinkEvent::ToolActivity { .. } => "tool_activity",
        SinkEvent::AgentEvent { .. } => "agent_event",
        SinkEvent::Error { .. } => "error",
        SinkEvent::TurnMetrics(_) => "turn_metrics",
        SinkEvent::TurnStarted { .. } => "turn_started",
        SinkEvent::TurnEnded { .. } => "turn_ended",
        SinkEvent::SttComplete { .. } => "stt_complete",
        SinkEvent::LlmComplete { .. } => "llm_complete",
        SinkEvent::TtsComplete { .. } => "tts_complete",
    }
}

/// The stored category name of an event.
pub open spec fn category_name_of(e: SinkEvent) -> Seq<char> {
    match e {
        SinkEvent::SessionReady
        | SinkEvent::StateChanged { .. }
        | SinkEvent::Interrupt
        | SinkEvent::SessionEnded => "session"@,
        SinkEvent::Transcript { .. } => "transcript"@,
        SinkEvent::ToolActivity { .. } => "tool"@,
        SinkEvent::AgentEvent { .. } => "agent"@,
        SinkEvent::Error { .. } => "error"@,
        SinkEvent::TurnMetrics(_) => "metrics"@,
        SinkEvent::TurnStarted { .. }
        | SinkEvent::TurnEnded { .. }
        | SinkEvent::SttComplete { .. }
        | SinkEvent::LlmComplete { .. }
        | SinkEvent::TtsComplete { .. } => "observability"@,
    }
}

/// The stored category name of `event`.
pub fn event_category_name(event: &SinkEvent) -> (name: &'static str)
    ensures
        name@ == category_name_of(*event),
{
    match event {
        SinkEvent::SessionReady
        | SinkEvent::StateChanged { .. }
        | SinkEvent::Interrupt
        | SinkEvent::SessionEnded => "session",
        SinkEvent::Transcript { .. } => "transcript",
        SinkEvent::ToolActivity { .. } => "tool",
        SinkEvent::AgentEvent { .. } => "agent",
        SinkEvent::Error { .. } => "error",
        SinkEvent::TurnMetrics(_) => "metrics",
        SinkEvent::TurnStarted { .. }
        | SinkEvent::TurnEnded { .. }
        | SinkEvent::SttComplete { .. }
        | SinkEvent::LlmComplete { .. }
        | SinkEvent::TtsComplete { .. } => "observability",
    }
}

/// The stored name of a category.
pub open spec fn label_of(c: EventCategory) -> Seq<char> {
    match c {
        EventCategory::Session => "session"@,
        EventCategory::Transcript => "transcript"@,
        EventCategory::Tool => "tool"@,
        EventCategory::Agent => "agent"@,
        EventCategory::AgentAudio => "agent_audio"@,
        EventCategory::Metrics => "metrics"@,
        EventCategory::Trace => "trace"@,
        EventCategory::Error => "error"@,
        EventCategory::Observability => "observability"@,
        EventCategory::UserAudio => "user_audio"@,
    }
}

/// An event is stored unless it is audio, a raw trace event or an interim text, and it is stored
/// under the name of its bus category.
pub proof fn law_stored_category(e: Event)
    ensures
        sink_of(e) is None <==> (crate::event::category_of(e) is AgentAudio || crate::event::category_of(e) is Trace
            || crate::event::category_of(e) is UserAudio || e is TranscriptChunk),
        sink_of(e) matches Some(s) ==> category_name_of(s) == label_of(crate::event::category_of(e)),
{
}

/// What is stored of an event is what it says.
pub proof fn law_stored_events_say_the_same(e: Event)
    ensures
        e is SessionReady <==> sink_of(e) == Some(SinkEvent::SessionReady),
        e is Interrupt <==> sink_of(e) == Some(SinkEvent::Interrupt),
        e is SessionEnded <==> sink_of(e) == Some(SinkEvent::SessionEnded),
        e matches Event::StateChanged { state: s } ==> (sink_of(e) matches Some(
            SinkEvent::StateChanged { state },
        ) && state == s),
        e matches Event::Transcript { role: r, text: t } ==> (sink_of(e) matches Some(
            SinkEvent::Transcript { role, text },
        ) && role == r && text == t),
        e matches Event::ToolActivity { tool_name: n, status: s, .. } ==> (sink_of(e) matches Some(
            SinkEvent::ToolActivity { tool_name, status },
        ) && tool_name == n && status == s),
        e matches Event::AgentEvent { kind: k } ==> (sink_of(e) matches Some(
            SinkEvent::AgentEvent { kind },
        ) && kind == k),
        e matches Event::Error { source: s, message: m } ==> (sink_of(e) matches Some(
            SinkEvent::Error { source, message },
        ) && source == s && message == m),
        e matches Event::TurnMetrics(m) ==> sink_of(e) == Some(SinkEvent::TurnMetrics(m)),
        e matches Event::TurnStarted { turn_number: n } ==> (sink_of(e) matches Some(
            SinkEvent::TurnStarted { turn_number },
        ) && turn_number == n),
        e is TurnEnded ==> (sink_of(e) matches Some(s) && s is TurnEnded
            && s->TurnEnded_turn_number == e->TurnEnded_turn_number && s->was_interrupted
            == e->was_interrupted && s->turn_duration_ms == e->turn_duration_ms
            && s->user_agent_latency_ms == e->user_agent_latency_ms && s->vad_silence_ms
            == e->vad_silence_ms),
        e is SttComplete ==> (sink_of(e) matches Some(s) && s is SttComplete
            && s->SttComplete_provider == e->SttComplete_provider && s->SttComplete_model
            == e->SttComplete_model && s->transcript == e->transcript && s->is_final
            == e->SttComplete_is_final && s->language == e->language && s->SttComplete_duration_ms
            == e->SttComplete_duration_ms && s->SttComplete_ttfb_ms == e->SttComplete_ttfb_ms
            && s->vad_enabled == e->vad_enabled),
        e matches Event::LlmComplete(d) ==> (sink_of(e) matches Some(s) && s is LlmComplete
            && s->LlmComplete_provider == d.provider && s->LlmComplete_model == d.model
            && s->input_json == d.input_json && s->output_json == d.output_json && s->tools_json
            == d.tools_json && s->temperature == d.temperature && s->max_tokens == d.max_tokens
            && s->LlmComplete_duration_ms == d.duration_ms && s->LlmComplete_ttfb_ms == d.ttfb_ms
            && s->prompt_tokens == d.prompt_tokens && s->completion_tokens == d.completion_tokens
            && s->cache_read_tokens == d.cache_read_tokens && s->span_label == d.span_label),
        e is TtsComplete ==> (sink_of(e) matches Some(s) && s is TtsComplete
            && s->TtsComplete_provider == e->TtsComplete_provider && s->TtsComplete_model
            == e->TtsComplete_model && s->TtsComplete_text == e->TtsComplete_text && s->voice_id
            == e->voice_id && s->character_count == e->character_count
            && s->TtsComplete_duration_ms == e->TtsComplete_duration_ms && s->TtsComplete_ttfb_ms
            == e->TtsComplete_ttfb_ms && s->text_aggregation_ms == e->text_aggregation_ms),
{
}

/// Events of one kind are stored under one name, and under no name of another kind.
pub proof fn law_type_names_tell_kinds_apart(e: SinkEvent)
    ensures
        e is SessionReady <==> type_name_of(e) == "session_ready"@,
        e is StateChanged <==> type_name_of(e) == "state_changed"@,
        e is Interrupt <==> type_name_of(e) == "interrupt"@,
        e is SessionEnded <==> type_name_of(e) == "session_ended"@,
        e is Transcript <==> type_name_of(e) == "transcript"@,
        e is ToolActivity <==> type_name_of(e) == "tool_activity"@,
        e is AgentEvent <==> type_name_of(e) == "agent_event"@,
        e is Error <==> type_name_of(e) == "error"@,
        e is TurnMetrics <==> type_name_of(e) == "turn_metrics"@,
        e is TurnStarted <==> type_name_of(e) == "turn_started"@,
        e is TurnEnded <==> type_name_of(e) == "turn_ended"@,
        e is SttComplete <==> type_name_of(e) == "stt_complete"@,
        e is LlmComplete <==> type_name_of(e) == "llm_complete"@,
        e is TtsComplete <==> type_name_of(e) == "tts_complete"@,
{
    reveal_strlit("session_ready");
    reveal_strlit("state_changed");
    reveal_strlit("interrupt");
    reveal_strlit("session_ended");
    reveal_strlit("transcript");
    reveal_strlit("tool_activity");
    reveal_strlit("agent_event");
    reveal_strlit("error");
    reveal_strlit("turn_metrics");
    reveal_strlit("turn_started");
    reveal_strlit("turn_ended");
    reveal_strlit("stt_complete");
    reveal_strlit("llm_complete");
    reveal_strlit("tts_complete");
    assert("session_ready"@[0] == 's' && "session_ready"@[1] == 'e' && "session_ready"@[8] == 'r');
    assert("session_ended"@[0] == 's' && "session_ended"@[1] == 'e' && "session_ended"@[8] == 'e');
    assert("state_changed"@[0] == 's' && "state_changed"@[1] == 't' && "state_changed"@[2] == 'a');
    assert("stt_complete"@[0] == 's' && "stt_complete"@[1] == 't' && "stt_complete"@[2] == 't');
    assert("interrupt"@[0] == 'i');
    assert("transcript"@[0] == 't' && "transcript"@[1] == 'r');
    assert("tool_activity"@[0] == 't' && "tool_activity"@[1] == 'o');
    assert("tts_complete"@[0] == 't' && "tts_complete"@[1] == 't');
    assert("turn_metrics"@[0] == 't' && "turn_metrics"@[1] == 'u' && "turn_metrics"@[5] == 'm');
    assert("turn_started"@[0] == 't' && "turn_started"@[1] == 'u' && "turn_started"@[5] == 's');
    assert("turn_ended"@[0] == 't' && "turn_ended"@[1] == 'u' && "turn_ended"@[5] == 'e');
    assert("agent_event"@[0] == 'a');
    assert("error"@[0] == 'e');
    assert("llm_complete"@[0] == 'l');
}

} // verus!
