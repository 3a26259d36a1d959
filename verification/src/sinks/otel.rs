//! OpenTelemetry sink: flat spans for infrastructure monitoring.
//!
//! Prompts and generations never reach this sink; they go to the hierarchical traces only.
use crate::bus::CategorySet;
use crate::event::{Event, EventCategory};
use crate::sinks::attrs::Attrs;
use crate::text::concat;
use crate::turn_tracker::TurnMetrics;
use vstd::prelude::*;

verus! {

/// A span that starts and ends at once.
#[derive(Debug)]
pub struct OtelSpan {
    pub name: String,
    pub attrs: Attrs,
}

/// A span as a value: its name and attributes.
pub struct SpanView {
    pub name: Seq<char>,
    pub attrs: crate::sinks::attrs::AttrSeq,
}

impl View for OtelSpan {
    type V = SpanView;

    open spec fn view(&self) -> SpanView {
        SpanView { name: self.name@, attrs: self.attrs@ }
    }
}

/// The categories that the sink subscribes to.
pub open spec fn otel_categories() -> Set<EventCategory> {
    Set::empty().insert(EventCategory::Session).insert(EventCategory::Trace).insert(
        EventCategory::Metrics,
    ).insert(EventCategory::Tool).insert(EventCategory::Transcript).insert(
        EventCategory::Agent,
    ).insert(EventCategory::Error)
}

/// The categories that the sink subscribes to.
pub fn subscribed_categories() -> (s: CategorySet)
    ensures
        s.wf(),
        s@ == otel_categories(),
{
    let mut s = CategorySet::new();
    s.insert(EventCategory::Session);
    s.insert(EventCategory::Trace);
    s.insert(EventCategory::Metrics);
    s.insert(EventCategory::Tool);
    s.insert(EventCategory::Transcript);
    s.insert(EventCategory::Agent);
    s.insert(EventCategory::Error);
    s
}

/// The attributes of the span that reports a turn.
pub open spec fn turn_attrs(m: TurnMetrics) -> crate::sinks::attrs::AttrSeq {
    let a = crate::sinks::attrs::AttrSeq::empty();
    let a = crate::sinks::attrs::with_int(a, "voice.turn.id"@, m.turn_id as i64);
    let a = crate::sinks::attrs::with_span(a, "voice.turn.ttfa_ms"@, m.ttfa_ms);
    let a = crate::sinks::attrs::with_span(a, "voice.turn.stt_ms"@, m.stt_ms);
    let a = crate::sinks::attrs::with_span(a, "voice.turn.llm_ttfb_ms"@, m.llm_first_token_ms);
    let a = crate::sinks::attrs::with_span(
        a,
        "voice.turn.tts_first_audio_ms"@,
        m.tts_first_audio_ms,
    );
    let a = crate::sinks::attrs::with_span(a, "voice.turn.total_ms"@, m.total_ms);
    let a = crate::sinks::attrs::with_span(a, "voice.turn.vad_silence_ms"@, m.vad_silence_ms);
    let a = crate::sinks::attrs::with_span(a, "voice.turn.stt_total_ms"@, m.stt_total_duration_ms);
    let a = crate::sinks::attrs::with_span_opt(a, "voice.turn.stt_ttfb_ms"@, m.stt_ttfb_ms);
    let a = crate::sinks::attrs::with_span_opt(a, "voice.turn.tts_ttfb_ms"@, m.tts_ttfb_ms);
    let a = crate::sinks::attrs::with_span(a, "voice.turn.tts_total_ms"@, m.tts_total_duration_ms);
    let a = crate::sinks::attrs::with_span_opt(
        a,
        "voice.turn.text_aggregation_ms"@,
        m.text_aggregation_ms,
    );
    crate::sinks::attrs::with_span_opt(
        a,
        "voice.turn.user_agent_latency_ms"@,
        m.user_agent_latency_ms,
    )
}

/// The span that an event is exported as; none for events that are not exported.
pub open spec fn span_of_event(event: Event) -> Option<SpanView> {
    let none = crate::sinks::attrs::AttrSeq::empty();
    match event {
        Event::Trace { seq, elapsed_us, label } => Some(
            SpanView {
                name: "voice."@ + label@,
                attrs: crate::sinks::attrs::with_int(
                    crate::sinks::attrs::with_int(none, "voice.seq"@, seq as i64),
                    "voice.elapsed_us"@,
                    elapsed_us as i64,
                ),
            },
        ),
        Event::TurnMetrics(m) => Some(SpanView { name: "voice.turn"@, attrs: turn_attrs(m) }),
        Event::ToolActivity { tool_call_id, tool_name, status, error_message } => Some(
            SpanView {
                name: "voice.tool."@ + tool_name@,
                attrs: crate::sinks::attrs::with_text_opt(
                    crate::sinks::attrs::with_text_opt(
                        crate::sinks::attrs::with_text(
                            crate::sinks::attrs::with_text(none, "voice.tool.name"@, tool_name@),
                            "voice.tool.status"@,
                            status@,
                        ),
                        "voice.tool.call_id"@,
                        tool_call_id,
                    ),
                    "voice.tool.error_message"@,
                    error_message,
                ),
            },
        ),
        Event::Transcript { role, text } => Some(
            SpanView {
                name: "voice.transcript."@ + role@,
                attrs: crate::sinks::attrs::with_text(
                    crate::sinks::attrs::with_text(none, "voice.transcript.role"@, role@),
                    "voice.transcript.text"@,
                    text@,
                ),
            },
        ),
        Event::AgentEvent { kind } => Some(
            SpanView {
                name: "voice.agent."@ + kind@,
                attrs: crate::sinks::attrs::with_text(none, "voice.agent.kind"@, kind@),
            },
        ),
        Event::Error { source, message } => Some(
            SpanView {
                name: "voice.error."@ + source@,
                attrs: crate::sinks::attrs::with_text(
                    crate::sinks::attrs::with_text(none, "voice.error.source"@, source@),
                    "voice.error.message"@,
                    message@,
                ),
            },
        ),
        Event::SessionEnded => Some(SpanView { name: "voice.session.ended"@, attrs: none }),
        _ => None,
    }
}

fn turn_attributes(m: &TurnMetrics) -> (a: Attrs)
    ensures
        a@ == turn_attrs(*m),
{
    let mut a = Attrs::new();
    a.number("voice.turn.id", m.turn_id as i64);
    a.span("voice.turn.ttfa_ms", m.ttfa_ms);
    a.span("voice.turn.stt_ms", m.stt_ms);
    a.span("voice.turn.llm_ttfb_ms", m.llm_first_token_ms);
    a.span("voice.turn.tts_first_audio_ms", m.tts_first_audio_ms);
    a.span("voice.turn.total_ms", m.total_ms);
    a.span("voice.turn.vad_silence_ms", m.vad_silence_ms);
    a.span("voice.turn.stt_total_ms", m.stt_total_duration_ms);
    a.span_opt("voice.turn.stt_ttfb_ms", m.stt_ttfb_ms);
    a.span_opt("voice.turn.tts_ttfb_ms", m.tts_ttfb_ms);
    a.span("voice.turn.tts_total_ms", m.tts_total_duration_ms);
    a.span_opt("voice.turn.text_aggregation_ms", m.text_aggregation_ms);
    a.span_opt("voice.turn.user_agent_latency_ms", m.user_agent_latency_ms);
    a
}

/// The span that `event` is exported as.
pub fn span_of(event: &Event) -> (s: Option<OtelSpan>)
    ensures
        s is Some <==> span_of_event(*event) is Some,
        s matches Some(x) ==> span_of_event(*event) == Some(x@),
{
    let mut a = Attrs::new();
    match event {
        Event::Trace { seq, elapsed_us, label } => {
            a.number("voice.seq", *seq as i64);
            a.number("voice.elapsed_us", *elapsed_us as i64);
            Some(OtelSpan { name: concat("voice.", label.as_str()), attrs: a })
        },
        Event::TurnMetrics(m) => Some(
            OtelSpan { name: "voice.turn".to_owned(), attrs: turn_attributes(m) },
        ),
        Event::ToolActivity { tool_call_id, tool_name, status, error_message } => {
            a.text("voice.tool.name", tool_name.as_str());
            a.text("voice.tool.status", status.as_str());
            a.text_opt("voice.tool.call_id", tool_call_id);
            a.text_opt("voice.tool.error_message", error_message);
            Some(OtelSpan { name: concat("voice.tool.", tool_name.as_str()), attrs: a })
        },
        Event::Transcript { role, text } => {
            a.text("voice.transcript.role", role.as_str());
            a.text("voice.transcript.text", text.as_str());
            Some(OtelSpan { name: concat("voice.transcript.", role.as_str()), attrs: a })
        },
        Event::AgentEvent { kind } => {
            a.text("voice.agent.kind", kind.as_str());
            Some(OtelSpan { name: concat("voice.agent.", kind.as_str()), attrs: a })
        },
        Event::Error { source, message } => {
            a.text("voice.error.source", source.as_str());
            a.text("voice.error.message", message.as_str());
            Some(OtelSpan { name: concat("voice.error.", source.as_str()), attrs: a })
        },
        Event::SessionEnded => Some(
            OtelSpan { name: "voice.session.ended".to_owned(), attrs: a },
        ),
        _ => None,
    }
}

/// Whatever is exported belongs to a subscribed category, and prompts and generations are never
/// exported: events of the hierarchical traces and audio make no span.
pub proof fn law_exports_are_subscribed(event: Event)
    ensures
        span_of_event(event) is Some ==> otel_categories().contains(
            crate::event::category_of(event),
        ),
        crate::event::category_of(event) is Observability ==> span_of_event(event) is None,
        crate::event::category_of(event) is AgentAudio ==> span_of_event(event) is None,
        crate::event::category_of(event) is UserAudio ==> span_of_event(event) is None,
{
}

/// The span of a turn tells every latency of it under its name, those that are known, and nothing
/// else.
pub proof fn law_turn_span_tells_each_latency(m: TurnMetrics)
    ensures
        ({
            let a = turn_attrs(m);
            &&& a.contains(("voice.turn.id"@, crate::sinks::attrs::AttrView::Int(m.turn_id as i64)))
            &&& a.contains(("voice.turn.ttfa_ms"@, crate::sinks::attrs::AttrView::Span(m.ttfa_ms)))
            &&& a.contains(("voice.turn.stt_ms"@, crate::sinks::attrs::AttrView::Span(m.stt_ms)))
            &&& a.contains(("voice.turn.llm_ttfb_ms"@, crate::sinks::attrs::AttrView::Span(m.llm_first_token_ms)))
            &&& a.contains(("voice.turn.tts_first_audio_ms"@, crate::sinks::attrs::AttrView::Span(m.tts_first_audio_ms)))
            &&& a.contains(("voice.turn.total_ms"@, crate::sinks::attrs::AttrView::Span(m.total_ms)))
            &&& a.contains(("voice.turn.vad_silence_ms"@, crate::sinks::attrs::AttrView::Span(m.vad_silence_ms)))
            &&& a.contains(("voice.turn.stt_total_ms"@, crate::sinks::attrs::AttrView::Span(m.stt_total_duration_ms)))
            &&& a.contains(("voice.turn.tts_total_ms"@, crate::sinks::attrs::AttrView::Span(m.tts_total_duration_ms)))
            &&& m.stt_ttfb_ms matches Some(x)
                ==> a.contains(("voice.turn.stt_ttfb_ms"@, crate::sinks::attrs::AttrView::Span(x)))
            &&& m.tts_ttfb_ms matches Some(x)
                ==> a.contains(("voice.turn.tts_ttfb_ms"@, crate::sinks::attrs::AttrView::Span(x)))
            &&& m.text_aggregation_ms matches Some(x)
                ==> a.contains(("voice.turn.text_aggregation_ms"@, crate::sinks::attrs::AttrView::Span(x)))
            &&& m.user_agent_latency_ms matches Some(x)
                ==> a.contains(("voice.turn.user_agent_latency_ms"@, crate::sinks::attrs::AttrView::Span(x)))
            &&& a.len() == 9 + (if m.stt_ttfb_ms is Some {
                1int
            } else {
                0int
            }) + (if m.tts_ttfb_ms is Some {
                1int
            } else {
                0int
            }) + (if m.text_aggregation_ms is Some {
                1int
            } else {
                0int
            }) + (if m.user_agent_latency_ms is Some {
                1int
            } else {
                0int
            })
        }),
{
    crate::sinks::attrs::lemma_attributes_stay();
}

/// A span is named after what it reports and tells all of it.
pub proof fn law_spans_tell_their_events(event: Event)
    ensures
        event matches Event::Trace { seq, elapsed_us, label } ==> {
            let s = span_of_event(event)->0;
            &&& span_of_event(event) is Some
            &&& s.name == "voice."@ + label@
            &&& s.attrs.len() == 2
            &&& s.attrs.contains(("voice.seq"@, crate::sinks::attrs::AttrView::Int(seq as i64)))
            &&& s.attrs.contains(("voice.elapsed_us"@, crate::sinks::attrs::AttrView::Int(elapsed_us as i64)))
        },
        event matches Event::TurnMetrics(m) ==> span_of_event(event) == Some(
            SpanView { name: "voice.turn"@, attrs: turn_attrs(m) },
        ),
        event matches Event::ToolActivity { tool_call_id, tool_name, status, error_message } ==> {
            let s = span_of_event(event)->0;
            &&& span_of_event(event) is Some
            &&& s.name == "voice.tool."@ + tool_name@
            &&& s.attrs.contains(("voice.tool.name"@, crate::sinks::attrs::AttrView::Text(tool_name@)))
            &&& s.attrs.contains(("voice.tool.status"@, crate::sinks::attrs::AttrView::Text(status@)))
            &&& tool_call_id matches Some(x)
                ==> s.attrs.contains(("voice.tool.call_id"@, crate::sinks::attrs::AttrView::Text(x@)))
            &&& error_message matches Some(x)
                ==> s.attrs.contains(("voice.tool.error_message"@, crate::sinks::attrs::AttrView::Text(x@)))
        },
        event matches Event::Transcript { role, text } ==> {
            let s = span_of_event(event)->0;
            &&& span_of_event(event) is Some
            &&& s.name == "voice.transcript."@ + role@
            &&& s.attrs.contains(("voice.transcript.role"@, crate::sinks::attrs::AttrView::Text(role@)))
            &&& s.attrs.contains(("voice.transcript.text"@, crate::sinks::attrs::AttrView::Text(text@)))
        },
        event matches Event::AgentEvent { kind } ==> {
            let s = span_of_event(event)->0;
            &&& span_of_event(event) is Some
            &&& s.name == "voice.agent."@ + kind@
            &&& s.attrs.contains(("voice.agent.kind"@, crate::sinks::attrs::AttrView::Text(kind@)))
        },
        event matches Event::Error { source, message } ==> {
            let s = span_of_event(event)->0;
            &&& span_of_event(event) is Some
            &&& s.name == "voice.error."@ + source@
            &&& s.attrs.contains(("voice.error.source"@, crate::sinks::attrs::AttrView::Text(source@)))
            &&& s.attrs.contains(("voice.error.message"@, crate::sinks::attrs::AttrView::Text(message@)))
        },
        event is SessionEnded ==> span_of_event(event) is Some && span_of_event(event)->0.name
            == "voice.session.ended"@,
{
    crate::sinks::attrs::lemma_attributes_stay();
}

} // verus!
