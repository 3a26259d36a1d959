//! Hierarchical traces: conversation, turn, and below each turn the recognition, generation and
//! synthesis steps.
use crate::event::Event;
use crate::sink_event::{from_event, SinkEvent};
use crate::sinks::attrs::Attrs;
use crate::text::{concat, decimal_of};
use vstd::prelude::*;

verus! {

/// Credentials and endpoint of the trace backend.
#[derive(Clone, Debug)]
pub struct LangfuseConfig {
    pub public_key: String,
    pub secret_key: String,
    pub base_url: String,
    pub trace_public: bool,
}

impl Default for LangfuseConfig {
    fn default() -> (c: Self)
        ensures
            c.public_key@ == Seq::<char>::empty(),
            c.secret_key@ == Seq::<char>::empty(),
            c.base_url@ == "https://cloud.langfuse.com"@,
            !c.trace_public,
    {
        LangfuseConfig {
            public_key: String::new(),
            secret_key: String::new(),
            base_url: "https://cloud.langfuse.com".to_owned(),
            trace_public: false,
        }
    }
}

impl LangfuseConfig {
    /// Both keys are set.
    pub open spec fn enabled(self) -> bool {
        self.public_key@.len() > 0 && self.secret_key@.len() > 0
    }

    /// Whether tracing is configured: both keys are set.
    pub fn is_enabled(&self) -> (r: bool)
        ensures
            r == self.enabled(),
    {
        !self.public_key.as_str().is_empty() && !self.secret_key.as_str().is_empty()
    }
}

/// Where and how traces are exported.
#[derive(Debug)]
pub struct ExporterSettings {
    pub endpoint: String,
    /// Value of the `Authorization` header.
    pub authorization: String,
    pub trace_public: bool,
}

/// The credentials of a configuration, as text.
pub open spec fn credentials(c: LangfuseConfig) -> Seq<char> {
    c.public_key@ + ":"@ + c.secret_key@
}

/// The exporter settings of a configuration; none where tracing is not configured.
pub fn init(config: &LangfuseConfig) -> (r: Option<ExporterSettings>)
    requires
        vstd::utf8::encode_utf8(credentials(*config)).len()
            <= crate::base64_text::MAX_ENCODED_BYTES,
    ensures
        r is Some <==> config.enabled(),
        r matches Some(s) ==> {
            &&& s.endpoint@ == config.base_url@ + "/api/public/otel/v1/traces"@
            &&& s.authorization@ == "Basic "@ + crate::base64_text::encoded(
                vstd::utf8::encode_utf8(credentials(*config)),
            )
            &&& s.trace_public == config.trace_public
        },
{
    if !config.is_enabled() {
        return None;
    }
    let user = concat(config.public_key.as_str(), ":");
    let pair = concat(user.as_str(), config.secret_key.as_str());
    let auth = crate::base64_text::encode(pair.as_str().as_bytes());
    Some(
        ExporterSettings {
            endpoint: concat(config.base_url.as_str(), "/api/public/otel/v1/traces"),
            authorization: concat("Basic ", auth.as_str()),
            trace_public: config.trace_public,
        },
    )
}

/// What the exporter does with its spans.
#[derive(Debug)]
pub enum SpanAction {
    /// Set these attributes on the open turn span and end it.
    EndTurn { attrs: Attrs },
    /// Open a turn span below the conversation span.
    StartTurn { name: String, attrs: Attrs },
    /// Write a finished span below the open turn span, or below the conversation span where no
    /// turn is open.
    Step { under_turn: bool, name: String, attrs: Attrs },
    /// End the conversation span.
    EndConversation,
}

/// A [`SpanAction`] as a value.
pub enum ActionView {
    EndTurn { attrs: crate::sinks::attrs::AttrSeq },
    StartTurn { name: Seq<char>, attrs: crate::sinks::attrs::AttrSeq },
    Step { under_turn: bool, name: Seq<char>, attrs: crate::sinks::attrs::AttrSeq },
    EndConversation,
}

impl View for SpanAction {
    type V = ActionView;

    open spec fn view(&self) -> ActionView {
        match *self {
            SpanAction::EndTurn { attrs } => ActionView::EndTurn { attrs: attrs@ },
            SpanAction::StartTurn { name, attrs } => ActionView::StartTurn {
                name: name@,
                attrs: attrs@,
            },
            SpanAction::Step { under_turn, name, attrs } => ActionView::Step {
                under_turn,
                name: name@,
                attrs: attrs@,
            },
            SpanAction::EndConversation => ActionView::EndConversation,
        }
    }
}

/// Actions as values, in order.
pub open spec fn action_views(actions: Seq<SpanAction>) -> Seq<ActionView> {
    actions.map_values(|a: SpanAction| a@)
}

/// Follows one session and says which spans to open, write and end.
#[derive(Debug)]
pub struct LangfuseSessionObserver {
    pub session_id: String,
    pub trace_public: bool,
    /// Whether a turn span is open.
    pub turn_open: bool,
}

impl LangfuseSessionObserver {
    /// `a` with the attributes that every span below the conversation ends with.
    pub open spec fn with_session(
        self,
        a: crate::sinks::attrs::AttrSeq,
    ) -> crate::sinks::attrs::AttrSeq {
        let b = crate::sinks::attrs::with_text(a, "conversation.id"@, self.session_id@);
        if self.trace_public {
            crate::sinks::attrs::with_flag(b, "langfuse.trace.public"@, true)
        } else {
            b
        }
    }

    /// The attributes of the conversation span.
    pub open spec fn conversation_attrs(self) -> crate::sinks::attrs::AttrSeq {
        let a = crate::sinks::attrs::AttrSeq::empty();
        let a = crate::sinks::attrs::with_text(a, "conversation.id"@, self.session_id@);
        let a = crate::sinks::attrs::with_text(a, "conversation.type"@, "voice"@);
        if self.trace_public {
            crate::sinks::attrs::with_flag(a, "langfuse.trace.public"@, true)
        } else {
            a
        }
    }

    /// The action that opens the span of a turn.
    pub open spec fn start_turn(self, turn_number: u64) -> ActionView {
        let a = crate::sinks::attrs::AttrSeq::empty();
        let a = crate::sinks::attrs::with_int(a, "turn.number"@, turn_number as i64);
        let a = crate::sinks::attrs::with_text(a, "turn.type"@, "conversation"@);
        ActionView::StartTurn {
            name: "turn-"@ + crate::text::decimal(turn_number as nat),
            attrs: self.with_session(a),
        }
    }

    /// The action that writes a recognition step.
    pub open spec fn stt_step(self, e: SinkEvent) -> ActionView
        recommends
            e is SttComplete,
    {
        let a = crate::sinks::attrs::AttrSeq::empty();
        let a = crate::sinks::attrs::with_text(a, "gen_ai.system"@, e->SttComplete_provider@);
        let a = crate::sinks::attrs::with_text(a, "gen_ai.request.model"@, e->SttComplete_model@);
        let a = crate::sinks::attrs::with_text(a, "gen_ai.operation.name"@, "stt"@);
        let a = crate::sinks::attrs::with_text(a, "output"@, e->transcript@);
        let a = crate::sinks::attrs::with_flag(a, "is_final"@, e->is_final);
        let a = crate::sinks::attrs::with_flag(a, "vad_enabled"@, e->vad_enabled);
        let a = crate::sinks::attrs::with_text_opt(a, "language"@, e->language);
        let a = crate::sinks::attrs::with_span(
            a,
            "metrics.duration_ms"@,
            e->SttComplete_duration_ms,
        );
        let a = crate::sinks::attrs::with_span_opt(a, "metrics.ttfb_ms"@, e->SttComplete_ttfb_ms);
        ActionView::Step { under_turn: self.turn_open, name: "stt"@, attrs: self.with_session(a) }
    }

    /// The action that writes a generation step.
    pub open spec fn llm_step(self, e: SinkEvent) -> ActionView
        recommends
            e is LlmComplete,
    {
        let a = crate::sinks::attrs::AttrSeq::empty();
        let a = crate::sinks::attrs::with_text(a, "gen_ai.system"@, e->LlmComplete_provider@);
        let a = crate::sinks::attrs::with_text(a, "gen_ai.request.model"@, e->LlmComplete_model@);
        let a = crate::sinks::attrs::with_text(a, "gen_ai.operation.name"@, "chat"@);
        let a = crate::sinks::attrs::with_text(a, "gen_ai.output.type"@, "text"@);
        let a = a.push(
            (
                "gen_ai.request.temperature"@,
                crate::sinks::attrs::AttrView::Float(e->temperature),
            ),
        );
        let a = crate::sinks::attrs::with_int(
            a,
            "gen_ai.request.max_tokens"@,
            e->max_tokens as i64,
        );
        let a = crate::sinks::attrs::with_flag(a, "stream"@, true);
        let a = crate::sinks::attrs::with_text(a, "input"@, llm_input(e->input_json, e->tools_json));
        let a = crate::sinks::attrs::with_text(a, "output"@, e->output_json@);
        let a = crate::sinks::attrs::with_int(
            a,
            "gen_ai.usage.input_tokens"@,
            e->prompt_tokens as i64,
        );
        let a = crate::sinks::attrs::with_int(
            a,
            "gen_ai.usage.output_tokens"@,
            e->completion_tokens as i64,
        );
        let a = match e->cache_read_tokens {
            Some(n) => crate::sinks::attrs::with_int(
                a,
                "gen_ai.usage.cache_read_input_tokens"@,
                n as i64,
            ),
            None => a,
        };
        let a = crate::sinks::attrs::with_span(
            a,
            "metrics.duration_ms"@,
            e->LlmComplete_duration_ms,
        );
        let a = crate::sinks::attrs::with_span_opt(a, "metrics.ttfb_ms"@, e->LlmComplete_ttfb_ms);
        ActionView::Step {
            under_turn: self.turn_open,
            name: e->span_label@,
            attrs: self.with_session(a),
        }
    }

    /// The action that writes a synthesis step.
    pub open spec fn tts_step(self, e: SinkEvent) -> ActionView
        recommends
            e is TtsComplete,
    {
        let a = crate::sinks::attrs::AttrSeq::empty();
        let a = crate::sinks::attrs::with_text(a, "gen_ai.system"@, e->TtsComplete_provider@);
        let a = crate::sinks::attrs::with_text(a, "gen_ai.request.model"@, e->TtsComplete_model@);
        let a = crate::sinks::attrs::with_text(a, "gen_ai.operation.name"@, "tts"@);
        let a = crate::sinks::attrs::with_text(a, "gen_ai.output.type"@, "speech"@);
        let a = crate::sinks::attrs::with_text(a, "input"@, e->TtsComplete_text@);
        let a = crate::sinks::attrs::with_text(a, "voice_id"@, e->voice_id@);
        let a = crate::sinks::attrs::with_int(
            a,
            "metrics.character_count"@,
            e->character_count as i64,
        );
        let a = crate::sinks::attrs::with_span(
            a,
            "metrics.duration_ms"@,
            e->TtsComplete_duration_ms,
        );
        let a = crate::sinks::attrs::with_span_opt(a, "metrics.ttfb_ms"@, e->TtsComplete_ttfb_ms);
        let a = crate::sinks::attrs::with_span_opt(
            a,
            "metrics.text_aggregation_ms"@,
            e->text_aggregation_ms,
        );
        ActionView::Step { under_turn: self.turn_open, name: "tts"@, attrs: self.with_session(a) }
    }

    /// The action that ends the span of a turn that was followed by another without an end.
    pub open spec fn superseded_turn() -> ActionView {
        ActionView::EndTurn {
            attrs: crate::sinks::attrs::with_flag(
                crate::sinks::attrs::AttrSeq::empty(),
                "turn.was_interrupted"@,
                false,
            ),
        }
    }

    /// The action that ends the span of a turn.
    pub open spec fn end_turn(e: SinkEvent) -> ActionView
        recommends
            e is TurnEnded,
    {
        let a = crate::sinks::attrs::AttrSeq::empty();
        let a = crate::sinks::attrs::with_int(a, "turn.number"@, e->TurnEnded_turn_number as i64);
        let a = crate::sinks::attrs::with_flag(a, "turn.was_interrupted"@, e->was_interrupted);
        let a = crate::sinks::attrs::with_span_opt(a, "turn.duration_ms"@, e->turn_duration_ms);
        let a = crate::sinks::attrs::with_span_opt(
            a,
            "turn.user_agent_latency_ms"@,
            e->user_agent_latency_ms,
        );
        ActionView::EndTurn {
            attrs: crate::sinks::attrs::with_span_opt(a, "turn.vad_silence_ms"@, e->vad_silence_ms),
        }
    }

    /// What the exporter does on an event.
    pub open spec fn actions_on(self, e: SinkEvent) -> Seq<ActionView> {
        match e {
            SinkEvent::TurnStarted { turn_number } => if self.turn_open {
                seq![Self::superseded_turn(), self.start_turn(turn_number)]
            } else {
                seq![self.start_turn(turn_number)]
            },
            SinkEvent::TurnEnded { .. } => if self.turn_open {
                seq![Self::end_turn(e)]
            } else {
                Seq::empty()
            },
            SinkEvent::SttComplete { .. } => seq![self.stt_step(e)],
            SinkEvent::LlmComplete { .. } => seq![self.llm_step(e)],
            SinkEvent::TtsComplete { .. } => seq![self.tts_step(e)],
            _ => Seq::empty(),
        }
    }

    /// Whether a turn span is open after an event.
    pub open spec fn open_after(self, e: SinkEvent) -> bool {
        match e {
            SinkEvent::TurnStarted { .. } => true,
            SinkEvent::TurnEnded { .. } => false,
            _ => self.turn_open,
        }
    }

    /// An observer of a session, where traces are exported at all; and the attributes of the
    /// conversation span that it starts with.
    pub fn new(session_id: String, settings: Option<&ExporterSettings>) -> (r: Option<
        (Self, Attrs),
    >)
        ensures
            r is Some <==> settings is Some,
            r matches Some((o, a)) ==> {
                &&& o.session_id == session_id
                &&& o.trace_public == settings->0.trace_public
                &&& !o.turn_open
                &&& a@ == o.conversation_attrs()
            },
    {
        let settings = match settings {
            Some(s) => s,
            None => return None,
        };
        let mut a = Attrs::new();
        a.text("conversation.id", session_id.as_str());
        a.text("conversation.type", "voice");
        if settings.trace_public {
            a.flag("langfuse.trace.public", true);
        }
        Some(
            (
                LangfuseSessionObserver {
                    session_id,
                    trace_public: settings.trace_public,
                    turn_open: false,
                },
                a,
            ),
        )
    }

    fn finish_attrs(&self, a: Attrs) -> (r: Attrs)
        ensures
            r@ == self.with_session(a@),
    {
        let mut r = a;
        r.text("conversation.id", self.session_id.as_str());
        if self.trace_public {
            r.flag("langfuse.trace.public", true);
        }
        r
    }

    fn write_stt(&self, e: &SinkEvent) -> (r: SpanAction)
        requires
            *e is SttComplete,
        ensures
            r@ == self.stt_step(*e),
    {
        let mut a = Attrs::new();
        if let SinkEvent::SttComplete {
            provider,
            model,
            transcript,
            is_final,
            language,
            duration_ms,
            ttfb_ms,
            vad_enabled,
        } = e {
            a.text("gen_ai.system", provider.as_str());
            a.text("gen_ai.request.model", model.as_str());
            a.text("gen_ai.operation.name", "stt");
            a.text("output", transcript.as_str());
            a.flag("is_final", *is_final);
            a.flag("vad_enabled", *vad_enabled);
            a.text_opt("language", language);
            a.span("metrics.duration_ms", *duration_ms);
            a.span_opt("metrics.ttfb_ms", *ttfb_ms);
        }
        SpanAction::Step {
            under_turn: self.turn_open,
            name: "stt".to_owned(),
            attrs: self.finish_attrs(a),
        }
    }

    fn write_llm(&self, e: &SinkEvent) -> (r: SpanAction)
        requires
            *e is LlmComplete,
        ensures
            r@ == self.llm_step(*e),
    {
        let mut a = Attrs::new();
        let mut name = String::new();
        if let SinkEvent::LlmComplete {
            provider,
            model,
            input_json,
            output_json,
            tools_json,
            temperature,
            max_tokens,
            duration_ms,
            ttfb_ms,
            prompt_tokens,
            completion_tokens,
            cache_read_tokens,
            span_label,
        } = e {
            a.text("gen_ai.system", provider.as_str());
            a.text("gen_ai.request.model", model.as_str());
            a.text("gen_ai.operation.name", "chat");
            a.text("gen_ai.output.type", "text");
            a.float("gen_ai.request.temperature", *temperature);
            a.number("gen_ai.request.max_tokens", *max_tokens as i64);
            a.flag("stream", true);
            let input = llm_input_text(input_json, tools_json);
            a.text("input", input.as_str());
            a.text("output", output_json.as_str());
            a.number("gen_ai.usage.input_tokens", *prompt_tokens as i64);
            a.number("gen_ai.usage.output_tokens", *completion_tokens as i64);
            if let Some(n) = cache_read_tokens {
                a.number("gen_ai.usage.cache_read_input_tokens", *n as i64);
            }
            a.span("metrics.duration_ms", *duration_ms);
            a.span_opt("metrics.ttfb_ms", *ttfb_ms);
            name = span_label.clone();
        }
        SpanAction::Step { under_turn: self.turn_open, name, attrs: self.finish_attrs(a) }
    }

    fn write_tts(&self, e: &SinkEvent) -> (r: SpanAction)
        requires
            *e is TtsComplete,
        ensures
            r@ == self.tts_step(*e),
    {
        let mut a = Attrs::new();
        if let SinkEvent::TtsComplete {
            provider,
            model,
            text,
            voice_id,
            character_count,
            duration_ms,
            ttfb_ms,
            text_aggregation_ms,
        } = e {
            a.text("gen_ai.system", provider.as_str());
            a.text("gen_ai.request.model", model.as_str());
            a.text("gen_ai.operation.name", "tts");
            a.text("gen_ai.output.type", "speech");
            a.text("input", text.as_str());
            a.text("voice_id", voice_id.as_str());
            a.number("metrics.character_count", *character_count as i64);
            a.span("metrics.duration_ms", *duration_ms);
            a.span_opt("metrics.ttfb_ms", *ttfb_ms);
            a.span_opt("metrics.text_aggregation_ms", *text_aggregation_ms);
        }
        SpanAction::Step {
            under_turn: self.turn_open,
            name: "tts".to_owned(),
            attrs: self.finish_attrs(a),
        }
    }

    fn write_turn_start(&self, turn_number: u64) -> (r: SpanAction)
        ensures
            r@ == self.start_turn(turn_number),
    {
        let mut a = Attrs::new();
        a.number("turn.number", turn_number as i64);
        a.text("turn.type", "conversation");
        SpanAction::StartTurn {
            name: concat("turn-", decimal_of(turn_number).as_str()),
            attrs: self.finish_attrs(a),
        }
    }

    fn write_turn_end(e: &SinkEvent) -> (r: SpanAction)
        requires
            *e is TurnEnded,
        ensures
            r@ == Self::end_turn(*e),
    {
        let mut a = Attrs::new();
        if let SinkEvent::TurnEnded {
            turn_number,
            was_interrupted,
            turn_duration_ms,
            user_agent_latency_ms,
            vad_silence_ms,
        } = e {
            a.number("turn.number", *turn_number as i64);
            a.flag("turn.was_interrupted", *was_interrupted);
            a.span_opt("turn.duration_ms", *turn_duration_ms);
            a.span_opt("turn.user_agent_latency_ms", *user_agent_latency_ms);
            a.span_opt("turn.vad_silence_ms", *vad_silence_ms);
        }
        SpanAction::EndTurn { attrs: a }
    }

    /// Says what the exporter does on a bus event.
    pub fn on_event(&mut self, event: &Event) -> (actions: Vec<SpanAction>)
        ensures
            final(self).session_id == old(self).session_id,
            final(self).trace_public == old(self).trace_public,
            match crate::sink_event::sink_of(*event) {
                Some(e) => action_views(actions@) == old(self).actions_on(e)
                    && final(self).turn_open == old(self).open_after(e),
                None => actions@.len() == 0 && final(self).turn_open == old(self).turn_open,
            },
    {
        match from_event(event) {
            Some(e) => self.on_sink_event(&e),
            None => Vec::new(),
        }
    }

    /// Says what the exporter does on a stored event.
    pub fn on_sink_event(&mut self, event: &SinkEvent) -> (actions: Vec<SpanAction>)
        ensures
            action_views(actions@) == old(self).actions_on(*event),
            final(self).turn_open == old(self).open_after(*event),
            final(self).session_id == old(self).session_id,
            final(self).trace_public == old(self).trace_public,
    {
        let mut actions: Vec<SpanAction> = Vec::new();
        match event {
            SinkEvent::TurnStarted { turn_number } => {
                if self.turn_open {
                    let mut a = Attrs::new();
                    a.flag("turn.was_interrupted", false);
                    actions.push(SpanAction::EndTurn { attrs: a });
                }
                actions.push(self.write_turn_start(*turn_number));
                self.turn_open = true;
            },
            SinkEvent::TurnEnded { .. } => {
                if self.turn_open {
                    actions.push(Self::write_turn_end(event));
                }
                self.turn_open = false;
            },
            SinkEvent::SttComplete { .. } => {
                actions.push(self.write_stt(event));
            },
            SinkEvent::LlmComplete { .. } => {
                actions.push(self.write_llm(event));
            },
            SinkEvent::TtsComplete { .. } => {
                actions.push(self.write_tts(event));
            },
            _ => {},
        }
        assert(action_views(actions@) =~= old(self).actions_on(*event));
        actions
    }

    /// What the exporter does at the end of the session.
    pub open spec fn actions_at_end(self) -> Seq<ActionView> {
        let end = seq![ActionView::EndConversation];
        if self.turn_open {
            seq![ActionView::EndTurn { attrs: crate::sinks::attrs::AttrSeq::empty() }] + end
        } else {
            end
        }
    }

    /// Ends the open turn span, where there is one, and the conversation span.
    pub fn finish(self) -> (actions: Vec<SpanAction>)
        ensures
            action_views(actions@) == self.actions_at_end(),
            action_views(actions@) == if self.turn_open {
                seq![
                    ActionView::EndTurn { attrs: crate::sinks::attrs::AttrSeq::empty() },
                    ActionView::EndConversation,
                ]
            } else {
                seq![ActionView::EndConversation]
            },
    {
        let mut actions: Vec<SpanAction> = Vec::new();
        if self.turn_open {
            actions.push(SpanAction::EndTurn { attrs: Attrs::new() });
        }
        actions.push(SpanAction::EndConversation);
        assert(action_views(actions@) =~= if self.turn_open {
            seq![
                ActionView::EndTurn { attrs: crate::sinks::attrs::AttrSeq::empty() },
                ActionView::EndConversation,
            ]
        } else {
            seq![ActionView::EndConversation]
        });
        assert(action_views(actions@) =~= self.actions_at_end());
        actions
    }
}

/// The input of a generation: its messages and, where there are any, its tools.
pub open spec fn llm_input(messages: String, tools: Option<String>) -> Seq<char> {
    match tools {
        Some(t) => "{\"messages\":"@ + messages@ + ",\"tools\":"@ + t@ + "}"@,
        None => "{\"messages\":"@ + messages@ + "}"@,
    }
}

fn llm_input_text(messages: &String, tools: &Option<String>) -> (r: String)
    ensures
        r@ == llm_input(*messages, *tools),
{
    let mut r = concat("{\"messages\":", messages.as_str());
    if let Some(t) = tools {
        r.append(",\"tools\":");
        r.append(t.as_str());
    }
    r.append("}");
    r
}

/// How many turn spans a sequence of actions opens, less those it ends.
pub open spec fn turn_balance(actions: Seq<ActionView>) -> int
    decreases actions.len(),
{
    if actions.len() == 0 {
        0
    } else {
        turn_balance(actions.drop_last()) + match actions.last() {
            ActionView::StartTurn { .. } => 1int,
            ActionView::EndTurn { .. } => -1int,
            _ => 0int,
        }
    }
}

/// At most one turn span is open at any time: what an event opens, less what it ends, is the change
/// of the open turn; and a step is written below a turn only while one is open.
pub proof fn law_one_turn_span(o: LangfuseSessionObserver, e: SinkEvent)
    ensures
        turn_balance(o.actions_on(e)) == (if o.open_after(e) {
            1int
        } else {
            0int
        }) - (if o.turn_open {
            1int
        } else {
            0int
        }),
        forall|i: int|
            0 <= i < o.actions_on(e).len() ==> (#[trigger] o.actions_on(e)[i] matches
                ActionView::Step { under_turn, .. } ==> under_turn == o.turn_open),
{
    reveal_with_fuel(turn_balance, 3);
    let a = o.actions_on(e);
    if a.len() == 2 {
        assert(a.drop_last().drop_last() =~= Seq::<ActionView>::empty());
        assert(a.drop_last().last() == a[0]);
    } else if a.len() == 1 {
        assert(a.drop_last() =~= Seq::<ActionView>::empty());
    }
}

/// A finished recognition is written with all that is known of it, below the turn that is open.
pub proof fn law_recognition_is_told(o: LangfuseSessionObserver, e: SinkEvent)
    requires
        e is SttComplete,
    ensures
        ({
            let a = o.stt_step(e)->Step_attrs;
            &&& o.stt_step(e) is Step
            &&& o.actions_on(e) == seq![o.stt_step(e)]
            &&& o.stt_step(e)->under_turn == o.turn_open
            &&& o.stt_step(e)->Step_name == "stt"@
            &&& a.contains(("conversation.id"@, crate::sinks::attrs::AttrView::Text(o.session_id@)))
            &&& a.contains(("gen_ai.system"@, crate::sinks::attrs::AttrView::Text(e->SttComplete_provider@)))
            &&& a.contains(("gen_ai.request.model"@, crate::sinks::attrs::AttrView::Text(e->SttComplete_model@)))
            &&& a.contains(("gen_ai.operation.name"@, crate::sinks::attrs::AttrView::Text("stt"@)))
            &&& a.contains(("output"@, crate::sinks::attrs::AttrView::Text(e->transcript@)))
            &&& a.contains(("is_final"@, crate::sinks::attrs::AttrView::Flag(e->is_final)))
            &&& a.contains(("vad_enabled"@, crate::sinks::attrs::AttrView::Flag(e->vad_enabled)))
            &&& a.contains(("metrics.duration_ms"@, crate::sinks::attrs::AttrView::Span(e->SttComplete_duration_ms)))
            &&& e->SttComplete_ttfb_ms matches Some(x)
                ==> a.contains(("metrics.ttfb_ms"@, crate::sinks::attrs::AttrView::Span(x)))
        }),
{
    crate::sinks::attrs::lemma_attributes_stay();
}

/// A finished generation is written with all that is known of it, below the turn that is open.
pub proof fn law_generation_is_told(o: LangfuseSessionObserver, e: SinkEvent)
    requires
        e is LlmComplete,
    ensures
        ({
            let a = o.llm_step(e)->Step_attrs;
            &&& o.llm_step(e) is Step
            &&& o.actions_on(e) == seq![o.llm_step(e)]
            &&& o.llm_step(e)->under_turn == o.turn_open
            &&& o.llm_step(e)->Step_name == e->span_label@
            &&& a.contains(("conversation.id"@, crate::sinks::attrs::AttrView::Text(o.session_id@)))
            &&& a.contains(("gen_ai.system"@, crate::sinks::attrs::AttrView::Text(e->LlmComplete_provider@)))
            &&& a.contains(("gen_ai.request.model"@, crate::sinks::attrs::AttrView::Text(e->LlmComplete_model@)))
            &&& a.contains(("gen_ai.operation.name"@, crate::sinks::attrs::AttrView::Text("chat"@)))
            &&& a.contains(("gen_ai.output.type"@, crate::sinks::attrs::AttrView::Text("text"@)))
            &&& a.contains(("gen_ai.request.temperature"@, crate::sinks::attrs::AttrView::Float(e->temperature)))
            &&& a.contains(("gen_ai.request.max_tokens"@, crate::sinks::attrs::AttrView::Int(e->max_tokens as i64)))
            &&& a.contains(("stream"@, crate::sinks::attrs::AttrView::Flag(true)))
            &&& a.contains(("output"@, crate::sinks::attrs::AttrView::Text(e->output_json@)))
            &&& a.contains(("gen_ai.usage.input_tokens"@, crate::sinks::attrs::AttrView::Int(e->prompt_tokens as i64)))
            &&& a.contains(("gen_ai.usage.output_tokens"@, crate::sinks::attrs::AttrView::Int(e->completion_tokens as i64)))
            &&& a.contains(("metrics.duration_ms"@, crate::sinks::attrs::AttrView::Span(e->LlmComplete_duration_ms)))
            &&& a.contains(("input"@, crate::sinks::attrs::AttrView::Text(llm_input(e->input_json, e->tools_json))))
            &&& e->LlmComplete_ttfb_ms matches Some(x)
                ==> a.contains(("metrics.ttfb_ms"@, crate::sinks::attrs::AttrView::Span(x)))
        }),
{
    crate::sinks::attrs::lemma_attributes_stay();
}

/// A finished synthesis is written with all that is known of it, below the turn that is open.
pub proof fn law_synthesis_is_told(o: LangfuseSessionObserver, e: SinkEvent)
    requires
        e is TtsComplete,
    ensures
        ({
            let a = o.tts_step(e)->Step_attrs;
            &&& o.tts_step(e) is Step
            &&& o.actions_on(e) == seq![o.tts_step(e)]
            &&& o.tts_step(e)->under_turn == o.turn_open
            &&& o.tts_step(e)->Step_name == "tts"@
            &&& a.contains(("conversation.id"@, crate::sinks::attrs::AttrView::Text(o.session_id@)))
            &&& a.contains(("gen_ai.system"@, crate::sinks::attrs::AttrView::Text(e->TtsComplete_provider@)))
            &&& a.contains(("gen_ai.request.model"@, crate::sinks::attrs::AttrView::Text(e->TtsComplete_model@)))
            &&& a.contains(("gen_ai.operation.name"@, crate::sinks::attrs::AttrView::Text("tts"@)))
            &&& a.contains(("gen_ai.output.type"@, crate::sinks::attrs::AttrView::Text("speech"@)))
            &&& a.contains(("input"@, crate::sinks::attrs::AttrView::Text(e->TtsComplete_text@)))
            &&& a.contains(("voice_id"@, crate::sinks::attrs::AttrView::Text(e->voice_id@)))
            &&& a.contains(("metrics.character_count"@, crate::sinks::attrs::AttrView::Int(e->character_count as i64)))
            &&& a.contains(("metrics.duration_ms"@, crate::sinks::attrs::AttrView::Span(e->TtsComplete_duration_ms)))
            &&& e->TtsComplete_ttfb_ms matches Some(x)
                ==> a.contains(("metrics.ttfb_ms"@, crate::sinks::attrs::AttrView::Span(x)))
            &&& e->text_aggregation_ms matches Some(x)
                ==> a.contains(("metrics.text_aggregation_ms"@, crate::sinks::attrs::AttrView::Span(x)))
        }),
{
    crate::sinks::attrs::lemma_attributes_stay();
}

/// A turn is opened under its number. One that is still open is ended first, as not interrupted.
pub proof fn law_turns_are_opened(o: LangfuseSessionObserver, turn_number: u64)
    ensures
        ({
            let actions = o.actions_on(SinkEvent::TurnStarted { turn_number });
            let start = actions.last();
            let a = start->StartTurn_attrs;
            &&& actions.len() == if o.turn_open {
                2int
            } else {
                1int
            }
            &&& start is StartTurn
            &&& start->StartTurn_name == "turn-"@ + crate::text::decimal(turn_number as nat)
            &&& a.contains(("turn.number"@, crate::sinks::attrs::AttrView::Int(turn_number as i64)))
            &&& a.contains(("turn.type"@, crate::sinks::attrs::AttrView::Text("conversation"@)))
            &&& a.contains(("conversation.id"@, crate::sinks::attrs::AttrView::Text(o.session_id@)))
            &&& o.trace_public
                ==> a.contains(("langfuse.trace.public"@, crate::sinks::attrs::AttrView::Flag(true)))
            &&& o.turn_open ==> (actions[0] matches ActionView::EndTurn { attrs } && attrs == seq![
                ("turn.was_interrupted"@, crate::sinks::attrs::AttrView::Flag(false)),
            ])
            &&& o.open_after(SinkEvent::TurnStarted { turn_number })
        }),
{
    crate::sinks::attrs::lemma_attributes_stay();
    let actions = o.actions_on(SinkEvent::TurnStarted { turn_number });
    if o.turn_open {
        assert(actions[0]->EndTurn_attrs =~= seq![
            ("turn.was_interrupted"@, crate::sinks::attrs::AttrView::Flag(false)),
        ]);
    }
}

/// A turn that is open is ended with its number, whether it was interrupted, and what is known of how
/// long it took; without one there is nothing to end.
pub proof fn law_turns_are_ended(o: LangfuseSessionObserver, e: SinkEvent)
    requires
        e is TurnEnded,
    ensures
        ({
            let actions = o.actions_on(e);
            let a = actions[0]->EndTurn_attrs;
            &&& !o.open_after(e)
            &&& !o.turn_open ==> actions.len() == 0
            &&& o.turn_open ==> {
            &&& actions.len() == 1
            &&& actions[0] is EndTurn
            &&& a.contains(("turn.number"@, crate::sinks::attrs::AttrView::Int(e->TurnEnded_turn_number as i64)))
            &&& a.contains(("turn.was_interrupted"@, crate::sinks::attrs::AttrView::Flag(e->was_interrupted)))
            &&& e->turn_duration_ms matches Some(x)
                ==> a.contains(("turn.duration_ms"@, crate::sinks::attrs::AttrView::Span(x)))
            &&& e->user_agent_latency_ms matches Some(x)
                ==> a.contains(("turn.user_agent_latency_ms"@, crate::sinks::attrs::AttrView::Span(x)))
            &&& e->vad_silence_ms matches Some(x)
                ==> a.contains(("turn.vad_silence_ms"@, crate::sinks::attrs::AttrView::Span(x)))
            }
        }),
{
    crate::sinks::attrs::lemma_attributes_stay();
}

/// Only turns, recognition, generation and synthesis are traced, and only a turn opens or ends a
/// turn span.
pub proof fn law_other_events_are_not_traced(o: LangfuseSessionObserver, e: SinkEvent)
    ensures
        !(e is TurnStarted || e is TurnEnded || e is SttComplete || e is LlmComplete
            || e is TtsComplete) ==> o.actions_on(e).len() == 0,
        !(e is TurnStarted || e is TurnEnded) ==> o.open_after(e) == o.turn_open,
{
}

/// The end of the session ends the conversation last, and before it the turn that is open.
pub proof fn law_session_end_ends_every_span(o: LangfuseSessionObserver)
    ensures
        o.actions_at_end().last() is EndConversation,
        o.turn_open ==> o.actions_at_end().len() == 2 && o.actions_at_end()[0] is EndTurn,
        !o.turn_open ==> o.actions_at_end().len() == 1,
{
}

/// The credentials are both keys with a colon between them.
pub proof fn law_credentials_hold_both_keys(c: LangfuseConfig)
    ensures
        ({
            let n = c.public_key@.len() as int;
            &&& credentials(c).len() == n + 1 + c.secret_key@.len()
            &&& credentials(c).take(n) == c.public_key@
            &&& credentials(c)[n] == ':'
            &&& credentials(c).skip(n + 1) == c.secret_key@
        }),
{
    reveal_strlit(":");
    let n = c.public_key@.len() as int;
    assert(credentials(c).take(n) =~= c.public_key@);
    assert(credentials(c).skip(n + 1) =~= c.secret_key@);
}

/// The input of a generation is an object with its messages first, and its tools where it has any.
pub proof fn law_generation_input_holds_messages(messages: String, tools: Option<String>)
    ensures
        ({
            let input = llm_input(messages, tools);
            let at = "{\"messages\":"@.len() as int;
            let end = at + messages@.len();
            &&& input.take(at) == "{\"messages\":"@
            &&& input.subrange(at, end) == messages@
            &&& tools is None ==> input.skip(end) == "}"@
            &&& tools matches Some(t) ==> input.skip(end) == ",\"tools\":"@ + t@ + "}"@
        }),
{
    let input = llm_input(messages, tools);
    let at = "{\"messages\":"@.len() as int;
    let end = at + messages@.len();
    assert(input.take(at) =~= "{\"messages\":"@);
    assert(input.subrange(at, end) =~= messages@);
    if let Some(t) = tools {
        assert(input.skip(end) =~= ",\"tools\":"@ + t@ + "}"@);
    } else {
        assert(input.skip(end) =~= "}"@);
    }
}

/// The span of the conversation tells its session and that it is a voice conversation, and is public
/// where that is configured.
pub proof fn law_conversation_is_told(o: LangfuseSessionObserver)
    ensures
        o.conversation_attrs().contains(
            ("conversation.id"@, crate::sinks::attrs::AttrView::Text(o.session_id@)),
        ),
        o.conversation_attrs().contains(
            ("conversation.type"@, crate::sinks::attrs::AttrView::Text("voice"@)),
        ),
        o.trace_public <==> o.conversation_attrs().contains(
            ("langfuse.trace.public"@, crate::sinks::attrs::AttrView::Flag(true)),
        ),
{
    crate::sinks::attrs::lemma_attributes_stay();
}

/// Tracing is off as soon as one of the two keys is the empty text, and on otherwise.
pub proof fn law_both_keys_are_needed(c: LangfuseConfig)
    ensures
        !c.enabled() <==> c.public_key@ == Seq::<char>::empty() || c.secret_key@
            == Seq::<char>::empty(),
{
    assert(c.public_key@.len() == 0 ==> c.public_key@ =~= Seq::<char>::empty());
    assert(c.secret_key@.len() == 0 ==> c.secret_key@ =~= Seq::<char>::empty());
}

} // verus!
