//! Running an agent without a call: its language model, its tool hooks and what it reports.
use crate::clock::Millis;
use crate::text::{concat, same, trim};
use vstd::prelude::*;

verus! {

/// Rounds of tool calls that a turn may take.
pub const MAX_TOOL_ROUNDS: u32 = 5;

/// A client for a language model.
#[derive(Clone, Copy, Debug, PartialEq, Eq, Structural)]
pub enum LlmKind {
    Groq,
    OpenAi,
    Anthropic,
    DeepSeek,
    Gemini,
    /// Any server that speaks OpenAI's protocol.
    OpenAiCompat,
}

/// The client that a provider asks for by name.
pub open spec fn named_kind(provider: Seq<char>) -> Option<LlmKind> {
    if provider == "groq"@ {
        Some(LlmKind::Groq)
    } else if provider == "openai"@ {
        Some(LlmKind::OpenAi)
    } else if provider == "anthropic"@ {
        Some(LlmKind::Anthropic)
    } else if provider == "deepseek"@ {
        Some(LlmKind::DeepSeek)
    } else if provider == "gemini"@ {
        Some(LlmKind::Gemini)
    } else {
        None
    }
}

/// The clients that are tried for a provider, in order: its own, then the general one.
pub open spec fn attempts(provider: Seq<char>) -> Seq<LlmKind> {
    match named_kind(provider) {
        Some(k) => seq![k, LlmKind::OpenAiCompat],
        None => seq![LlmKind::OpenAiCompat],
    }
}

/// The clients that are tried for a provider, in order, until one can be made.
pub fn llm_attempts(provider: &str) -> (kinds: Vec<LlmKind>)
    ensures
        kinds@ == attempts(provider@),
{
    let named = if same(provider, "groq") {
        Some(LlmKind::Groq)
    } else if same(provider, "openai") {
        Some(LlmKind::OpenAi)
    } else if same(provider, "anthropic") {
        Some(LlmKind::Anthropic)
    } else if same(provider, "deepseek") {
        Some(LlmKind::DeepSeek)
    } else if same(provider, "gemini") {
        Some(LlmKind::Gemini)
    } else {
        None
    };
    let mut kinds: Vec<LlmKind> = Vec::new();
    if let Some(k) = named {
        kinds.push(k);
    }
    kinds.push(LlmKind::OpenAiCompat);
    assert(kinds@ =~= attempts(provider@));
    kinds
}

impl LlmKind {
    /// Whether the client is told the server's URL. Groq has one of its own.
    pub fn takes_base_url(self) -> (r: bool)
        ensures
            r == (self != LlmKind::Groq),
    {
        self != LlmKind::Groq
    }
}

/// The error where not even the general client can be made.
pub fn llm_failure(cause: &str) -> (m: String)
    ensures
        m@ == "Failed to create OpenAI-compatible LLM provider: "@ + cause@,
{
    concat("Failed to create OpenAI-compatible LLM provider: ", cause)
}

/// Whatever a provider is called, the general client is tried, and it is tried last.
pub proof fn law_general_client_is_last(provider: Seq<char>)
    ensures
        1 <= attempts(provider).len() <= 2,
        attempts(provider).last() == LlmKind::OpenAiCompat,
{
}

/// What became of calling a hook.
#[derive(Debug)]
pub enum HookOutcome {
    /// There is no hook.
    Absent,
    /// It returned nothing.
    Nothing,
    /// It returned a text.
    Text(String),
    /// It returned something else.
    NotText,
    /// It failed.
    Raised,
}

/// What to do with a tool call.
#[derive(Debug)]
pub enum BeforeToolCallAction {
    Proceed,
    /// Answer it with this text instead.
    Stub(String),
}

/// What to do with a tool's result.
#[derive(Debug)]
pub enum AfterToolCallAction {
    PassThrough,
    /// Replace it by this text.
    Override(String),
}

/// What the hook before a tool call makes of it: a text takes its place, anything else lets it
/// happen.
pub fn before_tool_call(outcome: HookOutcome) -> (a: BeforeToolCallAction)
    ensures
        a == match outcome {
            HookOutcome::Text(t) => BeforeToolCallAction::Stub(t),
            _ => BeforeToolCallAction::Proceed,
        },
{
    match outcome {
        HookOutcome::Text(t) => BeforeToolCallAction::Stub(t),
        _ => BeforeToolCallAction::Proceed,
    }
}

/// What the hook after a tool call makes of its result: a text takes its place, anything else lets
/// it pass.
pub fn after_tool_call(outcome: HookOutcome) -> (a: AfterToolCallAction)
    ensures
        a == match outcome {
            HookOutcome::Text(t) => AfterToolCallAction::Override(t),
            _ => AfterToolCallAction::PassThrough,
        },
{
    match outcome {
        HookOutcome::Text(t) => AfterToolCallAction::Override(t),
        _ => AfterToolCallAction::PassThrough,
    }
}

/// What two hooks in a row make of a tool call. The first sees every call; the second decides the
/// calls that the first lets happen, and is not asked otherwise.
#[derive(Debug)]
pub enum CompositeStep {
    Done(BeforeToolCallAction),
    AskSecond,
}

/// What follows from what the first hook, where there is one, made of a tool call.
pub fn after_first_hook(first: Option<BeforeToolCallAction>) -> (s: CompositeStep)
    ensures
        s == match first {
            Some(BeforeToolCallAction::Stub(t)) => CompositeStep::Done(
                BeforeToolCallAction::Stub(t),
            ),
            _ => CompositeStep::AskSecond,
        },
{
    match first {
        Some(BeforeToolCallAction::Stub(t)) => CompositeStep::Done(BeforeToolCallAction::Stub(t)),
        _ => CompositeStep::AskSecond,
    }
}

/// What two hooks in a row make of a tool's result: what the first makes of it, where there is one.
pub fn composite_after(first: Option<AfterToolCallAction>) -> (a: AfterToolCallAction)
    ensures
        a == match first {
            Some(x) => x,
            None => AfterToolCallAction::PassThrough,
        },
{
    match first {
        Some(a) => a,
        None => AfterToolCallAction::PassThrough,
    }
}

/// The greeting that opens a conversation, where there is one that says something.
pub fn opening_message(greeting: Option<String>) -> (m: Option<String>)
    ensures
        m == match greeting {
            Some(g) => if crate::text::trimmed(g@).len() > 0 {
                Some(g)
            } else {
                None
            },
            None => None,
        },
{
    match greeting {
        Some(g) => {
            if trim(g.as_str()).as_str().is_empty() {
                None
            } else {
                Some(g)
            }
        },
        None => None,
    }
}

/// What an agent reports during a turn.
#[derive(Debug)]
pub enum AgentEvent {
    /// A piece of its answer.
    Token(String),
    ToolCallStarted { id: String, name: String, side_effect: bool },
    ToolCallCompleted {
        id: String,
        name: String,
        success: bool,
        error_message: Option<String>,
    },
    Finished { content: Option<String> },
    Error(String),
    HangUp { reason: String, content: Option<String> },
    LlmComplete {
        provider: String,
        model: String,
        duration_ms: Millis,
        ttfb_ms: Option<Millis>,
        prompt_tokens: u32,
        completion_tokens: u32,
        cache_read_tokens: Option<u32>,
    },
    OnHold { duration_secs: u32 },
}

/// A value of a field.
#[derive(Debug)]
pub enum FieldValue {
    Text(String),
    OptText(Option<String>),
    Flag(bool),
    Count(u32),
    OptCount(Option<u32>),
    Duration(Millis),
    OptDuration(Option<Millis>),
}

/// A field of an event's dictionary.
#[derive(Debug)]
pub struct EventField {
    pub key: &'static str,
    pub value: FieldValue,
}

/// The name of an event's kind.
pub open spec fn kind_name(e: AgentEvent) -> Seq<char> {
    match e {
        AgentEvent::Token(_) => "token"@,
        AgentEvent::ToolCallStarted { .. } => "tool_call_started"@,
        AgentEvent::ToolCallCompleted { .. } => "tool_call_completed"@,
        AgentEvent::Finished { .. } => "finished"@,
        AgentEvent::Error(_) => "error"@,
        AgentEvent::HangUp { .. } => "hang_up"@,
        AgentEvent::LlmComplete { .. } => "llm_complete"@,
        AgentEvent::OnHold { .. } => "on_hold"@,
    }
}

/// The fields of an event's dictionary after its kind.
pub open spec fn payload(e: AgentEvent) -> Seq<(Seq<char>, FieldValue)> {
    match e {
        AgentEvent::Token(t) => seq![("text"@, FieldValue::Text(t))],
        AgentEvent::ToolCallStarted { id, name, side_effect } => seq![
            ("id"@, FieldValue::Text(id)),
            ("name"@, FieldValue::Text(name)),
            ("side_effect"@, FieldValue::Flag(side_effect)),
        ],
        AgentEvent::ToolCallCompleted { id, name, success, error_message } => seq![
            ("id"@, FieldValue::Text(id)),
            ("name"@, FieldValue::Text(name)),
            ("success"@, FieldValue::Flag(success)),
            ("error_message"@, FieldValue::OptText(error_message)),
        ],
        AgentEvent::Finished { content } => seq![("text"@, FieldValue::OptText(content))],
        AgentEvent::Error(t) => seq![("text"@, FieldValue::Text(t))],
        AgentEvent::HangUp { reason, content } => seq![
            ("reason"@, FieldValue::Text(reason)),
            ("content"@, FieldValue::OptText(content)),
        ],
        AgentEvent::LlmComplete {
            provider,
            model,
            duration_ms,
            ttfb_ms,
            prompt_tokens,
            completion_tokens,
            cache_read_tokens,
        } => seq![
            ("provider"@, FieldValue::Text(provider)),
            ("model"@, FieldValue::Text(model)),
            ("duration_ms"@, FieldValue::Duration(duration_ms)),
            ("ttfb_ms"@, FieldValue::OptDuration(ttfb_ms)),
            ("prompt_tokens"@, FieldValue::Count(prompt_tokens)),
            ("completion_tokens"@, FieldValue::Count(completion_tokens)),
            ("cache_read_tokens"@, FieldValue::OptCount(cache_read_tokens)),
        ],
        AgentEvent::OnHold { duration_secs } => seq![
            ("duration_secs"@, FieldValue::Count(duration_secs)),
        ],
    }
}

/// Fields as values.
pub open spec fn pairs(fields: Seq<EventField>) -> Seq<(Seq<char>, FieldValue)> {
    fields.map_values(|f: EventField| (f.key@, f.value))
}

fn push(fields: &mut Vec<EventField>, key: &'static str, value: FieldValue)
    ensures
        pairs(final(fields)@) == pairs(old(fields)@).push((key@, value)),
{
    fields.push(EventField { key, value });
    assert(pairs(fields@) =~= pairs(old(fields)@).push((key@, value)));
}

/// The name of an event's kind and the other fields of its dictionary.
pub fn event_fields(e: AgentEvent) -> (d: (&'static str, Vec<EventField>))
    ensures
        d.0@ == kind_name(e),
        pairs(d.1@) == payload(e),
{
    let mut f: Vec<EventField> = Vec::new();
    let kind = match e {
        AgentEvent::Token(t) => {
            push(&mut f, "text", FieldValue::Text(t));
            "token"
        },
        AgentEvent::ToolCallStarted { id, name, side_effect } => {
            push(&mut f, "id", FieldValue::Text(id));
            push(&mut f, "name", FieldValue::Text(name));
            push(&mut f, "side_effect", FieldValue::Flag(side_effect));
            "tool_call_started"
        },
        AgentEvent::ToolCallCompleted { id, name, success, error_message } => {
            push(&mut f, "id", FieldValue::Text(id));
            push(&mut f, "name", FieldValue::Text(name));
            push(&mut f, "success", FieldValue::Flag(success));
            push(&mut f, "error_message", FieldValue::OptText(error_message));
            "tool_call_completed"
        },
        AgentEvent::Finished { content } => {
            push(&mut f, "text", FieldValue::OptText(content));
            "finished"
        },
        AgentEvent::Error(t) => {
            push(&mut f, "text", FieldValue::Text(t));
            "error"
        },
        AgentEvent::HangUp { reason, content } => {
            push(&mut f, "reason", FieldValue::Text(reason));
            push(&mut f, "content", FieldValue::OptText(content));
            "hang_up"
        },
        AgentEvent::LlmComplete {
            provider,
            model,
            duration_ms,
            ttfb_ms,
            prompt_tokens,
            completion_tokens,
            cache_read_tokens,
        } => {
            push(&mut f, "provider", FieldValue::Text(provider));
            push(&mut f, "model", FieldValue::Text(model));
            push(&mut f, "duration_ms", FieldValue::Duration(duration_ms));
            push(&mut f, "ttfb_ms", FieldValue::OptDuration(ttfb_ms));
            push(&mut f, "prompt_tokens", FieldValue::Count(prompt_tokens));
            push(&mut f, "completion_tokens", FieldValue::Count(completion_tokens));
            push(&mut f, "cache_read_tokens", FieldValue::OptCount(cache_read_tokens));
            "llm_complete"
        },
        AgentEvent::OnHold { duration_secs } => {
            push(&mut f, "duration_secs", FieldValue::Count(duration_secs));
            "on_hold"
        },
    };
    assert(pairs(f@) =~= payload(e));
    (kind, f)
}

/// A provider's own client is tried first, and only where it is one of the five that have one.
pub proof fn law_own_client_is_first(provider: Seq<char>)
    ensures
        attempts(provider).len() == 2 <==> provider == "groq"@ || provider == "openai"@ || provider
            == "anthropic"@ || provider == "deepseek"@ || provider == "gemini"@,
        attempts(provider)[0] == LlmKind::Groq <==> provider == "groq"@,
        attempts(provider)[0] == LlmKind::OpenAi <==> provider == "openai"@,
        attempts(provider)[0] == LlmKind::Anthropic <==> provider == "anthropic"@,
        attempts(provider)[0] == LlmKind::DeepSeek <==> provider == "deepseek"@,
        attempts(provider)[0] == LlmKind::Gemini <==> provider == "gemini"@,
{
    reveal_strlit("groq");
    reveal_strlit("openai");
    reveal_strlit("anthropic");
    reveal_strlit("deepseek");
    reveal_strlit("gemini");
    assert("groq"@.len() == 4 && "openai"@.len() == 6 && "anthropic"@.len() == 9);
    assert("deepseek"@.len() == 8 && "gemini"@.len() == 6);
    assert("openai"@[0] == 'o' && "gemini"@[0] == 'g');
}

/// Every kind of event goes under a name of its own.
pub proof fn law_kinds_are_told_apart(a: AgentEvent)
    ensures
        kind_name(a) == "token"@ <==> a is Token,
        kind_name(a) == "tool_call_started"@ <==> a is ToolCallStarted,
        kind_name(a) == "tool_call_completed"@ <==> a is ToolCallCompleted,
        kind_name(a) == "finished"@ <==> a is Finished,
        kind_name(a) == "error"@ <==> a is Error,
        kind_name(a) == "hang_up"@ <==> a is HangUp,
        kind_name(a) == "llm_complete"@ <==> a is LlmComplete,
        kind_name(a) == "on_hold"@ <==> a is OnHold,
{
    reveal_strlit("token");
    reveal_strlit("tool_call_started");
    reveal_strlit("tool_call_completed");
    reveal_strlit("finished");
    reveal_strlit("error");
    reveal_strlit("hang_up");
    reveal_strlit("llm_complete");
    reveal_strlit("on_hold");
    assert("token"@.len() == 5 && "tool_call_started"@.len() == 17);
    assert("tool_call_completed"@.len() == 19 && "finished"@.len() == 8);
    assert("error"@.len() == 5 && "hang_up"@.len() == 7);
    assert("llm_complete"@.len() == 12 && "on_hold"@.len() == 7);
    assert("token"@[0] == 't' && "error"@[0] == 'e');
    assert("hang_up"@[0] == 'h' && "on_hold"@[0] == 'o');
}

/// What stands in an event's dictionary is what the event says, each under its key.
pub proof fn law_dictionary_says_what_happened(e: AgentEvent)
    ensures
        e matches AgentEvent::Token(t) ==> payload(e).contains(("text"@, FieldValue::Text(t))),
        e matches AgentEvent::Error(t) ==> payload(e).contains(("text"@, FieldValue::Text(t))),
        e matches AgentEvent::Finished { content } ==> payload(e).contains(
            ("text"@, FieldValue::OptText(content)),
        ),
        e matches AgentEvent::ToolCallStarted { id, name, side_effect } ==> {
            &&& payload(e).contains(("id"@, FieldValue::Text(id)))
            &&& payload(e).contains(("name"@, FieldValue::Text(name)))
            &&& payload(e).contains(("side_effect"@, FieldValue::Flag(side_effect)))
        },
        e matches AgentEvent::ToolCallCompleted { id, name, success, error_message } ==> {
            &&& payload(e).contains(("id"@, FieldValue::Text(id)))
            &&& payload(e).contains(("name"@, FieldValue::Text(name)))
            &&& payload(e).contains(("success"@, FieldValue::Flag(success)))
            &&& payload(e).contains(("error_message"@, FieldValue::OptText(error_message)))
        },
        e matches AgentEvent::HangUp { reason, content } ==> {
            &&& payload(e).contains(("reason"@, FieldValue::Text(reason)))
            &&& payload(e).contains(("content"@, FieldValue::OptText(content)))
        },
        e matches AgentEvent::OnHold { duration_secs } ==> payload(e).contains(
            ("duration_secs"@, FieldValue::Count(duration_secs)),
        ),
        e matches AgentEvent::LlmComplete {
            provider,
            model,
            duration_ms,
            ttfb_ms,
            prompt_tokens,
            completion_tokens,
            cache_read_tokens,
        } ==> {
            &&& payload(e).contains(("provider"@, FieldValue::Text(provider)))
            &&& payload(e).contains(("model"@, FieldValue::Text(model)))
            &&& payload(e).contains(("duration_ms"@, FieldValue::Duration(duration_ms)))
            &&& payload(e).contains(("ttfb_ms"@, FieldValue::OptDuration(ttfb_ms)))
            &&& payload(e).contains(("prompt_tokens"@, FieldValue::Count(prompt_tokens)))
            &&& payload(e).contains(("completion_tokens"@, FieldValue::Count(completion_tokens)))
            &&& payload(e).contains(
                ("cache_read_tokens"@, FieldValue::OptCount(cache_read_tokens)),
            )
        },
{
    let p = payload(e);
    assert(p.len() > 0 && p.contains(p[0]));
    assert(p.len() > 1 ==> p.contains(p[1]));
    assert(p.len() > 2 ==> p.contains(p[2]));
    assert(p.len() > 3 ==> p.contains(p[3]));
    assert(p.len() > 4 ==> p.contains(p[4]));
    assert(p.len() > 5 ==> p.contains(p[5]));
    assert(p.len() > 6 ==> p.contains(p[6]));
}

} // verus!
