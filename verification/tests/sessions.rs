//! Setting up sessions and running agents.
use voice_engine::agent_runner::{
    after_first_hook, after_tool_call, before_tool_call, composite_after, event_fields,
    llm_attempts, llm_failure, opening_message, AfterToolCallAction, AgentEvent,
    BeforeToolCallAction, CompositeStep, FieldValue, HookOutcome, LlmKind,
};
use voice_engine::audio_ml::denoiser::backend::DenoiserBackend;
use voice_engine::clock::Millis;
use voice_engine::recording::config::{
    map_recording_config, AudioFormat, AudioLayout, RecordingConfig, RecordingRequest,
};
use voice_engine::script::{script_errors, validate_javascript, wrap_script};
use voice_engine::session_config::{
    listen_address, register_session, AgentGraph, GraphNode, ProviderConfig, SessionConfig,
};

fn recording() -> RecordingConfig {
    RecordingConfig {
        enabled: false,
        audio_layout: AudioLayout::Stereo,
        sample_rate: 24000,
        audio_format: AudioFormat::Opus,
        max_duration_secs: 600,
        save_transcript: true,
        include_tool_details: true,
        include_llm_metadata: true,
        output_uri: "file://./recordings".to_string(),
    }
}

fn session() -> SessionConfig {
    SessionConfig {
        agent_id: "a".to_string(),
        denoise_backend: DenoiserBackend::RNNoise,
        language: "en".to_string(),
        voice_id: "v0".to_string(),
        recording: recording(),
        system_prompt: "p0".to_string(),
        greeting: None,
        stt_provider: String::new(),
        stt_p99_latency_ms: 1000,
    }
}

fn graph() -> AgentGraph {
    AgentGraph {
        language: Some("fr".to_string()),
        voice_id: Some("v1".to_string()),
        recording: None,
        entry: "main".to_string(),
        nodes: vec![
            GraphNode {
                name: "other".to_string(),
                system_prompt: "no".to_string(),
                greeting: None,
                voice_id: None,
            },
            GraphNode {
                name: "main".to_string(),
                system_prompt: "p1".to_string(),
                greeting: Some("hello".to_string()),
                voice_id: Some("v2".to_string()),
            },
        ],
    }
}

#[test]
fn graph_overrides_the_session() {
    let s = session().apply_graph(&graph(), recording());
    assert_eq!(s.language, "fr");
    assert_eq!(s.voice_id, "v2");
    assert_eq!(s.system_prompt, "p1");
    assert_eq!(s.greeting.as_deref(), Some("hello"));
    assert_eq!(s.agent_id, "a");
}

#[test]
fn empty_settings_of_a_graph_do_not_count() {
    let mut g = graph();
    g.language = Some(String::new());
    g.entry = "missing".to_string();
    let s = session().apply_graph(&g, recording());
    assert_eq!(s.language, "en");
    assert_eq!(s.voice_id, "v1");
    assert_eq!(s.system_prompt, "p0");
    assert!(g.find_entry().is_none());
}

#[test]
fn requested_recording_keeps_defaults() {
    let mut g = graph();
    g.recording = Some(RecordingRequest {
        enabled: true,
        audio_layout: Some(AudioLayout::Mono),
        sample_rate: 0,
        audio_format: None,
        max_duration_secs: 30,
        save_transcript: false,
        include_tool_details: false,
        include_llm_metadata: true,
        output_uri: String::new(),
    });
    let r = session().apply_graph(&g, recording()).recording;
    assert!(r.enabled && !r.save_transcript && !r.include_tool_details && r.include_llm_metadata);
    assert_eq!(r.audio_layout, AudioLayout::Mono);
    assert_eq!(r.audio_format, AudioFormat::Opus);
    assert_eq!((r.sample_rate, r.max_duration_secs), (24000, 30));
    assert_eq!(r.output_uri, "file://./recordings");
    let direct = map_recording_config(recording(), g.recording.as_ref().unwrap());
    assert_eq!(direct.max_duration_secs, 30);
}

fn providers(stt: &str) -> ProviderConfig {
    ProviderConfig {
        stt_url: "s".to_string(),
        stt_provider: stt.to_string(),
        stt_model: String::new(),
        stt_api_key: String::new(),
        llm_url: "l".to_string(),
        llm_api_key: String::new(),
        llm_model: String::new(),
        llm_provider: String::new(),
        tts_url: "t".to_string(),
        tts_provider: String::new(),
        tts_model: String::new(),
        tts_api_key: String::new(),
        tts_voice_id: String::new(),
    }
}

#[test]
fn registration_sets_voice_and_latency() {
    let r = register_session(session(), providers("elevenlabs"));
    assert_eq!(r.providers.tts_voice_id, "v0");
    assert_eq!(r.config.stt_provider, "elevenlabs");
    assert_eq!(r.config.stt_p99_latency_ms, 1500);
    let r = register_session(session(), providers(""));
    assert_eq!(r.config.stt_provider, "");
    assert_eq!(r.config.stt_p99_latency_ms, 1000);
}

#[test]
fn server_address() {
    assert_eq!(listen_address("0.0.0.0", 8300), "0.0.0.0:8300");
}

#[test]
fn scripts_are_only_compiled() {
    assert!(validate_javascript("return 1 + 1;").is_empty());
    assert!(validate_javascript("while (true) {}").is_empty());
    let errors = validate_javascript("let = ;");
    assert_eq!(errors.len(), 1);
    assert_eq!(errors[0], "JS Syntax Error: Exception generated by QuickJS");
    assert_eq!(validate_javascript("a\0b").len(), 1);
    assert_eq!(wrap_script("x"), "function __validate__() {\nx\n}");
    assert_eq!(script_errors(Some("e".to_string())), vec!["JS Syntax Error: e"]);
    assert!(script_errors(None).is_empty());
}

#[test]
fn general_model_client_is_the_fallback() {
    assert_eq!(llm_attempts("groq"), vec![LlmKind::Groq, LlmKind::OpenAiCompat]);
    assert_eq!(llm_attempts("anthropic"), vec![LlmKind::Anthropic, LlmKind::OpenAiCompat]);
    assert_eq!(llm_attempts("ollama"), vec![LlmKind::OpenAiCompat]);
    assert!(!LlmKind::Groq.takes_base_url());
    assert!(LlmKind::Gemini.takes_base_url());
    assert_eq!(llm_failure("x"), "Failed to create OpenAI-compatible LLM provider: x");
}

#[test]
fn hooks_replace_only_with_text() {
    assert!(matches!(
        before_tool_call(HookOutcome::Text("r".to_string())),
        BeforeToolCallAction::Stub(t) if t == "r"
    ));
    for o in [HookOutcome::Absent, HookOutcome::Nothing, HookOutcome::NotText, HookOutcome::Raised] {
        assert!(matches!(before_tool_call(o), BeforeToolCallAction::Proceed));
    }
    assert!(matches!(
        after_tool_call(HookOutcome::Text("r".to_string())),
        AfterToolCallAction::Override(t) if t == "r"
    ));
    assert!(matches!(after_tool_call(HookOutcome::Raised), AfterToolCallAction::PassThrough));
    assert!(matches!(
        after_first_hook(Some(BeforeToolCallAction::Stub("s".to_string()))),
        CompositeStep::Done(BeforeToolCallAction::Stub(t)) if t == "s"
    ));
    assert!(matches!(
        after_first_hook(Some(BeforeToolCallAction::Proceed)),
        CompositeStep::AskSecond
    ));
    assert!(matches!(after_first_hook(None), CompositeStep::AskSecond));
    assert!(matches!(composite_after(None), AfterToolCallAction::PassThrough));
}

#[test]
fn blank_greetings_are_not_said() {
    assert!(opening_message(Some("  \n".to_string())).is_none());
    assert_eq!(opening_message(Some(" hi ".to_string())).as_deref(), Some(" hi "));
    assert!(opening_message(None).is_none());
}

#[test]
fn hang_up_event_serializes_content() {
    let event = AgentEvent::HangUp {
        reason: "task_complete".into(),
        content: Some("Goodbye.".into()),
    };
    let (event_type, fields) = event_fields(event);
    assert_eq!(event_type, "hang_up");
    assert_eq!(fields[0].key, "reason");
    assert!(matches!(&fields[0].value, FieldValue::Text(t) if t == "task_complete"));
    assert_eq!(fields[1].key, "content");
    assert!(matches!(
        &fields[1].value,
        FieldValue::OptText(content) if content.as_deref() == Some("Goodbye.")
    ));
}

#[test]
fn every_agent_event_has_its_fields() {
    let keys = |e: AgentEvent| -> (&'static str, Vec<&'static str>) {
        let (k, f) = event_fields(e);
        (k, f.iter().map(|x| x.key).collect())
    };
    assert_eq!(keys(AgentEvent::Token("t".into())), ("token", vec!["text"]));
    assert_eq!(
        keys(AgentEvent::ToolCallCompleted {
            id: "1".into(),
            name: "n".into(),
            success: false,
            error_message: None
        }),
        ("tool_call_completed", vec!["id", "name", "success", "error_message"])
    );
    assert_eq!(
        keys(AgentEvent::LlmComplete {
            provider: "p".into(),
            model: "m".into(),
            duration_ms: Millis { ns: 1 },
            ttfb_ms: None,
            prompt_tokens: 1,
            completion_tokens: 2,
            cache_read_tokens: Some(3)
        })
        .1
        .len(),
        7
    );
    assert_eq!(keys(AgentEvent::OnHold { duration_secs: 4 }), ("on_hold", vec!["duration_secs"]));
}
