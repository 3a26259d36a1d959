//! Speech recognition providers.
use voice_engine::clock::Millis;
use voice_engine::providers::stt::builtin::{BuiltinSttProvider, TranscriptResult};
use voice_engine::providers::stt::cartesia::{CartesiaSttProvider, CartesiaTranscriptMsg};
use voice_engine::providers::stt::deepgram::{
    DeepgramAlternative, DeepgramChannel, DeepgramResult, DeepgramSttProvider,
};
use voice_engine::providers::stt::elevenlabs::ElevenLabsSttProvider;
use voice_engine::providers::stt::event::{on_disconnected, SttEvent};
use voice_engine::providers::stt::factory::{
    build_stt_provider, default_stt_p99_latency_ms, SttBackend, SttProviderConfig,
};
use voice_engine::providers::stt::groq::GroqWhisperSttProvider;
use voice_engine::providers::stt::openai_realtime::{
    read_event, OpenAIRealtimeSttProvider, RealtimeEvent,
};
use voice_engine::providers::stt::openai_whisper::OpenAiWhisperSttProvider;
use voice_engine::providers::stt::segmented::{on_outcome, FinalizeStep, UploadOutcome};
use voice_engine::providers::ws::WsKeepalive;

fn show(events: &[SttEvent]) -> Vec<String> {
    events
        .iter()
        .map(|e| match e {
            SttEvent::FirstTextReceived => "first".to_string(),
            SttEvent::PartialTranscript(t) => format!("partial:{}", t),
            SttEvent::Transcript(t) => format!("final:{}", t),
            SttEvent::Error(t) => format!("error:{}", t),
        })
        .collect()
}

#[test]
fn streaming_ws_providers_are_600ms() {
    for provider in ["deepgram", "cartesia", "openai-realtime"] {
        assert_eq!(
            default_stt_p99_latency_ms(provider),
            600,
            "expected 600ms for {provider}"
        );
    }
}

#[test]
fn segmented_http_providers_match_table() {
    assert_eq!(default_stt_p99_latency_ms("groq"), 1000);
    assert_eq!(default_stt_p99_latency_ms("openai-whisper"), 1200);
    assert_eq!(default_stt_p99_latency_ms("elevenlabs"), 1500);
}

#[test]
fn unknown_provider_falls_back_to_1000ms() {
    assert_eq!(default_stt_p99_latency_ms("builtin"), 1000);
    assert_eq!(default_stt_p99_latency_ms(""), 1000);
    assert_eq!(default_stt_p99_latency_ms("some-future-provider"), 1000);
}

#[test]
fn matching_is_case_sensitive() {
    assert_eq!(default_stt_p99_latency_ms("ElevenLabs"), 1000);
    assert_eq!(default_stt_p99_latency_ms("Deepgram"), 1000);
}

fn config(provider: &str) -> SttProviderConfig {
    SttProviderConfig {
        provider: provider.to_string(),
        base_url: "https://stt.example".to_string(),
        api_key: "k".to_string(),
        language: "pt-BR".to_string(),
        model: String::new(),
    }
}

#[test]
fn factory_keeps_or_strips_the_region() {
    match build_stt_provider(&config("deepgram")) {
        SttBackend::Deepgram(p) => {
            assert_eq!(p.language, "pt-BR");
            assert_eq!(p.model, "nova-3-general");
            assert_eq!(p.provider_name(), "deepgram");
        }
        _ => panic!("wrong provider"),
    }
    match build_stt_provider(&config("cartesia")) {
        SttBackend::Cartesia(p) => assert_eq!(p.language, "pt-BR"),
        _ => panic!("wrong provider"),
    }
    match build_stt_provider(&config("openai-realtime")) {
        SttBackend::OpenAiRealtime(p) => assert_eq!(p.language, "pt"),
        _ => panic!("wrong provider"),
    }
    match build_stt_provider(&config("groq")) {
        SttBackend::Groq(p) => {
            assert_eq!(p.language, "pt");
            assert_eq!(p.model, "whisper-large-v3-turbo");
        }
        _ => panic!("wrong provider"),
    }
    match build_stt_provider(&config("openai-whisper")) {
        SttBackend::OpenAiWhisper(p) => assert_eq!(p.language, "pt"),
        _ => panic!("wrong provider"),
    }
    match build_stt_provider(&config("elevenlabs")) {
        SttBackend::ElevenLabs(p) => assert_eq!(p.language, "por"),
        _ => panic!("wrong provider"),
    }
    match build_stt_provider(&config("anything")) {
        SttBackend::Builtin(p) => {
            assert_eq!(p.ws_url, "wss://stt.example/v1/listen?language=pt-BR")
        }
        _ => panic!("wrong provider"),
    }
}

#[test]
fn stt_config_hides_its_key() {
    let c = config("groq").redacted();
    assert_eq!(c.api_key, "[REDACTED]");
    assert_eq!(c.provider, "groq");
    assert_eq!(c.language, "pt-BR");
}

fn channel(texts: &[&str]) -> Option<DeepgramChannel> {
    let alternatives =
        texts.iter().map(|t| DeepgramAlternative { transcript: t.to_string() }).collect();
    Some(DeepgramChannel { alternatives })
}

fn result(text: &str, is_final: bool, speech_final: bool, from_finalize: bool) -> DeepgramResult {
    DeepgramResult {
        msg_type: "Results".to_string(),
        channel: channel(&[text]),
        from_finalize,
        is_final,
        speech_final,
    }
}

#[test]
fn deepgram_joins_the_segments_of_an_utterance() {
    let mut p = DeepgramSttProvider::new("", "");
    assert_eq!(show(&p.on_result(&result(" hel", false, false, false))), ["first", "partial:hel"]);
    assert!(p.on_result(&result("hello ", true, false, false)).is_empty());
    assert!(p.on_result(&result("", false, false, false)).is_empty());
    assert_eq!(show(&p.on_result(&result("there", true, true, false))), ["final:hello there"]);
    assert!(p.segments.is_empty());
    assert!(!p.sent_first_text);
}

#[test]
fn deepgram_keeps_its_session_until_connected_anew() {
    let mut p = DeepgramSttProvider::new("", "");
    p.on_result(&result("hello", true, false, false));
    p.request("key");
    assert_eq!((p.segments.len(), p.sent_first_text), (1, true));
    p.connect();
    assert_eq!((p.segments.len(), p.sent_first_text), (0, false));
    assert_eq!(show(&p.on_result(&result("there", true, true, false))), ["first", "final:there"]);
}

#[test]
fn realtime_keeps_its_session_until_connected_anew() {
    let mut p = OpenAIRealtimeSttProvider::new("", "");
    p.sent_first_text = true;
    p.request("key");
    assert!(p.sent_first_text);
    p.connect();
    assert!(!p.sent_first_text);
}

#[test]
fn deepgram_takes_the_first_alternative() {
    let mut p = DeepgramSttProvider::new("", "");
    let mut r = result("", true, true, false);
    r.channel = channel(&[" one", "two"]);
    assert_eq!(show(&p.on_result(&r)), ["first", "final:one"]);
    r.channel = channel(&["", "two"]);
    assert!(p.on_result(&r).is_empty());
    r.channel = channel(&[]);
    assert!(p.on_result(&r).is_empty());
    r.channel = None;
    assert!(p.on_result(&r).is_empty());
    r.from_finalize = true;
    assert_eq!(show(&p.on_result(&r)), ["final:"]);
}

#[test]
fn deepgram_answers_every_finalize() {
    let mut p = DeepgramSttProvider::new("", "");
    assert_eq!(show(&p.on_result(&result("", true, false, true))), ["final:"]);
    assert!(p.on_result(&result("  ", true, true, false)).is_empty());
    let mut other = result("x", true, true, false);
    other.msg_type = "Metadata".to_string();
    assert!(p.on_result(&other).is_empty());
}

#[test]
fn deepgram_handshake() {
    let p = DeepgramSttProvider::new("nova-2", "de");
    let r = p.request("key");
    assert_eq!(
        r.url,
        "wss://api.deepgram.com/v1/listen?model=nova-2&language=de&encoding=linear16\
         &sample_rate=16000&interim_results=true&punctuate=true&smart_format=true"
    );
    assert_eq!(r.headers[0].name, "Authorization");
    assert_eq!(r.headers[0].value, "Token key");
    assert!(matches!(
        p.connection().keepalive,
        WsKeepalive::TextMessage { interval: Millis { ns: 5_000_000_000 }, .. }
    ));
    assert_eq!(p.finalize(), r#"{"type":"Finalize"}"#);
    assert_eq!(p.close(), r#"{"type":"CloseStream"}"#);
}

fn cartesia(msg_type: &str, text: &str, is_final: bool) -> CartesiaTranscriptMsg {
    CartesiaTranscriptMsg { msg_type: msg_type.to_string(), text: text.to_string(), is_final }
}

#[test]
fn cartesia_reports_partials_and_finals() {
    let mut p = CartesiaSttProvider::new("", "");
    assert!(p.on_message(cartesia("transcript", "", false)).is_empty());
    assert!(p.on_message(cartesia("error", "x", true)).is_empty());
    assert_eq!(
        show(&p.on_message(cartesia("transcript", " hi", false))),
        ["first", "partial: hi"]
    );
    assert_eq!(show(&p.on_message(cartesia("transcript", " hi ", true))), ["final:hi"]);
    assert_eq!(show(&p.on_message(cartesia("transcript", "", true))), ["final:"]);
    p.on_message(cartesia("transcript", "half", false));
    p.request("key");
    assert_eq!(show(&p.on_message(cartesia("transcript", "more", false))), ["partial:more"]);
    p.connect();
    assert_eq!(
        show(&p.on_message(cartesia("transcript", "anew", false))),
        ["first", "partial:anew"]
    );
}

#[test]
fn cartesia_is_kept_alive_by_silence() {
    let p = CartesiaSttProvider::new("", "fr");
    match p.connection().keepalive {
        WsKeepalive::BinaryMessage { interval, payload } => {
            assert_eq!(interval, Millis { ns: 30_000_000_000 });
            assert_eq!(payload, vec![0u8; 3200]);
        }
        _ => panic!("wrong keepalive"),
    }
    let r = p.request("key");
    assert!(r.url.starts_with("wss://api.cartesia.ai/stt/websocket?model=ink-whisper&language=fr&"));
    assert_eq!(r.headers[0].value, "key");
    assert_eq!(r.headers[1].name, "Cartesia-Version");
    assert_eq!(r.headers[1].value, "2025-04-16");
    assert_eq!(p.finalize(), "finalize");
}

#[test]
fn builtin_reports_finals_only() {
    let mut p = BuiltinSttProvider::new("http://host:8100", "en");
    assert_eq!(p.ws_url, "ws://host:8100/v1/listen?language=en");
    let t = |text: &str, is_final: bool| TranscriptResult { is_final, text: text.to_string() };
    assert_eq!(show(&p.on_transcript(&t("a", false))), ["first"]);
    assert!(p.on_transcript(&t("ab", false)).is_empty());
    assert_eq!(show(&p.on_transcript(&t(" ab ", true))), ["final:ab"]);
    assert!(p.on_transcript(&t(" ", true)).is_empty());
    p.on_transcript(&t("half", false));
    p.connect();
    assert_eq!(show(&p.on_transcript(&t("anew", false))), ["first"]);
    assert_eq!(p.finalize(), r#"{"finalize": {}}"#);
    assert_eq!(p.close(), r#"{"close": {}}"#);
}

fn realtime(event_type: &str, delta: &str, transcript: &str) -> RealtimeEvent {
    RealtimeEvent {
        event_type: event_type.to_string(),
        delta: delta.to_string(),
        transcript: transcript.to_string(),
    }
}

#[test]
fn realtime_session_is_configured_once_created() {
    let mut p = OpenAIRealtimeSttProvider::new("", "fr");
    let step = p.on_event(realtime("transcription_session.created", "", ""));
    assert!(step.events.is_empty());
    let v: serde_json::Value = serde_json::from_str(&step.reply.unwrap()).unwrap();
    assert_eq!(v["type"], "transcription_session.update");
    assert_eq!(v["session"]["input_audio_format"], "pcm16");
    assert_eq!(v["session"]["input_audio_transcription"]["model"], "gpt-4o-transcribe");
    assert_eq!(v["session"]["input_audio_transcription"]["language"], "fr");
    assert!(v["session"]["turn_detection"].is_null());
    assert!(v["session"].as_object().unwrap().contains_key("turn_detection"));
    assert!(p.on_event(realtime("session.updated", "", "")).reply.is_none());
}

#[test]
fn realtime_reports_deltas_and_completions() {
    let delta = "conversation.item.input_audio_transcription.delta";
    let done = "conversation.item.input_audio_transcription.completed";
    let mut p = OpenAIRealtimeSttProvider::new("", "");
    assert_eq!(show(&p.on_event(realtime(delta, "he", "")).events), ["first", "partial:he"]);
    assert_eq!(show(&p.on_event(realtime(delta, "llo", "")).events), ["partial:llo"]);
    assert!(p.on_event(realtime(delta, "", "")).events.is_empty());
    assert_eq!(show(&p.on_event(realtime(done, "", " hello ")).events), ["final:hello"]);
    assert_eq!(show(&p.on_event(realtime(done, "", "again")).events), ["first", "final:again"]);
    assert!(p.on_event(realtime(done, "", "  ")).events.is_empty());
}

#[test]
fn realtime_audio_is_base64() {
    let p = OpenAIRealtimeSttProvider::new("", "");
    assert!(p.audio_message(&[]).is_none());
    let m = p.audio_message(&[1, 2, 3]).unwrap();
    let v: serde_json::Value = serde_json::from_str(&m).unwrap();
    assert_eq!(v["type"], "input_audio_buffer.append");
    assert_eq!(v["audio"], "AQID");
    assert_eq!(p.finalize(), r#"{"type":"input_audio_buffer.commit"}"#);
    let r = p.request("key");
    assert_eq!(r.url, "wss://api.openai.com/v1/realtime?intent=transcription");
    assert_eq!(r.headers[0].value, "Bearer key");
    assert_eq!(r.headers[1].value, "realtime=v1");
}

#[test]
fn realtime_messages_are_read() {
    let e = read_event(r#"{"type":"x","delta":"d","transcript":7}"#).unwrap();
    assert_eq!(e.event_type, "x");
    assert_eq!(e.delta, "d");
    assert_eq!(e.transcript, "");
    assert!(read_event("not json").is_none());
}

#[test]
fn uploads_carry_the_whole_utterance() {
    let mut p = GroqWhisperSttProvider::new("", "de");
    p.feed_audio(&[9]);
    p.connect();
    assert!(p.pcm.is_empty());
    p.feed_audio(&[1, 2]);
    p.feed_audio(&[3, 4]);
    match p.finalize("key") {
        FinalizeStep::Upload(u) => {
            assert_eq!(u.url, "https://api.groq.com/openai/v1/audio/transcriptions");
            assert_eq!(u.headers[0].value, "Bearer key");
            assert_eq!(&u.wav[44..], &[1, 2, 3, 4]);
            let fields: Vec<(&str, &str)> =
                u.fields.iter().map(|f| (f.name, f.value.as_str())).collect();
            assert_eq!(
                fields,
                [
                    ("model", "whisper-large-v3-turbo"),
                    ("response_format", "json"),
                    ("language", "de")
                ]
            );
        }
        _ => panic!("expected an upload"),
    }
    assert!(matches!(
        p.finalize("key"),
        FinalizeStep::Report(SttEvent::Transcript(t)) if t.is_empty()
    ));
}

#[test]
fn uploads_of_other_services() {
    let mut w = OpenAiWhisperSttProvider::new("", "");
    w.feed_audio(&[1, 2]);
    w.connect();
    match w.finalize("key") {
        FinalizeStep::Upload(u) => {
            assert_eq!(u.url, "https://api.openai.com/v1/audio/transcriptions");
            assert_eq!(u.fields.len(), 2);
            assert_eq!(u.fields[0].value, "gpt-4o-transcribe");
        }
        _ => panic!("expected an upload"),
    }
    let mut e = ElevenLabsSttProvider::new("", "fr");
    e.connect();
    e.feed_audio(&[1, 2]);
    match e.finalize("key") {
        FinalizeStep::Upload(u) => {
            assert_eq!(u.url, "https://api.elevenlabs.io/v1/speech-to-text");
            assert_eq!(u.headers[0].name, "xi-api-key");
            assert_eq!(u.headers[0].value, "key");
            assert_eq!(u.fields[0].name, "model_id");
            assert_eq!(u.fields[0].value, "scribe_v2");
            assert_eq!(u.fields[1].name, "language_code");
            assert_eq!(u.fields[1].value, "fra");
        }
        _ => panic!("expected an upload"),
    }
}

#[test]
fn nothing_is_uploaded_before_connecting() {
    let mut p = ElevenLabsSttProvider::new("", "en");
    p.feed_audio(&[1, 2, 3]);
    assert!(matches!(p.finalize("key"), FinalizeStep::Discard));
    assert!(p.pcm.is_empty());
    p.feed_audio(&[1, 2, 3]);
    assert_eq!(p.close(), 3);
    assert_eq!(p.close(), 0);
}

#[test]
fn upload_outcomes_are_reported() {
    assert_eq!(show(&on_outcome(&UploadOutcome::Failed)), ["final:"]);
    let body = |s: &str| UploadOutcome::Body(s.to_string());
    assert_eq!(show(&on_outcome(&body(r#"{"text":" hi "}"#))), ["first", "final:hi"]);
    assert_eq!(show(&on_outcome(&body(r#"{"other":1}"#))), ["final:"]);
    assert!(on_outcome(&body("<html>")).is_empty());
}

#[test]
fn lost_connections_are_reported() {
    let e = on_disconnected("deepgram WS disconnected: ", Some("gone")).unwrap();
    assert_eq!(show(&[e]), ["error:deepgram WS disconnected: gone"]);
    assert!(on_disconnected("x", None).is_none());
}
