//! Speech synthesis providers.
use voice_engine::clock::Millis;
use voice_engine::providers::tts::builtin::BuiltinTtsProvider;
use voice_engine::providers::tts::cartesia::CartesiaTtsProvider;
use voice_engine::providers::tts::cartesia_ws::{self, CartesiaWsTtsProvider};
use voice_engine::providers::tts::deepgram::DeepgramAuraTtsProvider;
use voice_engine::providers::tts::deepgram_ws::DeepgramWsTtsProvider;
use voice_engine::providers::tts::elevenlabs::ElevenLabsTtsProvider;
use voice_engine::providers::tts::elevenlabs_ws::{self, ConnectError, ElevenLabsWsTtsProvider};
use voice_engine::providers::tts::factory::{
    build_tts_provider, HttpTts, StreamingTts, TtsMode, TtsProviderConfig,
};
use voice_engine::providers::tts::groq::GroqTtsProvider;
use voice_engine::providers::tts::openai::OpenAiTtsProvider;
use voice_engine::providers::ws::WsKeepalive;
use voice_engine::wav::write_wav;

fn parse(s: &str) -> serde_json::Value {
    serde_json::from_str(s).unwrap()
}

const VOICE: &str = "694f9389-aac1-45b6-b726-9d9369183238";

fn config(provider: &str) -> TtsProviderConfig {
    TtsProviderConfig {
        provider: provider.to_string(),
        base_url: "http://tts:8200//".to_string(),
        api_key: "k".to_string(),
        model: "m".to_string(),
        output_sample_rate: 16000,
        language: "es-MX".to_string(),
        voice_id: "v".to_string(),
    }
}

#[test]
fn factory_builds_what_the_tag_says() {
    assert!(matches!(
        build_tts_provider(&config("cartesia-ws")),
        TtsMode::Streaming(StreamingTts::Cartesia(p)) if p.language == "es" && p.model_id == "m"
    ));
    assert!(matches!(
        build_tts_provider(&config("deepgram-ws")),
        TtsMode::Streaming(StreamingTts::Deepgram(p)) if p.voice == "v"
    ));
    assert!(matches!(
        build_tts_provider(&config("elevenlabs-ws")),
        TtsMode::Streaming(StreamingTts::ElevenLabs(p)) if p.language == "es-MX"
    ));
    assert!(matches!(
        build_tts_provider(&config("cartesia")),
        TtsMode::Http(HttpTts::Cartesia(_))
    ));
    assert!(matches!(
        build_tts_provider(&config("elevenlabs")),
        TtsMode::Http(HttpTts::ElevenLabs(p)) if p.language.is_empty()
    ));
    assert!(matches!(build_tts_provider(&config("openai")), TtsMode::Http(HttpTts::OpenAi(_))));
    assert!(matches!(
        build_tts_provider(&config("deepgram")),
        TtsMode::Http(HttpTts::Deepgram(p)) if p.model == "v"
    ));
    assert!(matches!(build_tts_provider(&config("groq")), TtsMode::Http(HttpTts::Groq(_))));
    assert!(matches!(
        build_tts_provider(&config("?")),
        TtsMode::Http(HttpTts::Builtin(p)) if p.base_url == "http://tts:8200"
    ));
    let mut c = config("deepgram");
    c.voice_id = String::new();
    assert!(matches!(
        build_tts_provider(&c),
        TtsMode::Http(HttpTts::Deepgram(p)) if p.model == "m"
    ));
    assert_eq!(c.redacted().api_key, "[REDACTED]");
}

#[test]
fn builtin_request_and_response() {
    let p = BuiltinTtsProvider::new("http://h/", 24000);
    let r = p.request("say \"hi\"", "");
    assert_eq!(r.url, "http://h/v1/tts");
    assert_eq!(parse(&r.body)["text"], "say \"hi\"");
    assert!(parse(&r.body).get("reference_id").is_none());
    assert_eq!(parse(&p.request("x", "bob").body)["reference_id"], "bob");
    let a = p.on_response(&write_wav(&[1, 2], 8000, 1)).unwrap();
    assert_eq!((a.pcm, a.sample_rate), (vec![1, 0, 2, 0], 8000));
    let q = BuiltinTtsProvider::with_native_rate("http://h", 24000, 44100);
    assert_eq!(q.on_response(&[1, 2]).unwrap().sample_rate, 44100);
    assert!(q.on_response(&[]).is_none());
}

#[test]
fn openai_and_groq_requests() {
    let p = OpenAiTtsProvider::new("", 24000);
    let r = p.request("x", "", "key");
    assert_eq!(r.url, "https://api.openai.com/v1/audio/speech");
    assert_eq!(r.headers[0].value, "Bearer key");
    let b = parse(&r.body);
    assert_eq!(b["model"], "gpt-4o-mini-tts");
    assert_eq!(b["input"], "x");
    assert_eq!(b["voice"], "alloy");
    assert_eq!(b["response_format"], "pcm");
    assert_eq!(p.on_response(vec![1, 2]).unwrap().sample_rate, 24000);
    let g = GroqTtsProvider::new("", 24000);
    let b = parse(&g.request("x", "troy", "key").body);
    assert_eq!(b["voice"], "troy");
    assert_eq!(b["response_format"], "wav");
    assert_eq!(g.on_response(&write_wav(&[7], 48000, 1)).unwrap().sample_rate, 48000);
    assert!(g.on_response(&[1, 2, 3]).is_none());
}

#[test]
fn deepgram_asks_for_rates_it_knows() {
    let p = DeepgramAuraTtsProvider::new("", 22050);
    assert_eq!(p.request_rate(), 24000);
    let q = DeepgramAuraTtsProvider::new("aura-x", 8000);
    let r = q.request("x", "key");
    assert_eq!(
        r.url,
        "https://api.deepgram.com/v1/speak?model=aura-x&encoding=linear16&sample_rate=8000\
         &container=none"
    );
    assert_eq!(r.headers[0].value, "Token key");
    assert_eq!(r.body, r#"{"text":"x"}"#);
    assert_eq!(q.on_response(vec![0, 0]).unwrap().sample_rate, 8000);
}

#[test]
fn elevenlabs_names_the_language_for_multilingual_models() {
    let p = ElevenLabsTtsProvider::new("eleven_flash_v2_5", 22050, "es-ES");
    assert_eq!(p.native_rate(), 22050);
    assert_eq!(p.pcm_output_format(), "pcm_22050");
    let r = p.request("x", "vid", "key").unwrap();
    assert_eq!(
        r.url,
        "https://api.elevenlabs.io/v1/text-to-speech/vid/stream?output_format=pcm_22050\
         &language_code=es"
    );
    let b = parse(&r.body);
    assert_eq!(b["model_id"], "eleven_flash_v2_5");
    assert_eq!(b["voice_settings"]["stability"], 0.5);
    assert_eq!(b["voice_settings"]["similarity_boost"], 0.75);
    assert!(r.body.contains("\"stability\":0.5"));
    assert!(r.body.contains("\"similarity_boost\":0.75"));
    assert!(p.request("x", "", "key").is_none());
    let q = ElevenLabsTtsProvider::new("eleven_monolingual_v1", 48000, "es");
    assert_eq!(q.native_rate(), 24000);
    assert!(!q.request("x", "v", "k").unwrap().url.contains("language_code"));
}

#[test]
fn cartesia_request_and_response() {
    let p = CartesiaTtsProvider::new("", 16000, "pt-BR");
    assert!(p.request("x", "", "key").is_none());
    let r = p.request("x", VOICE, "key").unwrap();
    let b = parse(&r.body);
    assert_eq!(b["model_id"], "sonic-english");
    assert_eq!(b["language"], "pt");
    assert_eq!(b["voice"]["mode"], "id");
    assert_eq!(b["voice"]["id"], VOICE);
    assert_eq!(b["output_format"]["container"], "raw");
    assert_eq!(b["output_format"]["encoding"], "pcm_s16le");
    assert_eq!(b["output_format"]["sample_rate"], 16000);
    assert_eq!(r.headers[1].value, "2026-03-01");
    assert_eq!(p.on_response(vec![1, 2]).unwrap().sample_rate, 16000);
    let a = p.on_response(write_wav(&[5, 6], 44100, 1)).unwrap();
    assert_eq!((a.pcm, a.sample_rate), (vec![5, 0, 6, 0], 44100));
    let a = p.on_response(write_wav(&[], 44100, 1)).unwrap();
    assert_eq!((a.pcm, a.sample_rate), (vec![], 44100));
    let mut other = write_wav(&[], 44100, 1);
    other[8] = 0;
    assert_eq!(p.on_response(other.clone()).unwrap().pcm, other);
    other.push(0);
    assert!(p.on_response(other).is_none());
}

#[test]
fn cartesia_ws_needs_a_uuid_voice() {
    let mut p = CartesiaWsTtsProvider::new("", 24000, "en");
    assert!(p.send_text("x", "c").is_none());
    p.set_voice("not-a-uuid");
    assert!(p.send_text("x", "c").is_none());
    assert!(p.flush("c").is_none());
    p.set_voice(VOICE);
    let m = parse(&p.send_text("x", "c").unwrap());
    assert_eq!(m["transcript"], "x");
    assert_eq!(m["context_id"], "c");
    assert_eq!(m["continue"], true);
    assert_eq!(m["output_format"]["sample_rate"], 24000);
    let f = parse(&p.flush("c").unwrap());
    assert_eq!(f["transcript"], "");
    assert_eq!(f["continue"], false);
    let c = parse(&p.cancel("c"));
    assert_eq!(c["cancel"], true);
    assert_eq!(c["context_id"], "c");
    assert!(!p.request("key").url.contains("key"));
}

#[test]
fn cartesia_ws_messages_become_chunks() {
    let e = cartesia_ws::read_event(r#"{"type":"chunk","context_id":"c","data":"AQI="}"#).unwrap();
    let c = cartesia_ws::on_event(e).unwrap();
    assert_eq!((c.pcm, c.is_final, c.context_id.as_str()), (vec![1, 2], false, "c"));
    for t in ["done", "error"] {
        let m = format!(r#"{{"type":"{}","context_id":"c"}}"#, t);
        let c = cartesia_ws::on_event(cartesia_ws::read_event(&m).unwrap()).unwrap();
        assert!(c.is_final && c.pcm.is_empty());
    }
    let bad = r#"{"type":"chunk","context_id":"c","data":"***"}"#;
    assert!(cartesia_ws::on_event(cartesia_ws::read_event(bad).unwrap()).is_none());
    assert!(cartesia_ws::read_event("{").is_none());
}

#[test]
fn deepgram_ws_drops_cancelled_audio() {
    let mut p = DeepgramWsTtsProvider::new("", 24000);
    assert_eq!(parse(&p.send_text("hi", "a"))["type"], "Speak");
    assert_eq!(p.on_binary(vec![1, 2]).unwrap().context_id, "a");
    p.cancel("a");
    assert!(p.on_binary(vec![1, 2]).is_none());
    let end = p.on_text(r#"{"type":"Cleared"}"#).unwrap();
    assert!(end.is_final);
    assert_eq!(end.context_id, "a");
    assert!(p.on_binary(vec![1, 2]).is_some());
    assert!(matches!(
        p.connection().keepalive,
        WsKeepalive::WsPing { interval: Millis { ns: 5_000_000_000 } }
    ));
    assert_eq!(p.connection().max_total_reconnect_rounds, u32::MAX);
    p.cancel("a");
    p.request("key");
    assert!(p.on_binary(vec![1, 2]).is_none());
    p.connect();
    assert_eq!(p.on_binary(vec![1, 2]).unwrap().context_id, "");
    assert_eq!(p.on_text(r#"{"type":"Cleared"}"#).unwrap().context_id, "");
}

#[test]
fn deepgram_ws_handshake_names_the_voice() {
    let mut p = DeepgramWsTtsProvider::new("", 8000);
    p.set_voice("");
    assert_eq!(
        p.request("key").url,
        "wss://api.deepgram.com/v1/speak?model=aura-2-helena-en&encoding=linear16&sample_rate=8000"
    );
    p.set_voice("aura-2-thalia-en");
    assert!(p.request("key").url.contains("model=aura-2-thalia-en"));
    let end = p.on_text(r#"{"type":"Flushed"}"#).unwrap();
    assert!(end.is_final);
    assert!(p.on_text(r#"{"type":"Metadata"}"#).is_none());
    assert!(p.on_text("nonsense").is_none());
}

#[test]
fn elevenlabs_ws_opens_a_context_once() {
    let mut p = ElevenLabsWsTtsProvider::new("", 24000, "en");
    assert_eq!(p.request("key").unwrap_err(), ConnectError::NoVoice);
    p.set_voice("vid");
    assert_eq!(p.request("key").unwrap().headers[0].value, "key");
    let m = p.send_text("a", "c", false);
    assert_eq!(m.len(), 2);
    assert_eq!(parse(&m[0])["text"], " ");
    assert_eq!(parse(&m[1])["text"], "a");
    assert_eq!(p.send_text("b", "c", false).len(), 1);
    assert_eq!(p.send_text("b", "c", true).len(), 2);
    assert_eq!(parse(&p.flush("c"))["flush"], true);
    assert_eq!(p.send_text("b", "c", false).len(), 2);
    p.request("key").unwrap();
    assert_eq!(p.initialized_contexts, ["c"]);
    assert_eq!(parse(&p.cancel("c"))["close_context"], true);
    assert!(p.initialized_contexts.is_empty());
    p.send_text("b", "c", false);
    p.connect();
    assert!(p.initialized_contexts.is_empty());
}

#[test]
fn elevenlabs_ws_url_names_the_language() {
    let p = ElevenLabsWsTtsProvider::new("eleven_flash_v2_5", 24000, "fr-CA");
    assert_eq!(
        p.ws_url("v"),
        "wss://api.elevenlabs.io/v1/text-to-speech/v/multi-stream-input\
         ?model_id=eleven_flash_v2_5&output_format=pcm_24000&language_code=fr"
    );
}

#[test]
fn elevenlabs_ws_frees_finished_contexts() {
    let e = elevenlabs_ws::read_event(r#"{"audio":"AQI=","isFinal":true,"contextId":"c"}"#).unwrap();
    let s = elevenlabs_ws::on_event(e);
    assert_eq!(s.chunks.len(), 2);
    assert_eq!(s.chunks[0].pcm, vec![1, 2]);
    assert!(s.chunks[1].is_final);
    assert_eq!(parse(&s.reply.unwrap())["close_context"], true);
    assert!(!s.stop);
}

#[test]
fn elevenlabs_ws_stops_on_fatal_errors() {
    let fatal = elevenlabs_ws::read_event(r#"{"error":"invalid_api_key","contextId":"c"}"#).unwrap();
    let s = elevenlabs_ws::on_event(fatal);
    assert!(s.stop);
    assert!(s.chunks[0].is_final);
    let other = elevenlabs_ws::read_event(r#"{"error":"busy"}"#).unwrap();
    assert!(!elevenlabs_ws::on_event(other).stop);
    let bad = elevenlabs_ws::read_event(r#"{"audio":"*","isFinal":true}"#).unwrap();
    let s = elevenlabs_ws::on_event(bad);
    assert!(s.chunks.is_empty() && s.reply.is_none());
}
