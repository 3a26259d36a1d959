//! Choosing a recognition provider.
use crate::language_config::normalize_to_base_code;
use crate::providers::stt::builtin::BuiltinSttProvider;
use crate::providers::stt::cartesia::CartesiaSttProvider;
use crate::providers::stt::deepgram::DeepgramSttProvider;
use crate::providers::stt::elevenlabs::ElevenLabsSttProvider;
use crate::providers::stt::groq::GroqWhisperSttProvider;
use crate::providers::stt::openai_realtime::OpenAIRealtimeSttProvider;
use crate::providers::stt::openai_whisper::OpenAiWhisperSttProvider;
use crate::text::same;
use vstd::prelude::*;

verus! {

/// Configuration of a recognition provider.
///
/// It holds a key, so it has no debug form of its own; see [`SttProviderConfig::redacted`].
#[derive(Clone)]
pub struct SttProviderConfig {
    /// Tag of the provider.
    pub provider: String,
    /// Base URL of the builtin server.
    pub base_url: String,
    pub api_key: String,
    pub language: String,
    pub model: String,
}

impl SttProviderConfig {
    /// The configuration with its key blotted out, fit for logs.
    pub fn redacted(&self) -> (c: Self)
        ensures
            c.api_key@ == "[REDACTED]"@,
            c == (SttProviderConfig { api_key: c.api_key, ..*self }),
    {
        SttProviderConfig {
            provider: self.provider.clone(),
            base_url: self.base_url.clone(),
            api_key: "[REDACTED]".to_owned(),
            language: self.language.clone(),
            model: self.model.clone(),
        }
    }
}

/// A recognition provider.
#[derive(Debug)]
pub enum SttBackend {
    Deepgram(DeepgramSttProvider),
    Cartesia(CartesiaSttProvider),
    OpenAiRealtime(OpenAIRealtimeSttProvider),
    Groq(GroqWhisperSttProvider),
    OpenAiWhisper(OpenAiWhisperSttProvider),
    ElevenLabs(ElevenLabsSttProvider),
    Builtin(BuiltinSttProvider),
}

/// `b` is the provider that `c` asks for. Any unknown tag asks for the builtin server.
///
/// Deepgram, Cartesia and the builtin server are told the language with its region, the others
/// without.
pub open spec fn is_stt_for(c: SttProviderConfig, b: SttBackend) -> bool {
    let tag = c.provider@;
    let base = crate::language_config::base_code(c.language@);
    if tag == "deepgram"@ {
        &&& b matches SttBackend::Deepgram(p)
        &&& p.model@ == crate::providers::request::nonempty_or(c.model@, "nova-3-general"@)
        &&& p.language@ == crate::providers::request::nonempty_or(c.language@, "en"@)
        &&& !p.sent_first_text
        &&& p.segments@.len() == 0
    } else if tag == "cartesia"@ {
        &&& b matches SttBackend::Cartesia(p)
        &&& p.model@ == crate::providers::request::nonempty_or(c.model@, "ink-whisper"@)
        &&& p.language@ == crate::providers::request::nonempty_or(c.language@, "en"@)
        &&& !p.sent_first_text
    } else if tag == "openai-realtime"@ {
        &&& b matches SttBackend::OpenAiRealtime(p)
        &&& p.model@ == crate::providers::request::nonempty_or(c.model@, "gpt-4o-transcribe"@)
        &&& p.language@ == crate::providers::request::nonempty_or(base, "en"@)
        &&& !p.sent_first_text
    } else if tag == "groq"@ {
        &&& b matches SttBackend::Groq(p)
        &&& p.model@ == crate::providers::request::nonempty_or(c.model@, "whisper-large-v3-turbo"@)
        &&& p.language@ == base
        &&& !p.connected
        &&& p.pcm@ == Seq::<u8>::empty()
    } else if tag == "openai-whisper"@ {
        &&& b matches SttBackend::OpenAiWhisper(p)
        &&& p.model@ == crate::providers::request::nonempty_or(c.model@, "gpt-4o-transcribe"@)
        &&& p.language@ == base
        &&& !p.connected
        &&& p.pcm@ == Seq::<u8>::empty()
    } else if tag == "elevenlabs"@ {
        &&& b matches SttBackend::ElevenLabs(p)
        &&& p.model@ == crate::providers::request::nonempty_or(c.model@, "scribe_v2"@)
        &&& p.language@ == crate::providers::stt::elevenlabs::elevenlabs_code(base)
        &&& !p.connected
        &&& p.pcm@ == Seq::<u8>::empty()
    } else {
        &&& b matches SttBackend::Builtin(p)
        &&& p.ws_url@ == crate::providers::stt::builtin::ws_base(c.base_url@)
            + "/v1/listen?language="@ + c.language@
        &&& !p.sent_first_text
    }
}

/// Builds the provider that `cfg` asks for.
pub fn build_stt_provider(cfg: &SttProviderConfig) -> (b: SttBackend)
    ensures
        is_stt_for(*cfg, b),
{
    let tag = cfg.provider.as_str();
    let model = cfg.model.as_str();
    let language = cfg.language.as_str();
    let base = normalize_to_base_code(language);
    if same(tag, "deepgram") {
        SttBackend::Deepgram(DeepgramSttProvider::new(model, language))
    } else if same(tag, "cartesia") {
        SttBackend::Cartesia(CartesiaSttProvider::new(model, language))
    } else if same(tag, "openai-realtime") {
        SttBackend::OpenAiRealtime(OpenAIRealtimeSttProvider::new(model, base))
    } else if same(tag, "groq") {
        SttBackend::Groq(GroqWhisperSttProvider::new(model, base))
    } else if same(tag, "openai-whisper") {
        SttBackend::OpenAiWhisper(OpenAiWhisperSttProvider::new(model, base))
    } else if same(tag, "elevenlabs") {
        SttBackend::ElevenLabs(ElevenLabsSttProvider::new(model, base))
    } else {
        SttBackend::Builtin(BuiltinSttProvider::new(cfg.base_url.as_str(), language))
    }
}

/// The time, in milliseconds, within which nearly every transcript comes after it was asked for.
pub open spec fn p99_latency_ms(provider: Seq<char>) -> u32 {
    if provider == "deepgram"@ || provider == "cartesia"@ || provider == "openai-realtime"@ {
        600
    } else if provider == "groq"@ {
        1000
    } else if provider == "openai-whisper"@ {
        1200
    } else if provider == "elevenlabs"@ {
        1500
    } else {
        1000
    }
}

/// The time, in milliseconds, within which nearly every transcript comes after it was asked for.
///
/// Streaming providers are quick; the others upload the whole utterance first.
pub fn default_stt_p99_latency_ms(provider: &str) -> (ms: u32)
    ensures
        ms == p99_latency_ms(provider@),
{
    if same(provider, "deepgram") || same(provider, "cartesia") || same(
        provider,
        "openai-realtime",
    ) {
        600
    } else if same(provider, "groq") {
        1000
    } else if same(provider, "openai-whisper") {
        1200
    } else if same(provider, "elevenlabs") {
        1500
    } else {
        1000
    }
}

/// The tag by which a provider is asked for.
pub open spec fn stt_tag(b: SttBackend) -> Seq<char> {
    match b {
        SttBackend::Deepgram(_) => "deepgram"@,
        SttBackend::Cartesia(_) => "cartesia"@,
        SttBackend::OpenAiRealtime(_) => "openai-realtime"@,
        SttBackend::Groq(_) => "groq"@,
        SttBackend::OpenAiWhisper(_) => "openai-whisper"@,
        SttBackend::ElevenLabs(_) => "elevenlabs"@,
        SttBackend::Builtin(_) => "builtin"@,
    }
}

/// The provider that is built is the one that was asked for, or it is the builtin server.
pub proof fn law_provider_goes_by_its_tag(c: SttProviderConfig, b: SttBackend, x: SttBackend)
    requires
        is_stt_for(c, b),
    ensures
        stt_tag(b) == c.provider@ || stt_tag(b) == "builtin"@,
        c.provider@ == stt_tag(x) ==> stt_tag(b) == stt_tag(x),
{
    reveal_strlit("deepgram");
    reveal_strlit("cartesia");
    reveal_strlit("openai-realtime");
    reveal_strlit("groq");
    reveal_strlit("openai-whisper");
    reveal_strlit("elevenlabs");
    reveal_strlit("builtin");
    assert("deepgram"@.len() == 8 && "deepgram"@[0] == 'd');
    assert("cartesia"@.len() == 8 && "cartesia"@[0] == 'c');
    assert("openai-realtime"@.len() == 15 && "openai-realtime"@[0] == 'o');
    assert("groq"@.len() == 4 && "groq"@[0] == 'g');
    assert("openai-whisper"@.len() == 14 && "openai-whisper"@[0] == 'o');
    assert("elevenlabs"@.len() == 10 && "elevenlabs"@[0] == 'e');
    assert("builtin"@.len() == 7 && "builtin"@[0] == 'b');
}

/// A model that is named is used, and every provider starts without anything heard.
pub proof fn law_named_model_is_used(c: SttProviderConfig, b: SttBackend)
    requires
        is_stt_for(c, b),
        c.model@.len() > 0,
    ensures
        match b {
            SttBackend::Deepgram(p) => p.model@ == c.model@ && p.segments@.len() == 0
                && !p.sent_first_text,
            SttBackend::Cartesia(p) => p.model@ == c.model@ && !p.sent_first_text,
            SttBackend::OpenAiRealtime(p) => p.model@ == c.model@ && !p.sent_first_text,
            SttBackend::Groq(p) => p.model@ == c.model@ && p.pcm@.len() == 0,
            SttBackend::OpenAiWhisper(p) => p.model@ == c.model@ && p.pcm@.len() == 0,
            SttBackend::ElevenLabs(p) => p.model@ == c.model@ && p.pcm@.len() == 0,
            SttBackend::Builtin(p) => !p.sent_first_text,
        },
{
}

/// A language that is named goes to Deepgram, Cartesia and the builtin server with its region, and to
/// the others without.
pub proof fn law_language_keeps_its_region(c: SttProviderConfig, b: SttBackend)
    requires
        is_stt_for(c, b),
        c.language@.len() > 0,
    ensures
        match b {
            SttBackend::Deepgram(p) => p.language@ == c.language@,
            SttBackend::Cartesia(p) => p.language@ == c.language@,
            SttBackend::Builtin(p) => exists|n: int|
                0 <= n <= p.ws_url@.len() && #[trigger] p.ws_url@.skip(n) == c.language@,
            SttBackend::Groq(p) => p.language@ == crate::language_config::base_code(c.language@),
            SttBackend::OpenAiWhisper(p) => p.language@ == crate::language_config::base_code(
                c.language@,
            ),
            _ => true,
        },
{
    if let SttBackend::Builtin(p) = b {
        let n = p.ws_url@.len() - c.language@.len();
        assert(p.ws_url@.skip(n) =~= c.language@);
    }
}

/// A streaming provider is never slower than one that uploads whole utterances.
pub proof fn law_streaming_is_quicker(streaming: Seq<char>, other: Seq<char>)
    requires
        streaming == "deepgram"@ || streaming == "cartesia"@ || streaming == "openai-realtime"@,
        other != "deepgram"@ && other != "cartesia"@ && other != "openai-realtime"@,
    ensures
        p99_latency_ms(streaming) == 600,
        p99_latency_ms(other) >= p99_latency_ms(streaming) + 400,
        p99_latency_ms(other) <= p99_latency_ms("elevenlabs"@),
        p99_latency_ms(other) == 1200 <==> other == "openai-whisper"@,
        p99_latency_ms(other) == 1500 <==> other == "elevenlabs"@,
        other != "openai-whisper"@ && other != "elevenlabs"@ ==> p99_latency_ms(other) == 1000,
{
    reveal_strlit("deepgram");
    reveal_strlit("cartesia");
    reveal_strlit("openai-realtime");
    reveal_strlit("groq");
    reveal_strlit("openai-whisper");
    reveal_strlit("elevenlabs");
    assert("deepgram"@.len() == 8 && "deepgram"@[0] == 'd');
    assert("cartesia"@.len() == 8 && "cartesia"@[0] == 'c');
    assert("openai-realtime"@.len() == 15 && "openai-realtime"@[0] == 'o');
    assert("groq"@.len() == 4 && "groq"@[0] == 'g');
    assert("openai-whisper"@.len() == 14 && "openai-whisper"@[0] == 'o');
    assert("elevenlabs"@.len() == 10 && "elevenlabs"@[0] == 'e');
}

/// Where no model is named, each provider uses its own default, and where no language is, English is
/// understood by those that need one.
pub proof fn law_defaults_of_providers(c: SttProviderConfig, b: SttBackend)
    requires
        is_stt_for(c, b),
        c.model@.len() == 0,
        c.language@.len() == 0,
    ensures
        match b {
            SttBackend::Deepgram(p) => p.model@ == "nova-3-general"@ && p.language@ == "en"@,
            SttBackend::Cartesia(p) => p.model@ == "ink-whisper"@ && p.language@ == "en"@,
            SttBackend::OpenAiRealtime(p) => p.model@ == "gpt-4o-transcribe"@ && p.language@
                == "en"@,
            SttBackend::Groq(p) => p.model@ == "whisper-large-v3-turbo"@ && p.language@.len() == 0,
            SttBackend::OpenAiWhisper(p) => p.model@ == "gpt-4o-transcribe"@ && p.language@.len()
                == 0,
            SttBackend::ElevenLabs(p) => p.model@ == "scribe_v2"@,
            SttBackend::Builtin(_) => true,
        },
{
    crate::text::law_before_the_first(c.language@, '-');
}

} // verus!
