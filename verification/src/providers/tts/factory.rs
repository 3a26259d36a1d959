//! Choosing a synthesis provider.
use crate::providers::tts::builtin::BuiltinTtsProvider;
use crate::providers::tts::cartesia::CartesiaTtsProvider;
use crate::providers::tts::cartesia_ws::CartesiaWsTtsProvider;
use crate::providers::tts::deepgram::DeepgramAuraTtsProvider;
use crate::providers::tts::deepgram_ws::DeepgramWsTtsProvider;
use crate::providers::tts::elevenlabs::ElevenLabsTtsProvider;
use crate::providers::tts::elevenlabs_ws::ElevenLabsWsTtsProvider;
use crate::providers::tts::groq::GroqTtsProvider;
use crate::providers::tts::openai::OpenAiTtsProvider;
use crate::text::same;
use vstd::prelude::*;

verus! {

/// Configuration of a synthesis provider.
///
/// It holds a key, so it has no debug form of its own; see [`TtsProviderConfig::redacted`].
#[derive(Clone)]
pub struct TtsProviderConfig {
    /// Tag of the provider.
    pub provider: String,
    /// Base URL of the builtin server.
    pub base_url: String,
    pub api_key: String,
    pub model: String,
    /// Sample rate that the pipeline expects.
    pub output_sample_rate: u32,
    pub language: String,
    /// Voice; for Deepgram it takes the place of the model.
    pub voice_id: String,
}

impl TtsProviderConfig {
    /// The configuration with its key blotted out, fit for logs.
    pub fn redacted(&self) -> (c: Self)
        ensures
            c.api_key@ == "[REDACTED]"@,
            c == (TtsProviderConfig { api_key: c.api_key, ..*self }),
    {
        TtsProviderConfig {
            provider: self.provider.clone(),
            base_url: self.base_url.clone(),
            api_key: "[REDACTED]".to_owned(),
            model: self.model.clone(),
            output_sample_rate: self.output_sample_rate,
            language: self.language.clone(),
            voice_id: self.voice_id.clone(),
        }
    }
}

/// A provider that is asked for each sentence.
#[derive(Debug)]
pub enum HttpTts {
    Cartesia(CartesiaTtsProvider),
    ElevenLabs(ElevenLabsTtsProvider),
    OpenAi(OpenAiTtsProvider),
    Deepgram(DeepgramAuraTtsProvider),
    Groq(GroqTtsProvider),
    Builtin(BuiltinTtsProvider),
}

/// A provider that is fed over one connection.
#[derive(Debug)]
pub enum StreamingTts {
    Cartesia(CartesiaWsTtsProvider),
    Deepgram(DeepgramWsTtsProvider),
    ElevenLabs(ElevenLabsWsTtsProvider),
}

/// How speech is synthesised.
#[derive(Debug)]
pub enum TtsMode {
    Http(HttpTts),
    Streaming(StreamingTts),
}

/// What Deepgram takes as its model: the voice where one is set, else the model.
pub open spec fn deepgram_model(c: TtsProviderConfig) -> Seq<char> {
    if c.voice_id@.len() > 0 {
        c.voice_id@
    } else {
        c.model@
    }
}

/// `m` is the provider that `c` asks for. Any unknown tag asks for the builtin server.
pub open spec fn is_tts_for(c: TtsProviderConfig, m: TtsMode) -> bool {
    let tag = c.provider@;
    if tag == "cartesia-ws"@ {
        &&& m matches TtsMode::Streaming(StreamingTts::Cartesia(p))
        &&& p.model_id@ == crate::providers::request::nonempty_or(c.model@, "sonic-2"@)
        &&& p.language@ == crate::language_config::cartesia_code_of(c.language@)
        &&& p.output_sample_rate == c.output_sample_rate
        &&& p.voice_id@ == Seq::<char>::empty()
    } else if tag == "deepgram-ws"@ {
        &&& m matches TtsMode::Streaming(StreamingTts::Deepgram(p))
        &&& p.voice@ == crate::providers::request::nonempty_or(
            deepgram_model(c),
            "aura-2-helena-en"@,
        )
        &&& p.output_sample_rate == c.output_sample_rate
        &&& !p.is_clearing
    } else if tag == "elevenlabs-ws"@ {
        &&& m matches TtsMode::Streaming(StreamingTts::ElevenLabs(p))
        &&& p.wf()
        &&& p.model_id@ == crate::providers::request::nonempty_or(c.model@, "eleven_turbo_v2_5"@)
        &&& p.language@ == c.language@
        &&& p.output_sample_rate == c.output_sample_rate
        &&& p.active_voice_id@ == Seq::<char>::empty()
        &&& p.contexts() == Seq::<Seq<char>>::empty()
    } else if tag == "cartesia"@ {
        &&& m matches TtsMode::Http(HttpTts::Cartesia(p))
        &&& p.model_id@ == crate::providers::request::nonempty_or(c.model@, "sonic-english"@)
        &&& p.language@ == crate::language_config::cartesia_code_of(c.language@)
        &&& p.output_sample_rate == c.output_sample_rate
    } else if tag == "elevenlabs"@ {
        &&& m matches TtsMode::Http(HttpTts::ElevenLabs(p))
        &&& p.model_id@ == crate::providers::request::nonempty_or(c.model@, "eleven_turbo_v2_5"@)
        &&& p.language@ == crate::providers::tts::elevenlabs::model_language(
            p.model_id@,
            c.language@,
        )
        &&& p.output_sample_rate == c.output_sample_rate
    } else if tag == "openai"@ {
        &&& m matches TtsMode::Http(HttpTts::OpenAi(p))
        &&& p.model@ == crate::providers::request::nonempty_or(c.model@, "gpt-4o-mini-tts"@)
        &&& p.output_sample_rate == c.output_sample_rate
    } else if tag == "deepgram"@ {
        &&& m matches TtsMode::Http(HttpTts::Deepgram(p))
        &&& p.model@ == crate::providers::request::nonempty_or(
            deepgram_model(c),
            "aura-asteria-en"@,
        )
        &&& p.output_sample_rate == c.output_sample_rate
    } else if tag == "groq"@ {
        &&& m matches TtsMode::Http(HttpTts::Groq(p))
        &&& p.model@ == crate::providers::request::nonempty_or(
            c.model@,
            "canopylabs/orpheus-v1-english"@,
        )
        &&& p.output_sample_rate == c.output_sample_rate
    } else {
        &&& m matches TtsMode::Http(HttpTts::Builtin(p))
        &&& p.base_url@ == crate::text::trim_end_char_of(c.base_url@, '/')
        &&& p.output_sample_rate == c.output_sample_rate
        &&& p.native_rate == crate::providers::tts::builtin::DEFAULT_NATIVE_RATE
    }
}

/// Builds the provider that `cfg` asks for.
pub fn build_tts_provider(cfg: &TtsProviderConfig) -> (m: TtsMode)
    ensures
        is_tts_for(*cfg, m),
{
    let tag = cfg.provider.as_str();
    let model = cfg.model.as_str();
    let rate: u32 = cfg.output_sample_rate;
    let language = cfg.language.as_str();
    let aura = if cfg.voice_id.as_str().is_empty() {
        model
    } else {
        cfg.voice_id.as_str()
    };
    if same(tag, "cartesia-ws") {
        TtsMode::Streaming(StreamingTts::Cartesia(CartesiaWsTtsProvider::new(model, rate, language)))
    } else if same(tag, "deepgram-ws") {
        TtsMode::Streaming(StreamingTts::Deepgram(DeepgramWsTtsProvider::new(aura, rate)))
    } else if same(tag, "elevenlabs-ws") {
        TtsMode::Streaming(
            StreamingTts::ElevenLabs(ElevenLabsWsTtsProvider::new(model, rate, language)),
        )
    } else if same(tag, "cartesia") {
        TtsMode::Http(HttpTts::Cartesia(CartesiaTtsProvider::new(model, rate, language)))
    } else if same(tag, "elevenlabs") {
        TtsMode::Http(HttpTts::ElevenLabs(ElevenLabsTtsProvider::new(model, rate, language)))
    } else if same(tag, "openai") {
        TtsMode::Http(HttpTts::OpenAi(OpenAiTtsProvider::new(model, rate)))
    } else if same(tag, "deepgram") {
        TtsMode::Http(HttpTts::Deepgram(DeepgramAuraTtsProvider::new(aura, rate)))
    } else if same(tag, "groq") {
        TtsMode::Http(HttpTts::Groq(GroqTtsProvider::new(model, rate)))
    } else {
        TtsMode::Http(HttpTts::Builtin(BuiltinTtsProvider::new(cfg.base_url.as_str(), rate)))
    }
}

/// The name under which a provider goes.
pub open spec fn tts_name(m: TtsMode) -> Seq<char> {
    match m {
        TtsMode::Streaming(StreamingTts::Cartesia(_)) => "cartesia-ws"@,
        TtsMode::Streaming(StreamingTts::Deepgram(_)) => "deepgram-ws"@,
        TtsMode::Streaming(StreamingTts::ElevenLabs(_)) => "elevenlabs-ws"@,
        TtsMode::Http(HttpTts::Cartesia(_)) => "cartesia"@,
        TtsMode::Http(HttpTts::ElevenLabs(_)) => "elevenlabs"@,
        TtsMode::Http(HttpTts::OpenAi(_)) => "openai"@,
        TtsMode::Http(HttpTts::Deepgram(_)) => "deepgram"@,
        TtsMode::Http(HttpTts::Groq(_)) => "groq"@,
        TtsMode::Http(HttpTts::Builtin(_)) => "builtin"@,
    }
}

/// The provider that is built goes under the name that was asked for, or it is the builtin server.
pub proof fn law_provider_goes_by_its_tag(c: TtsProviderConfig, m: TtsMode, x: TtsMode)
    requires
        is_tts_for(c, m),
    ensures
        tts_name(m) == c.provider@ || tts_name(m) == "builtin"@,
        c.provider@ == tts_name(x) ==> tts_name(m) == tts_name(x),
        m is Streaming <==> c.provider@ == "cartesia-ws"@ || c.provider@ == "deepgram-ws"@
            || c.provider@ == "elevenlabs-ws"@,
{
    reveal_strlit("cartesia-ws");
    reveal_strlit("deepgram-ws");
    reveal_strlit("elevenlabs-ws");
    reveal_strlit("cartesia");
    reveal_strlit("elevenlabs");
    reveal_strlit("openai");
    reveal_strlit("deepgram");
    reveal_strlit("groq");
    reveal_strlit("builtin");
    assert("cartesia-ws"@.len() == 11 && "cartesia-ws"@[0] == 'c');
    assert("deepgram-ws"@.len() == 11 && "deepgram-ws"@[0] == 'd');
    assert("elevenlabs-ws"@.len() == 13 && "elevenlabs-ws"@[0] == 'e');
    assert("cartesia"@.len() == 8 && "cartesia"@[0] == 'c');
    assert("elevenlabs"@.len() == 10 && "elevenlabs"@[0] == 'e');
    assert("openai"@.len() == 6 && "openai"@[0] == 'o');
    assert("deepgram"@.len() == 8 && "deepgram"@[0] == 'd');
    assert("groq"@.len() == 4 && "groq"@[0] == 'g');
    assert("builtin"@.len() == 7 && "builtin"@[0] == 'b');
}

/// Whatever provider is built, it produces the rate that the pipeline expects.
pub proof fn law_pipeline_rate_is_kept(c: TtsProviderConfig, m: TtsMode)
    requires
        is_tts_for(c, m),
    ensures
        match m {
            TtsMode::Streaming(StreamingTts::Cartesia(p)) => p.output_sample_rate,
            TtsMode::Streaming(StreamingTts::Deepgram(p)) => p.output_sample_rate,
            TtsMode::Streaming(StreamingTts::ElevenLabs(p)) => p.output_sample_rate,
            TtsMode::Http(HttpTts::Cartesia(p)) => p.output_sample_rate,
            TtsMode::Http(HttpTts::ElevenLabs(p)) => p.output_sample_rate,
            TtsMode::Http(HttpTts::OpenAi(p)) => p.output_sample_rate,
            TtsMode::Http(HttpTts::Deepgram(p)) => p.output_sample_rate,
            TtsMode::Http(HttpTts::Groq(p)) => p.output_sample_rate,
            TtsMode::Http(HttpTts::Builtin(p)) => p.output_sample_rate,
        } == c.output_sample_rate,
{
}

/// A model that is named is used. For Deepgram the voice, where one is set, takes its place.
pub proof fn law_named_model_is_used(c: TtsProviderConfig, m: TtsMode)
    requires
        is_tts_for(c, m),
        c.model@.len() > 0,
    ensures
        match m {
            TtsMode::Streaming(StreamingTts::Cartesia(p)) => p.model_id@ == c.model@,
            TtsMode::Streaming(StreamingTts::Deepgram(p)) => p.voice@ == if c.voice_id@.len() > 0 {
                c.voice_id@
            } else {
                c.model@
            },
            TtsMode::Streaming(StreamingTts::ElevenLabs(p)) => p.model_id@ == c.model@,
            TtsMode::Http(HttpTts::Cartesia(p)) => p.model_id@ == c.model@,
            TtsMode::Http(HttpTts::ElevenLabs(p)) => p.model_id@ == c.model@,
            TtsMode::Http(HttpTts::OpenAi(p)) => p.model@ == c.model@,
            TtsMode::Http(HttpTts::Deepgram(p)) => p.model@ == if c.voice_id@.len() > 0 {
                c.voice_id@
            } else {
                c.model@
            },
            TtsMode::Http(HttpTts::Groq(p)) => p.model@ == c.model@,
            TtsMode::Http(HttpTts::Builtin(p)) => true,
        },
{
}

/// Where neither a model nor a voice is named, each provider uses its own default.
pub proof fn law_defaults_of_providers(c: TtsProviderConfig, m: TtsMode)
    requires
        is_tts_for(c, m),
        c.model@.len() == 0,
        c.voice_id@.len() == 0,
    ensures
        match m {
            TtsMode::Streaming(StreamingTts::Cartesia(p)) => p.model_id@ == "sonic-2"@,
            TtsMode::Streaming(StreamingTts::Deepgram(p)) => p.voice@ == "aura-2-helena-en"@,
            TtsMode::Streaming(StreamingTts::ElevenLabs(p)) => p.model_id@ == "eleven_turbo_v2_5"@,
            TtsMode::Http(HttpTts::Cartesia(p)) => p.model_id@ == "sonic-english"@,
            TtsMode::Http(HttpTts::ElevenLabs(p)) => p.model_id@ == "eleven_turbo_v2_5"@,
            TtsMode::Http(HttpTts::OpenAi(p)) => p.model@ == "gpt-4o-mini-tts"@,
            TtsMode::Http(HttpTts::Deepgram(p)) => p.model@ == "aura-asteria-en"@,
            TtsMode::Http(HttpTts::Groq(p)) => p.model@ == "canopylabs/orpheus-v1-english"@,
            TtsMode::Http(HttpTts::Builtin(p)) => p.native_rate == 24_000,
        },
{
}

} // verus!
