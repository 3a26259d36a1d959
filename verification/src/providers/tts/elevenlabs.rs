//! ElevenLabs synthesis over HTTP.
use crate::json;
use crate::language_config::{elevenlabs_language_code, is_elevenlabs_multilingual};
use crate::providers::request::{has_voice, text_or, two_headers, HttpRequest};
use crate::providers::tts::stream::{take_raw, NativeAudio};
use crate::text::concat;
use vstd::prelude::*;

verus! {

/// ElevenLabs synthesis over HTTP.
#[derive(Debug)]
pub struct ElevenLabsTtsProvider {
    pub model_id: String,
    /// ElevenLabs code of the language, for models that take one; else empty.
    pub language: String,
    pub output_sample_rate: u32,
}

/// The language parameter of a model: only multilingual models take one.
pub open spec fn model_language(model: Seq<char>, language: Seq<char>) -> Seq<char> {
    if crate::language_config::is_multilingual(model) {
        crate::language_config::elevenlabs_code_of(language)
    } else {
        Seq::empty()
    }
}

/// The rate of the responses for a pipeline at `output`. Lower rates are not reliably honoured, so
/// 24 kHz is requested for them.
pub open spec fn response_rate(output: u32) -> u32 {
    if output == 16_000 || output == 22_050 || output == 44_100 {
        output
    } else {
        24_000
    }
}

/// The fixed voice settings.
pub open spec fn settings_members() -> Map<Seq<char>, Seq<char>> {
    json::no_members().insert("stability"@, "0.5"@).insert("similarity_boost"@, "0.75"@)
}

fn settings_object() -> (v: serde_json::Value)
    ensures
        json::text_of(v) == json::object_text(settings_members()),
{
    proof {
        reveal_strlit("0.5");
        reveal_strlit("0.75");
    }
    let mut o = json::object();
    json::set(&mut o, "stability", json::fraction("0.5"));
    json::set(&mut o, "similarity_boost", json::fraction("0.75"));
    json::nested(o)
}

impl ElevenLabsTtsProvider {
    /// The body of a request.
    pub open spec fn body_members(self, text: Seq<char>) -> Map<Seq<char>, Seq<char>> {
        json::no_members().insert("text"@, json::quoted(text)).insert(
            "model_id"@,
            json::quoted(self.model_id@),
        ).insert("voice_settings"@, json::object_text(settings_members()))
    }

    /// The URL of a request.
    pub open spec fn url(self, voice_id: Seq<char>) -> Seq<char> {
        let u = "https://api.elevenlabs.io/v1/text-to-speech/"@ + voice_id
            + "/stream?output_format=pcm_"@ + crate::text::decimal(
            response_rate(self.output_sample_rate) as nat,
        );
        if self.language@.len() > 0 {
            u + "&language_code="@ + self.language@
        } else {
            u
        }
    }

    /// A provider for a model and language.
    pub fn new(model: &str, output_sample_rate: u32, language: &str) -> (p: Self)
        ensures
            p.model_id@ == crate::providers::request::nonempty_or(model@, "eleven_turbo_v2_5"@),
            p.language@ == model_language(p.model_id@, language@),
            p.output_sample_rate == output_sample_rate,
    {
        let model_id = text_or(model, "eleven_turbo_v2_5");
        let language = if is_elevenlabs_multilingual(model_id.as_str()) {
            elevenlabs_language_code(language).to_owned()
        } else {
            String::new()
        };
        ElevenLabsTtsProvider { model_id, language, output_sample_rate }
    }

    /// The name of the provider.
    pub fn provider_name(&self) -> (n: &'static str)
        ensures
            n@ == "elevenlabs"@,
    {
        "elevenlabs"
    }

    /// The rate of the responses.
    pub fn native_rate(&self) -> (r: u32)
        ensures
            r == response_rate(self.output_sample_rate),
    {
        let rate: u32 = self.output_sample_rate;
        if rate == 16_000 || rate == 22_050 || rate == 44_100 {
            rate
        } else {
            24_000
        }
    }

    /// The format that is requested.
    pub fn pcm_output_format(&self) -> (f: String)
        ensures
            f@ == "pcm_"@ + crate::text::decimal(response_rate(self.output_sample_rate) as nat),
    {
        concat("pcm_", crate::text::decimal_of(self.native_rate() as u64).as_str())
    }

    /// The request that synthesises `text`; none where no voice is named.
    pub fn request(&self, text: &str, voice_id: &str, api_key: &str) -> (r: Option<HttpRequest>)
        ensures
            r is Some <==> crate::providers::request::names_voice(voice_id@),
            r matches Some(q) ==> {
                &&& q.url@ == self.url(voice_id@)
                &&& crate::providers::request::header_views(q.headers@) == seq![
                    ("xi-api-key"@, api_key@),
                    ("Content-Type"@, "application/json"@),
                ]
                &&& q.body@ == json::object_text(self.body_members(text@))
            },
    {
        if !has_voice(voice_id) {
            return None;
        }
        let mut url = concat("https://api.elevenlabs.io/v1/text-to-speech/", voice_id);
        url.append("/stream?output_format=");
        url.append(self.pcm_output_format().as_str());
        proof {
            reveal_strlit("/stream?output_format=");
            reveal_strlit("/stream?output_format=pcm_");
            reveal_strlit("pcm_");
            assert("/stream?output_format="@ + "pcm_"@ =~= "/stream?output_format=pcm_"@);
            let d = crate::text::decimal(response_rate(self.output_sample_rate) as nat);
            let head = "https://api.elevenlabs.io/v1/text-to-speech/"@ + voice_id@;
            assert(head + "/stream?output_format="@ + ("pcm_"@ + d) =~= head
                + ("/stream?output_format="@ + "pcm_"@) + d);
        }
        if !self.language.as_str().is_empty() {
            url.append("&language_code=");
            url.append(self.language.as_str());
        }
        let mut o = json::object();
        json::set(&mut o, "text", json::string(text));
        json::set(&mut o, "model_id", json::string(self.model_id.as_str()));
        json::set(&mut o, "voice_settings", settings_object());
        Some(
            HttpRequest {
                url,
                headers: two_headers("xi-api-key", api_key.to_owned(), "Content-Type", "application/json"),
                body: json::write_object(o),
            },
        )
    }

    /// The audio of a response: raw PCM.
    pub fn on_response(&self, raw: Vec<u8>) -> (a: Option<NativeAudio>)
        ensures
            crate::providers::tts::stream::audio_view(a)
                == crate::providers::tts::stream::raw_audio(
                raw@,
                response_rate(self.output_sample_rate),
            ),
    {
        let rate = self.native_rate();
        take_raw(raw, rate)
    }
}

/// The rate of a response is the pipeline's own where the service honours it, and 24 kHz for every
/// other one; what is asked for is that rate in decimal digits.
pub proof fn law_rates_that_are_honoured(p: ElevenLabsTtsProvider, voice_id: Seq<char>)
    ensures
        ({
            let rate = response_rate(p.output_sample_rate);
            let d = crate::text::decimal(rate as nat);
            let head = "https://api.elevenlabs.io/v1/text-to-speech/"@ + voice_id
                + "/stream?output_format=pcm_"@;
            &&& rate == 16_000 || rate == 22_050 || rate == 24_000 || rate == 44_100
            &&& rate != p.output_sample_rate ==> rate == 24_000 && p.output_sample_rate != 16_000
                && p.output_sample_rate != 22_050 && p.output_sample_rate != 44_100
            &&& crate::text::digits_value(d) == rate
            &&& (head + d).is_prefix_of(p.url(voice_id))
            &&& p.language@.len() == 0 ==> p.url(voice_id) == head + d
            &&& p.language@.len() > 0 ==> p.url(voice_id) == head + d + ("&language_code="@
                + p.language@)
        }),
{
    let rate = response_rate(p.output_sample_rate);
    crate::text::law_decimal_denotes(rate as nat);
    let d = crate::text::decimal(rate as nat);
    let head = "https://api.elevenlabs.io/v1/text-to-speech/"@ + voice_id
        + "/stream?output_format=pcm_"@;
    let u = p.url(voice_id);
    assert(u.take((head + d).len() as int) =~= head + d);
    if p.language@.len() > 0 {
        assert(u =~= head + d + ("&language_code="@ + p.language@));
    }
}

/// A request says which text is spoken with which model and settings.
pub proof fn law_request_says_what_is_spoken(p: ElevenLabsTtsProvider, text: Seq<char>)
    ensures
        ({
            let m = p.body_members(text);
            &&& m.dom().contains("text"@) && m["text"@] == json::quoted(text)
            &&& m.dom().contains("model_id"@) && m["model_id"@] == json::quoted(p.model_id@)
            &&& m.dom().contains("voice_settings"@)
            &&& settings_members().dom().contains("stability"@) && settings_members()["stability"@]
                == "0.5"@
            &&& settings_members().dom().contains("similarity_boost"@)
                && settings_members()["similarity_boost"@] == "0.75"@
        }),
{
    reveal_strlit("text");
    reveal_strlit("model_id");
    reveal_strlit("voice_settings");
    assert("text"@.len() == 4 && "text"@[0] == 't');
    assert("model_id"@.len() == 8 && "model_id"@[0] == 'm');
    assert("voice_settings"@.len() == 14 && "voice_settings"@[0] == 'v');
    reveal_strlit("stability");
    reveal_strlit("similarity_boost");
    assert("stability"@.len() == 9 && "stability"@[0] == 's');
    assert("similarity_boost"@.len() == 16 && "similarity_boost"@[0] == 's');
}

/// Only a multilingual model is told a language.
pub proof fn law_only_multilingual_models_take_a_language(model: Seq<char>, language: Seq<char>)
    ensures
        !crate::language_config::is_multilingual(model) ==> model_language(model, language).len()
            == 0,
        crate::language_config::is_multilingual(model) ==> model_language(model, language)
            == crate::language_config::elevenlabs_code_of(language),
{
}

} // verus!
