//! OpenAI synthesis over HTTP.
use crate::json;
use crate::providers::request::{has_voice, one_header, text_or, HttpRequest};
use crate::providers::tts::stream::{take_raw, NativeAudio};
use crate::text::concat;
use vstd::prelude::*;

verus! {

/// Sample rate of every response.
pub const OPENAI_NATIVE_RATE: u32 = 24_000;

/// OpenAI synthesis over HTTP.
#[derive(Debug)]
pub struct OpenAiTtsProvider {
    pub model: String,
    pub output_sample_rate: u32,
}

/// The members of a request for speech.
pub open spec fn speech_members(
    model: Seq<char>,
    text: Seq<char>,
    voice: Seq<char>,
    format: Seq<char>,
) -> Map<Seq<char>, Seq<char>> {
    json::no_members().insert("model"@, json::quoted(model)).insert(
        "input"@,
        json::quoted(text),
    ).insert("voice"@, json::quoted(voice)).insert("response_format"@, json::quoted(format))
}

/// Builds the body of a request for speech.
pub(crate) fn speech_body(model: &str, text: &str, voice: &str, format: &str) -> (b: String)
    ensures
        b@ == json::object_text(speech_members(model@, text@, voice@, format@)),
{
    let mut o = json::object();
    json::set(&mut o, "model", json::string(model));
    json::set(&mut o, "input", json::string(text));
    json::set(&mut o, "voice", json::string(voice));
    json::set(&mut o, "response_format", json::string(format));
    json::write_object(o)
}

/// The voice that is asked for: `default` where none is named.
pub open spec fn voice_or(voice_id: Seq<char>, default: Seq<char>) -> Seq<char> {
    if crate::providers::request::names_voice(voice_id) {
        voice_id
    } else {
        default
    }
}

impl OpenAiTtsProvider {
    /// A provider for a model.
    pub fn new(model: &str, output_sample_rate: u32) -> (p: Self)
        ensures
            p.model@ == crate::providers::request::nonempty_or(model@, "gpt-4o-mini-tts"@),
            p.output_sample_rate == output_sample_rate,
    {
        OpenAiTtsProvider { model: text_or(model, "gpt-4o-mini-tts"), output_sample_rate }
    }

    /// The name of the provider.
    pub fn provider_name(&self) -> (n: &'static str)
        ensures
            n@ == "openai"@,
    {
        "openai"
    }

    /// The request that synthesises `text`.
    pub fn request(&self, text: &str, voice_id: &str, api_key: &str) -> (r: HttpRequest)
        ensures
            r.url@ == "https://api.openai.com/v1/audio/speech"@,
            crate::providers::request::header_views(r.headers@) == seq![
                ("Authorization"@, "Bearer "@ + api_key@),
            ],
            r.body@ == json::object_text(
                speech_members(self.model@, text@, voice_or(voice_id@, "alloy"@), "pcm"@),
            ),
    {
        let voice = if has_voice(voice_id) {
            voice_id
        } else {
            "alloy"
        };
        HttpRequest {
            url: "https://api.openai.com/v1/audio/speech".to_owned(),
            headers: one_header("Authorization", concat("Bearer ", api_key)),
            body: speech_body(self.model.as_str(), text, voice, "pcm"),
        }
    }

    /// The audio of a response: raw PCM.
    pub fn on_response(&self, raw: Vec<u8>) -> (a: Option<NativeAudio>)
        ensures
            crate::providers::tts::stream::audio_view(a)
                == crate::providers::tts::stream::raw_audio(raw@, OPENAI_NATIVE_RATE),
    {
        take_raw(raw, OPENAI_NATIVE_RATE)
    }
}

/// A request says which text is spoken, with which model and voice, and in which format.
pub proof fn law_request_says_what_is_spoken(
    model: Seq<char>,
    text: Seq<char>,
    voice: Seq<char>,
    format: Seq<char>,
)
    ensures
        ({
            let m = speech_members(model, text, voice, format);
            &&& m.dom().contains("model"@) && m["model"@] == json::quoted(model)
            &&& m.dom().contains("input"@) && m["input"@] == json::quoted(text)
            &&& m.dom().contains("voice"@) && m["voice"@] == json::quoted(voice)
            &&& m.dom().contains("response_format"@) && m["response_format"@] == json::quoted(
                format,
            )
        }),
{
    reveal_strlit("model");
    reveal_strlit("input");
    reveal_strlit("voice");
    reveal_strlit("response_format");
    assert("model"@.len() == 5 && "model"@[0] == 'm');
    assert("input"@.len() == 5 && "input"@[0] == 'i');
    assert("voice"@.len() == 5 && "voice"@[0] == 'v');
    assert("response_format"@.len() == 15 && "response_format"@[0] == 'r');
}

/// A voice that is named is asked for.
pub proof fn law_named_voice_is_asked_for(voice_id: Seq<char>, default: Seq<char>)
    ensures
        crate::providers::request::names_voice(voice_id)
            ==> voice_or(voice_id, default) == voice_id,
        !crate::providers::request::names_voice(voice_id)
            ==> voice_or(voice_id, default) == default,
{
}

} // verus!
