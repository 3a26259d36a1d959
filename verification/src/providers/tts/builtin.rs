//! Synthesis by a speech-inference server over HTTP.
//!
//! Responses may be WAV or raw PCM; raw PCM is taken to be at the native rate of the server.
use crate::json;
use crate::providers::request::{has_voice, HttpRequest};
use crate::providers::tts::stream::NativeAudio;
use crate::text::{concat, trim_end_matches};
use crate::wav::decode_audio;
use vstd::prelude::*;

verus! {

/// Native rate of the server unless configured otherwise.
pub const DEFAULT_NATIVE_RATE: u32 = 24_000;

/// Synthesis by a speech-inference server.
#[derive(Debug)]
pub struct BuiltinTtsProvider {
    pub base_url: String,
    pub output_sample_rate: u32,
    /// Rate of responses without a WAV header.
    pub native_rate: u32,
}

impl BuiltinTtsProvider {
    /// The body of a request: the voice is named where there is one.
    pub open spec fn body_members(text: Seq<char>, voice_id: Seq<char>) -> Map<
        Seq<char>,
        Seq<char>,
    > {
        let m = json::no_members().insert("text"@, json::quoted(text));
        if crate::providers::request::names_voice(voice_id) {
            m.insert("reference_id"@, json::quoted(voice_id))
        } else {
            m
        }
    }

    /// A provider for a server at the default native rate.
    pub fn new(base_url: &str, output_sample_rate: u32) -> (p: Self)
        ensures
            p.base_url@ == crate::text::trim_end_char_of(base_url@, '/'),
            p.output_sample_rate == output_sample_rate,
            p.native_rate == DEFAULT_NATIVE_RATE,
    {
        Self::with_native_rate(base_url, output_sample_rate, DEFAULT_NATIVE_RATE)
    }

    /// A provider for a server at another native rate.
    pub fn with_native_rate(base_url: &str, output_sample_rate: u32, native_rate: u32) -> (p: Self)
        ensures
            p.base_url@ == crate::text::trim_end_char_of(base_url@, '/'),
            p.output_sample_rate == output_sample_rate,
            p.native_rate == native_rate,
    {
        BuiltinTtsProvider {
            base_url: trim_end_matches(base_url, '/'),
            output_sample_rate,
            native_rate,
        }
    }

    /// The name of the provider.
    pub fn provider_name(&self) -> (n: &'static str)
        ensures
            n@ == "builtin"@,
    {
        "builtin"
    }

    /// The request that synthesises `text`.
    pub fn request(&self, text: &str, voice_id: &str) -> (r: HttpRequest)
        ensures
            r.url@ == self.base_url@ + "/v1/tts"@,
            r.headers@.len() == 0,
            r.body@ == json::object_text(Self::body_members(text@, voice_id@)),
    {
        let mut o = json::object();
        json::set(&mut o, "text", json::string(text));
        if has_voice(voice_id) {
            json::set(&mut o, "reference_id", json::string(voice_id));
        }
        HttpRequest {
            url: concat(self.base_url.as_str(), "/v1/tts"),
            headers: Vec::new(),
            body: json::write_object(o),
        }
    }

    /// The audio of a response.
    pub fn on_response(&self, raw: &[u8]) -> (a: Option<NativeAudio>)
        ensures
            crate::providers::tts::stream::audio_view(a) == crate::wav::response_audio(
                raw@,
                self.native_rate,
            ),
    {
        match decode_audio(raw, self.native_rate) {
            Some(d) => Some(NativeAudio { pcm: d.pcm, sample_rate: d.sample_rate }),
            None => None,
        }
    }
}

/// A request says which text is spoken, and names the voice where there is one.
pub proof fn law_request_says_what_is_spoken(text: Seq<char>, voice_id: Seq<char>)
    ensures
        ({
            let m = BuiltinTtsProvider::body_members(text, voice_id);
            &&& m.dom().contains("text"@) && m["text"@] == json::quoted(text)
            &&& m.dom().contains("reference_id"@) <==> crate::providers::request::names_voice(
                voice_id,
            )
            &&& m.dom().contains("reference_id"@) ==> m["reference_id"@] == json::quoted(voice_id)
        }),
{
    reveal_strlit("text");
    reveal_strlit("reference_id");
    assert("text"@.len() == 4 && "text"@[0] == 't');
    assert("reference_id"@.len() == 12 && "reference_id"@[0] == 'r');
}

} // verus!
