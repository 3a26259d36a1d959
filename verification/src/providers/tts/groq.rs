//! Groq synthesis over HTTP.
use crate::providers::request::{has_voice, one_header, text_or, HttpRequest};
use crate::providers::tts::openai::speech_body;
use crate::providers::tts::stream::NativeAudio;
use crate::wav::parse_wav;
use crate::text::concat;
use vstd::prelude::*;

verus! {

/// Groq synthesis over HTTP.
#[derive(Debug)]
pub struct GroqTtsProvider {
    pub model: String,
    pub output_sample_rate: u32,
}

/// The audio of a response: what its WAV file holds; none where it holds nothing.
pub open spec fn groq_audio(raw: Seq<u8>) -> Option<(Seq<u8>, u32)> {
    match crate::wav::wav_audio(raw) {
        Some((pcm, rate)) => if pcm.len() > 0 {
            Some((pcm, rate))
        } else {
            None
        },
        None => None,
    }
}

impl GroqTtsProvider {
    /// A provider for a model.
    pub fn new(model: &str, output_sample_rate: u32) -> (p: Self)
        ensures
            p.model@ == crate::providers::request::nonempty_or(
                model@,
                "canopylabs/orpheus-v1-english"@,
            ),
            p.output_sample_rate == output_sample_rate,
    {
        GroqTtsProvider {
            model: text_or(model, "canopylabs/orpheus-v1-english"),
            output_sample_rate,
        }
    }

    /// The name of the provider.
    pub fn provider_name(&self) -> (n: &'static str)
        ensures
            n@ == "groq"@,
    {
        "groq"
    }

    /// The request that synthesises `text`.
    pub fn request(&self, text: &str, voice_id: &str, api_key: &str) -> (r: HttpRequest)
        ensures
            r.url@ == "https://api.groq.com/openai/v1/audio/speech"@,
            crate::providers::request::header_views(r.headers@) == seq![
                ("Authorization"@, "Bearer "@ + api_key@),
            ],
            r.body@ == crate::json::object_text(
                crate::providers::tts::openai::speech_members(
                    self.model@,
                    text@,
                    crate::providers::tts::openai::voice_or(voice_id@, "autumn"@),
                    "wav"@,
                ),
            ),
    {
        let voice = if has_voice(voice_id) {
            voice_id
        } else {
            "autumn"
        };
        HttpRequest {
            url: "https://api.groq.com/openai/v1/audio/speech".to_owned(),
            headers: one_header("Authorization", concat("Bearer ", api_key)),
            body: speech_body(self.model.as_str(), text, voice, "wav"),
        }
    }

    /// The audio of a response.
    pub fn on_response(&self, raw: &[u8]) -> (a: Option<NativeAudio>)
        ensures
            crate::providers::tts::stream::audio_view(a) == groq_audio(raw@),
    {
        match parse_wav(raw) {
            Some(d) => {
                if d.pcm.len() == 0 {
                    None
                } else {
                    Some(NativeAudio { pcm: d.pcm, sample_rate: d.sample_rate })
                }
            },
            None => None,
        }
    }
}

/// A response that is heard at all is heard at a known rate.
pub proof fn law_groq_rate_known(raw: Seq<u8>)
    ensures
        groq_audio(raw) matches Some((pcm, rate)) ==> rate != 0,
{
    crate::wav::law_audio_within_file(raw, 12, 0);
}

/// The samples of a WAV file are heard at the rate that the file names; a file without samples, and
/// what is no WAV file, hold no audio.
pub proof fn law_wav_responses_are_heard(samples: Seq<i16>, rate: u32, channels: u16, raw: Seq<u8>)
    requires
        crate::wav::wav_fits(samples.len(), rate, channels),
        rate > 0,
    ensures
        samples.len() > 0 ==> groq_audio(crate::wav::wav_file(samples, rate, channels)) == Some(
            (crate::pcm::bytes_of(samples), rate),
        ),
        samples.len() == 0 ==> groq_audio(crate::wav::wav_file(samples, rate, channels)) is None,
        raw.len() < 44 ==> groq_audio(raw) is None,
        raw.len() >= 4 && raw[0] != 82 ==> groq_audio(raw) is None,
{
    crate::wav::law_wav_round_trip(samples, rate, channels);
}

} // verus!
