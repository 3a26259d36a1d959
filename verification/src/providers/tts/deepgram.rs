//! Deepgram Aura synthesis over HTTP.
use crate::json;
use crate::providers::request::{one_header, text_or, HttpRequest};
use crate::providers::tts::stream::{take_raw, NativeAudio};
use crate::text::{concat, decimal_of};
use vstd::prelude::*;

verus! {

/// Rate that is requested where the pipeline's own is not supported.
pub const DEEPGRAM_FALLBACK_RATE: u32 = 24_000;

/// The rates that Aura can produce.
pub open spec fn is_aura_rate(rate: u32) -> bool {
    rate == 8_000 || rate == 16_000 || rate == 24_000 || rate == 48_000
}

/// Deepgram Aura synthesis over HTTP. The model names the voice.
#[derive(Debug)]
pub struct DeepgramAuraTtsProvider {
    pub model: String,
    pub output_sample_rate: u32,
}

impl DeepgramAuraTtsProvider {
    /// The rate that is requested: the pipeline's own where Aura can produce it.
    pub open spec fn requested_rate(self) -> u32 {
        if is_aura_rate(self.output_sample_rate) {
            self.output_sample_rate
        } else {
            DEEPGRAM_FALLBACK_RATE
        }
    }

    /// A provider for a model.
    pub fn new(model: &str, output_sample_rate: u32) -> (p: Self)
        ensures
            p.model@ == crate::providers::request::nonempty_or(model@, "aura-asteria-en"@),
            p.output_sample_rate == output_sample_rate,
    {
        DeepgramAuraTtsProvider { model: text_or(model, "aura-asteria-en"), output_sample_rate }
    }

    /// The name of the provider.
    pub fn provider_name(&self) -> (n: &'static str)
        ensures
            n@ == "deepgram"@,
    {
        "deepgram"
    }

    /// The rate that is requested.
    pub fn request_rate(&self) -> (r: u32)
        ensures
            r == self.requested_rate(),
    {
        let rate: u32 = self.output_sample_rate;
        if rate == 8_000 || rate == 16_000 || rate == 24_000 || rate == 48_000 {
            rate
        } else {
            DEEPGRAM_FALLBACK_RATE
        }
    }

    /// The request that synthesises `text`.
    pub fn request(&self, text: &str, api_key: &str) -> (r: HttpRequest)
        ensures
            r.url@ == "https://api.deepgram.com/v1/speak?model="@ + self.model@
                + "&encoding=linear16&sample_rate="@ + crate::text::decimal(
                self.requested_rate() as nat,
            ) + "&container=none"@,
            crate::providers::request::header_views(r.headers@) == seq![
                ("Authorization"@, "Token "@ + api_key@),
            ],
            r.body@ == json::object_text(json::no_members().insert("text"@, json::quoted(text@))),
    {
        let mut url = concat("https://api.deepgram.com/v1/speak?model=", self.model.as_str());
        url.append("&encoding=linear16&sample_rate=");
        url.append(decimal_of(self.request_rate() as u64).as_str());
        url.append("&container=none");
        let mut o = json::object();
        json::set(&mut o, "text", json::string(text));
        HttpRequest {
            url,
            headers: one_header("Authorization", concat("Token ", api_key)),
            body: json::write_object(o),
        }
    }

    /// The audio of a response: raw PCM at the requested rate.
    pub fn on_response(&self, raw: Vec<u8>) -> (a: Option<NativeAudio>)
        ensures
            crate::providers::tts::stream::audio_view(a)
                == crate::providers::tts::stream::raw_audio(raw@, self.requested_rate()),
    {
        let rate = self.request_rate();
        take_raw(raw, rate)
    }
}

/// The rate that is asked for is one that Aura can produce, and the pipeline's own where that is one.
pub proof fn law_requested_rate_can_be_produced(p: DeepgramAuraTtsProvider)
    ensures
        ({
            let r = p.requested_rate();
            &&& r == 8_000 || r == 16_000 || r == 24_000 || r == 48_000
            &&& r != p.output_sample_rate ==> r == 24_000 && p.output_sample_rate != 8_000
                && p.output_sample_rate != 16_000 && p.output_sample_rate != 48_000
        }),
{
}

} // verus!
