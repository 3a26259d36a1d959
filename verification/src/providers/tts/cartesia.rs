//! Cartesia synthesis over HTTP.
use crate::json;
use crate::language_config::cartesia_language_code;
use crate::providers::request::{has_voice, text_or, two_headers, HttpRequest};
use crate::providers::tts::stream::NativeAudio;
use crate::wav::parse_wav;
use vstd::prelude::*;

verus! {

/// API version that both the HTTP and the WebSocket protocol use.
pub const CARTESIA_API_VERSION: &'static str = "2026-03-01";

/// Cartesia synthesis over HTTP.
#[derive(Debug)]
pub struct CartesiaTtsProvider {
    pub model_id: String,
    /// Cartesia code of the language; empty to leave it out.
    pub language: String,
    pub output_sample_rate: u32,
}

/// The members that select the voice.
pub open spec fn voice_members(voice_id: Seq<char>) -> Map<Seq<char>, Seq<char>> {
    json::no_members().insert("mode"@, json::quoted("id"@)).insert("id"@, json::quoted(voice_id))
}

/// The members that select raw PCM16 at `rate`.
pub open spec fn format_members(rate: u32) -> Map<Seq<char>, Seq<char>> {
    json::no_members().insert("container"@, json::quoted("raw"@)).insert(
        "encoding"@,
        json::quoted("pcm_s16le"@),
    ).insert("sample_rate"@, crate::text::decimal(rate as nat))
}

/// `m` with the language, where there is one.
pub open spec fn with_language(m: Map<Seq<char>, Seq<char>>, language: Seq<char>) -> Map<
    Seq<char>,
    Seq<char>,
> {
    if language.len() > 0 {
        m.insert("language"@, json::quoted(language))
    } else {
        m
    }
}

/// Builds the voice object.
pub(crate) fn voice_object(voice_id: &str) -> (v: serde_json::Value)
    ensures
        json::text_of(v) == json::object_text(voice_members(voice_id@)),
{
    let mut o = json::object();
    json::set(&mut o, "mode", json::string("id"));
    json::set(&mut o, "id", json::string(voice_id));
    json::nested(o)
}

/// Builds the output format object.
pub(crate) fn format_object(rate: u32) -> (v: serde_json::Value)
    ensures
        json::text_of(v) == json::object_text(format_members(rate)),
{
    let mut o = json::object();
    json::set(&mut o, "container", json::string("raw"));
    json::set(&mut o, "encoding", json::string("pcm_s16le"));
    json::set(&mut o, "sample_rate", json::number(rate));
    json::nested(o)
}

impl CartesiaTtsProvider {
    /// The body of a request.
    pub open spec fn body_members(self, text: Seq<char>, voice_id: Seq<char>) -> Map<
        Seq<char>,
        Seq<char>,
    > {
        with_language(
            json::no_members().insert("model_id"@, json::quoted(self.model_id@)).insert(
                "transcript"@,
                json::quoted(text),
            ).insert("voice"@, json::object_text(voice_members(voice_id))).insert(
                "output_format"@,
                json::object_text(format_members(self.output_sample_rate)),
            ),
            self.language@,
        )
    }

    /// A provider for a model and language.
    pub fn new(model: &str, output_sample_rate: u32, language: &str) -> (p: Self)
        ensures
            p.model_id@ == crate::providers::request::nonempty_or(model@, "sonic-english"@),
            p.language@ == crate::language_config::cartesia_code_of(language@),
            p.output_sample_rate == output_sample_rate,
    {
        CartesiaTtsProvider {
            model_id: text_or(model, "sonic-english"),
            language: cartesia_language_code(language).to_owned(),
            output_sample_rate,
        }
    }

    /// The name of the provider.
    pub fn provider_name(&self) -> (n: &'static str)
        ensures
            n@ == "cartesia"@,
    {
        "cartesia"
    }

    /// The request that synthesises `text`; none where no voice is named.
    pub fn request(&self, text: &str, voice_id: &str, api_key: &str) -> (r: Option<HttpRequest>)
        ensures
            r is Some <==> crate::providers::request::names_voice(voice_id@),
            r matches Some(q) ==> {
                &&& q.url@ == "https://api.cartesia.ai/tts/bytes"@
                &&& crate::providers::request::header_views(q.headers@) == seq![
                    ("X-API-Key"@, api_key@),
                    ("Cartesia-Version"@, CARTESIA_API_VERSION@),
                ]
                &&& q.body@ == json::object_text(self.body_members(text@, voice_id@))
            },
    {
        if !has_voice(voice_id) {
            return None;
        }
        let mut o = json::object();
        json::set(&mut o, "model_id", json::string(self.model_id.as_str()));
        json::set(&mut o, "transcript", json::string(text));
        json::set(&mut o, "voice", voice_object(voice_id));
        json::set(&mut o, "output_format", format_object(self.output_sample_rate));
        if !self.language.as_str().is_empty() {
            json::set(&mut o, "language", json::string(self.language.as_str()));
        }
        Some(
            HttpRequest {
                url: "https://api.cartesia.ai/tts/bytes".to_owned(),
                headers: two_headers("X-API-Key", api_key.to_owned(), "Cartesia-Version", CARTESIA_API_VERSION),
                body: json::write_object(o),
            },
        )
    }

    /// The audio of a response: raw PCM at the requested rate, or a WAV file, which describes
    /// itself. A RIFF file of another kind that is longer than a WAV header gives no audio.
    pub open spec fn response_audio(self, raw: Seq<u8>) -> Option<(Seq<u8>, u32)> {
        if raw.len() == 0 {
            None
        } else if crate::wav::is_wav(raw) {
            crate::wav::wav_audio(raw)
        } else if raw.len() > 44 && crate::wav::name_at(raw, 0, crate::wav::riff()) {
            None
        } else {
            Some((raw, self.output_sample_rate))
        }
    }

    /// The audio of a response.
    pub fn on_response(&self, raw: Vec<u8>) -> (a: Option<NativeAudio>)
        ensures
            crate::providers::tts::stream::audio_view(a) == self.response_audio(raw@),
    {
        if raw.len() == 0 {
            return None;
        }
        let riff = raw.len() >= 44 && raw[0] == 82 && raw[1] == 73 && raw[2] == 70 && raw[3] == 70;
        let wave = riff && raw[8] == 87 && raw[9] == 65 && raw[10] == 86 && raw[11] == 69;
        if wave || (riff && raw.len() > 44) {
            return match parse_wav(raw.as_slice()) {
                Some(d) => Some(NativeAudio { pcm: d.pcm, sample_rate: d.sample_rate }),
                None => None,
            };
        }
        Some(NativeAudio { pcm: raw, sample_rate: self.output_sample_rate })
    }
}

/// A request says which text is spoken, with which model, voice and language.
pub proof fn law_request_says_what_is_spoken(
    p: CartesiaTtsProvider,
    text: Seq<char>,
    voice_id: Seq<char>,
)
    ensures
        ({
            let m = p.body_members(text, voice_id);
            &&& m.dom().contains("transcript"@) && m["transcript"@] == json::quoted(text)
            &&& m.dom().contains("model_id"@) && m["model_id"@] == json::quoted(p.model_id@)
            &&& m.dom().contains("voice"@) && m["voice"@] == json::object_text(
                voice_members(voice_id),
            )
            &&& m.dom().contains("output_format"@) && m["output_format"@] == json::object_text(
                format_members(p.output_sample_rate),
            )
            &&& m.dom().contains("language"@) <==> p.language@.len() > 0
            &&& p.language@.len() > 0 ==> m["language"@] == json::quoted(p.language@)
        }),
{
    reveal_strlit("transcript");
    reveal_strlit("model_id");
    reveal_strlit("voice");
    reveal_strlit("output_format");
    reveal_strlit("language");
    assert("transcript"@.len() == 10 && "transcript"@[0] == 't');
    assert("model_id"@.len() == 8 && "model_id"@[0] == 'm');
    assert("voice"@.len() == 5 && "voice"@[0] == 'v');
    assert("output_format"@.len() == 13 && "output_format"@[0] == 'o');
    assert("language"@.len() == 8 && "language"@[0] == 'l');
}

/// The voice is selected by its identifier, and the format by a rate that the decimal digits denote.
pub proof fn law_voice_and_rate_are_named(voice_id: Seq<char>, rate: u32)
    ensures
        voice_members(voice_id).dom().contains("id"@) && voice_members(voice_id)["id"@]
            == json::quoted(voice_id),
        voice_members(voice_id).dom().contains("mode"@) && voice_members(voice_id)["mode"@]
            == json::quoted("id"@),
        format_members(rate).dom().contains("sample_rate"@),
        crate::text::digits_value(format_members(rate)["sample_rate"@]) == rate,
        format_members(rate).dom().contains("encoding"@) && format_members(rate)["encoding"@]
            == json::quoted("pcm_s16le"@),
        format_members(rate).dom().contains("container"@) && format_members(rate)["container"@]
            == json::quoted("raw"@),
{
    reveal_strlit("id");
    reveal_strlit("mode");
    reveal_strlit("container");
    reveal_strlit("encoding");
    reveal_strlit("sample_rate");
    assert("id"@.len() == 2 && "id"@[0] == 'i');
    assert("mode"@.len() == 4 && "mode"@[0] == 'm');
    assert("container"@.len() == 9 && "container"@[0] == 'c');
    assert("encoding"@.len() == 8 && "encoding"@[0] == 'e');
    assert("sample_rate"@.len() == 11 && "sample_rate"@[0] == 's');
    crate::text::law_decimal_denotes(rate as nat);
}

/// A response that does not start as a RIFF file does is audio at the requested rate, as it came; so
/// is one that is shorter than a WAV header.
pub proof fn law_raw_responses_are_kept(p: CartesiaTtsProvider, raw: Seq<u8>)
    requires
        raw.len() > 0,
        raw.len() < 44 || raw[0] != 82 || raw[1] != 73 || raw[2] != 70 || raw[3] != 70,
    ensures
        p.response_audio(raw) == Some((raw, p.output_sample_rate)),
{
}

/// A response that is a WAV file is taken for what the file says, and an empty one holds no audio.
pub proof fn law_wav_responses_describe_themselves(
    p: CartesiaTtsProvider,
    samples: Seq<i16>,
    rate: u32,
    channels: u16,
)
    requires
        crate::wav::wav_fits(samples.len(), rate, channels),
        rate > 0,
    ensures
        p.response_audio(crate::wav::wav_file(samples, rate, channels)) == Some(
            (crate::pcm::bytes_of(samples), rate),
        ),
        p.response_audio(Seq::empty()) is None,
{
    crate::wav::law_wav_round_trip(samples, rate, channels);
}

/// A RIFF file that is no WAV file holds no audio, unless it is exactly as long as a WAV header: then
/// it is taken for raw audio.
pub proof fn law_other_riff_files_hold_no_audio(p: CartesiaTtsProvider, raw: Seq<u8>)
    requires
        raw.len() >= 44,
        raw[0] == 82 && raw[1] == 73 && raw[2] == 70 && raw[3] == 70,
        raw[8] != 87 || raw[9] != 65 || raw[10] != 86 || raw[11] != 69,
    ensures
        raw.len() > 44 ==> p.response_audio(raw) is None,
        raw.len() == 44 ==> p.response_audio(raw) == Some((raw, p.output_sample_rate)),
{
}

} // verus!
