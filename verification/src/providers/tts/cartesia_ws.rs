//! Cartesia synthesis over a WebSocket: turns share the connection, each under its context.
use crate::clock::Millis;
use crate::json;
use crate::language_config::cartesia_language_code;
use crate::providers::request::{has_voice, text_or, two_headers, ws_config, WsRequest};
use crate::providers::tts::cartesia::{format_object, voice_object, CARTESIA_API_VERSION};
use crate::providers::tts::stream::{end_of, TtsAudioChunk};
use crate::providers::ws::{WsConfig, WsKeepalive};
use crate::text::{concat, same};
use vstd::prelude::*;

verus! {

/// Sample rate of the audio on the connection.
pub const CARTESIA_WS_SAMPLE_RATE: u32 = 24_000;

/// Whether `uuid` takes a text for a UUID.
pub uninterp spec fn is_uuid(s: Seq<char>) -> bool;

/// `uuid::Uuid::parse_str`: whether it succeeds.
#[verifier::external_body]
fn parses_as_uuid(s: &str) -> (r: bool)
    ensures
        r == is_uuid(s@),
{
    uuid::Uuid::parse_str(s).is_ok()
}

/// Cartesia synthesis over a WebSocket.
#[derive(Debug)]
pub struct CartesiaWsTtsProvider {
    pub model_id: String,
    /// Cartesia code of the language; empty to leave it out.
    pub language: String,
    /// Voice of every message.
    pub voice_id: String,
    pub output_sample_rate: u32,
}

/// A message of the server.
#[derive(Debug)]
pub struct CartesiaEvent {
    pub msg_type: String,
    pub context_id: String,
    pub data: Option<String>,
}

/// What a server message means: audio of a turn, the end of a turn (also by an error, after which
/// no audio comes any more), or nothing.
pub open spec fn event_chunk(e: CartesiaEvent) -> Option<
    crate::providers::tts::stream::ChunkView,
> {
    if e.msg_type@ == "chunk"@ {
        match e.data {
            Some(d) => match crate::base64_text::decoded(d@) {
                Some(pcm) => Some(
                    crate::providers::tts::stream::audio_chunk(pcm, e.context_id@),
                ),
                None => None,
            },
            None => None,
        }
    } else if e.msg_type@ == "done"@ || e.msg_type@ == "error"@ {
        Some(crate::providers::tts::stream::final_chunk(e.context_id@))
    } else {
        None
    }
}

/// Reads a server message; none where it is not JSON.
pub fn read_event(text: &str) -> (e: Option<CartesiaEvent>)
    ensures
        e is Some <==> json::parsed(text@) is Some,
        e matches Some(x) ==> {
            let v = json::parsed(text@)->0;
            &&& x.msg_type@ == json::or_empty(json::string_member(v, "type"@))
            &&& x.context_id@ == json::or_empty(json::string_member(v, "context_id"@))
            &&& x.data is Some <==> json::string_member(v, "data"@) is Some
            &&& x.data matches Some(d) ==> json::string_member(v, "data"@) == Some(d@)
        },
{
    match json::parse(text) {
        Some(v) => Some(
            CartesiaEvent {
                msg_type: json::get_string_or_empty(&v, "type"),
                context_id: json::get_string_or_empty(&v, "context_id"),
                data: json::get_string(&v, "data"),
            },
        ),
        None => None,
    }
}

/// The chunk that a server message stands for, its audio still at [`CARTESIA_WS_SAMPLE_RATE`].
pub fn on_event(e: CartesiaEvent) -> (c: Option<TtsAudioChunk>)
    ensures
        c is Some <==> event_chunk(e) is Some,
        c matches Some(x) ==> event_chunk(e) == Some(x@),
{
    if same(e.msg_type.as_str(), "chunk") {
        match &e.data {
            Some(d) => match crate::base64_text::decode(d.as_str()) {
                Some(pcm) => Some(
                    TtsAudioChunk { pcm, is_final: false, context_id: e.context_id },
                ),
                None => None,
            },
            None => None,
        }
    } else if same(e.msg_type.as_str(), "done") || same(e.msg_type.as_str(), "error") {
        Some(end_of(e.context_id))
    } else {
        None
    }
}

impl CartesiaWsTtsProvider {
    /// Whether the voice can be used: Cartesia knows voices by UUIDs.
    pub open spec fn voice_usable(self) -> bool {
        crate::providers::request::names_voice(self.voice_id@) && is_uuid(self.voice_id@)
    }

    /// The members of a message that adds `text` to a turn, or with `more` unset ends it.
    pub open spec fn message_members(
        self,
        text: Seq<char>,
        context_id: Seq<char>,
        more: bool,
    ) -> Map<Seq<char>, Seq<char>> {
        crate::providers::tts::cartesia::with_language(
            json::no_members().insert("model_id"@, json::quoted(self.model_id@)).insert(
                "transcript"@,
                json::quoted(text),
            ).insert("context_id"@, json::quoted(context_id)).insert(
                "continue"@,
                if more {
                    "true"@
                } else {
                    "false"@
                },
            ).insert(
                "output_format"@,
                json::object_text(
                    crate::providers::tts::cartesia::format_members(CARTESIA_WS_SAMPLE_RATE),
                ),
            ).insert(
                "voice"@,
                json::object_text(crate::providers::tts::cartesia::voice_members(self.voice_id@)),
            ),
            self.language@,
        )
    }

    /// A message that adds `text` to a turn, or with `more` unset ends it.
    pub open spec fn message(self, text: Seq<char>, context_id: Seq<char>, more: bool) -> Seq<
        char,
    > {
        json::object_text(self.message_members(text, context_id, more))
    }

    /// A provider for a model and language, without a voice yet.
    pub fn new(model: &str, output_sample_rate: u32, language: &str) -> (p: Self)
        ensures
            p.model_id@ == crate::providers::request::nonempty_or(model@, "sonic-2"@),
            p.language@ == crate::language_config::cartesia_code_of(language@),
            p.voice_id@ == Seq::<char>::empty(),
            p.output_sample_rate == output_sample_rate,
    {
        CartesiaWsTtsProvider {
            model_id: text_or(model, "sonic-2"),
            language: cartesia_language_code(language).to_owned(),
            voice_id: String::new(),
            output_sample_rate,
        }
    }

    /// The name of the provider.
    pub fn provider_name(&self) -> (n: &'static str)
        ensures
            n@ == "cartesia-ws"@,
    {
        "cartesia-ws"
    }

    /// Sets the voice of every message.
    pub fn set_voice(&mut self, voice_id: &str)
        ensures
            final(self).voice_id@ == voice_id@,
            *final(self) == (CartesiaWsTtsProvider {
                voice_id: final(self).voice_id,
                ..*old(self)
            }),
    {
        self.voice_id = voice_id.to_owned();
    }

    /// The handshake. The key goes into a header, not into the URL.
    pub fn request(&self, api_key: &str) -> (r: WsRequest)
        ensures
            r.url@ == "wss://api.cartesia.ai/tts/websocket?cartesia_version="@
                + CARTESIA_API_VERSION@,
            crate::providers::request::header_views(r.headers@) == seq![
                ("X-API-Key"@, api_key@),
                ("Cartesia-Version"@, CARTESIA_API_VERSION@),
            ],
    {
        WsRequest {
            url: concat(
                "wss://api.cartesia.ai/tts/websocket?cartesia_version=",
                CARTESIA_API_VERSION,
            ),
            headers: two_headers("X-API-Key", api_key.to_owned(), "Cartesia-Version", CARTESIA_API_VERSION),
        }
    }

    /// How the connection is kept: a ping every minute.
    pub fn connection(&self) -> (c: WsConfig)
        ensures
            c == (WsConfig {
                keepalive: WsKeepalive::WsPing { interval: crate::clock::millis(60_000_000_000) },
                max_reconnect_attempts: 3,
                reconnect_delay: crate::clock::millis(1_000_000_000),
                max_total_reconnect_rounds: 5,
            }),
    {
        ws_config(WsKeepalive::WsPing { interval: Millis { ns: 60_000_000_000 } }, 5)
    }

    fn context_message(&self, text: &str, context_id: &str, more: bool) -> (m: Option<String>)
        ensures
            m is Some <==> self.voice_usable(),
            m matches Some(x) ==> x@ == self.message(text@, context_id@, more),
    {
        if !has_voice(self.voice_id.as_str()) || !parses_as_uuid(self.voice_id.as_str()) {
            return None;
        }
        let mut o = json::object();
        json::set(&mut o, "model_id", json::string(self.model_id.as_str()));
        json::set(&mut o, "transcript", json::string(text));
        json::set(&mut o, "context_id", json::string(context_id));
        json::set(&mut o, "continue", json::boolean(more));
        json::set(&mut o, "output_format", format_object(CARTESIA_WS_SAMPLE_RATE));
        json::set(&mut o, "voice", voice_object(self.voice_id.as_str()));
        if !self.language.as_str().is_empty() {
            json::set(&mut o, "language", json::string(self.language.as_str()));
        }
        Some(json::write_object(o))
    }

    /// The message that adds `text` to a turn; none where the voice cannot be used.
    pub fn send_text(&self, text: &str, context_id: &str) -> (m: Option<String>)
        ensures
            m is Some <==> self.voice_usable(),
            m matches Some(x) ==> x@ == self.message(text@, context_id@, true),
    {
        self.context_message(text, context_id, true)
    }

    /// The message that ends a turn; none where the voice cannot be used.
    pub fn flush(&self, context_id: &str) -> (m: Option<String>)
        ensures
            m is Some <==> self.voice_usable(),
            m matches Some(x) ==> x@ == self.message(""@, context_id@, false),
    {
        self.context_message("", context_id, false)
    }

    /// The message that cancels a turn.
    pub fn cancel(&self, context_id: &str) -> (m: String)
        ensures
            m@ == json::object_text(
                json::no_members().insert("context_id"@, json::quoted(context_id@)).insert(
                    "cancel"@,
                    "true"@,
                ),
            ),
    {
        let mut o = json::object();
        json::set(&mut o, "context_id", json::string(context_id));
        json::set(&mut o, "cancel", json::boolean(true));
        json::write_object(o)
    }
}

/// A message says which text it adds to which turn, with which model, voice and language, and whether
/// more is to come.
pub proof fn law_messages_say_what_is_spoken(
    p: CartesiaWsTtsProvider,
    text: Seq<char>,
    turn: Seq<char>,
    more: bool,
)
    ensures
        ({
            let m = p.message_members(text, turn, more);
            &&& m.dom().contains("transcript"@) && m["transcript"@] == json::quoted(text)
            &&& m.dom().contains("context_id"@) && m["context_id"@] == json::quoted(turn)
            &&& m.dom().contains("continue"@) && (m["continue"@] == "true"@ <==> more)
                && (m["continue"@] == "false"@ <==> !more)
            &&& m.dom().contains("model_id"@) && m["model_id"@] == json::quoted(p.model_id@)
            &&& m.dom().contains("language"@) <==> p.language@.len() > 0
            &&& p.language@.len() > 0 ==> m["language"@] == json::quoted(p.language@)
            &&& m.dom().contains("voice"@)
            &&& m.dom().contains("output_format"@)
            &&& p.message(text, turn, more) == json::object_text(m)
        }),
{
    reveal_strlit("transcript");
    reveal_strlit("context_id");
    reveal_strlit("continue");
    reveal_strlit("model_id");
    reveal_strlit("language");
    reveal_strlit("voice");
    reveal_strlit("output_format");
    reveal_strlit("true");
    reveal_strlit("false");
    assert("transcript"@[0] == 't');
    assert("context_id"@[0] == 'c' && "context_id"@.len() == 10);
    assert("continue"@[0] == 'c' && "continue"@.len() == 8);
    assert("model_id"@[0] == 'm');
    assert("language"@[0] == 'l');
    assert("voice"@[0] == 'v');
    assert("output_format"@[0] == 'o');
    assert("true"@[0] == 't' && "false"@[0] == 'f');
}

/// Audio is decoded and handed on under its turn and never ends it; a turn ends without audio when
/// the server is done with it or fails. All else means nothing.
pub proof fn law_audio_is_handed_on_under_its_turn(e: CartesiaEvent)
    ensures
        event_chunk(e) matches Some(c) ==> {
            &&& c.context_id == e.context_id@
            &&& !c.is_final <==> e.msg_type@ == "chunk"@
            &&& c.is_final <==> e.msg_type@ == "done"@ || e.msg_type@ == "error"@
            &&& c.is_final ==> c.pcm.len() == 0
            &&& !c.is_final ==> (e.data matches Some(d) && crate::base64_text::decoded(d@) == Some(
                c.pcm,
            ))
        },
        e.msg_type@ == "done"@ || e.msg_type@ == "error"@ ==> event_chunk(e) is Some,
        e.msg_type@ == "chunk"@ ==> (event_chunk(e) is Some <==> (e.data matches Some(d)
            && crate::base64_text::decoded(d@) is Some)),
{
    reveal_strlit("chunk");
    reveal_strlit("done");
    reveal_strlit("error");
    assert("chunk"@[0] == 'c' && "done"@[0] == 'd' && "error"@[0] == 'e');
}

} // verus!
