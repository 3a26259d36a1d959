//! ElevenLabs synthesis over a WebSocket: turns share the connection, each under its context.
//!
//! The first message of a context must be a single space. Contexts that were opened that way are
//! remembered until they end, or until the connection is brought back and the server has forgotten
//! them.
use crate::clock::Millis;
use crate::json;
use crate::language_config::{elevenlabs_language_code, is_elevenlabs_multilingual};
use crate::providers::request::{has_voice, one_header, text_or, ws_config, WsRequest};
use crate::providers::tts::stream::{end_of, TtsAudioChunk};
use crate::providers::ws::{WsConfig, WsKeepalive};
use crate::text::{concat, same};
use vstd::prelude::*;

verus! {

/// Sample rate of the audio on the connection.
pub const ELEVENLABS_WS_SAMPLE_RATE: u32 = 24_000;

/// As many open contexts as are remembered.
pub const MAX_CONTEXTS: usize = 100;

/// ElevenLabs synthesis over a WebSocket.
#[derive(Debug)]
pub struct ElevenLabsWsTtsProvider {
    pub model_id: String,
    pub language: String,
    pub output_sample_rate: u32,
    /// Voice of the connection.
    pub active_voice_id: String,
    /// Contexts that were opened on this connection.
    pub initialized_contexts: Vec<String>,
}

/// Why the connection cannot be made.
#[derive(Clone, Copy, Debug, PartialEq, Eq, Structural)]
pub enum ConnectError {
    /// No voice was set.
    NoVoice,
}

/// The message that opens a context.
pub open spec fn open_message(context_id: Seq<char>) -> Seq<char> {
    text_message(" "@, context_id)
}

/// The message that adds text to a context.
pub open spec fn text_message(text: Seq<char>, context_id: Seq<char>) -> Seq<char> {
    json::object_text(text_members(text, context_id))
}

/// The members of a message that adds text to a context.
pub open spec fn text_members(text: Seq<char>, context_id: Seq<char>) -> Map<
    Seq<char>,
    Seq<char>,
> {
    json::no_members().insert("text"@, json::quoted(text)).insert(
        "context_id"@,
        json::quoted(context_id),
    )
}

/// The message that sets a flag on a context.
pub open spec fn flag_message(context_id: Seq<char>, flag: Seq<char>) -> Seq<char> {
    json::object_text(flag_members(context_id, flag))
}

/// The members of a message that sets a flag on a context.
pub open spec fn flag_members(context_id: Seq<char>, flag: Seq<char>) -> Map<
    Seq<char>,
    Seq<char>,
> {
    json::no_members().insert("context_id"@, json::quoted(context_id)).insert(flag, "true"@)
}

fn write_text(text: &str, context_id: &str) -> (m: String)
    ensures
        m@ == text_message(text@, context_id@),
{
    let mut o = json::object();
    json::set(&mut o, "text", json::string(text));
    json::set(&mut o, "context_id", json::string(context_id));
    json::write_object(o)
}

fn write_flag(context_id: &str, flag: &str) -> (m: String)
    ensures
        m@ == flag_message(context_id@, flag@),
{
    let mut o = json::object();
    json::set(&mut o, "context_id", json::string(context_id));
    json::set(&mut o, flag, json::boolean(true));
    json::write_object(o)
}

/// A message of the server.
#[derive(Debug)]
pub struct ElevenLabsEvent {
    pub audio: Option<String>,
    pub is_final: bool,
    pub error: Option<String>,
    pub context_id: String,
}

/// Reads a server message; none where it is not JSON.
pub fn read_event(text: &str) -> (e: Option<ElevenLabsEvent>)
    ensures
        e is Some <==> json::parsed(text@) is Some,
        e matches Some(x) ==> {
            let v = json::parsed(text@)->0;
            &&& x.audio is Some <==> json::string_member(v, "audio"@) is Some
            &&& x.audio matches Some(a) ==> json::string_member(v, "audio"@) == Some(a@)
            &&& x.is_final == (json::bool_member(v, "isFinal"@) == Some(true))
            &&& x.error is Some <==> json::string_member(v, "error"@) is Some
            &&& x.error matches Some(a) ==> json::string_member(v, "error"@) == Some(a@)
            &&& x.context_id@ == json::or_empty(json::string_member(v, "contextId"@))
        },
{
    match json::parse(text) {
        Some(v) => Some(
            ElevenLabsEvent {
                audio: json::get_string(&v, "audio"),
                is_final: match json::get_bool(&v, "isFinal") {
                    Some(b) => b,
                    None => false,
                },
                error: json::get_string(&v, "error"),
                context_id: json::get_string_or_empty(&v, "contextId"),
            },
        ),
        None => None,
    }
}

/// Errors that connecting again cannot cure.
pub open spec fn is_fatal(error: Seq<char>) -> bool {
    error == "voice_id_does_not_exist"@ || error == "invalid_api_key"@ || error
        == "quota_exceeded"@ || error == "model_not_found"@
}

fn is_fatal_error(error: &str) -> (r: bool)
    ensures
        r == is_fatal(error@),
{
    same(error, "voice_id_does_not_exist") || same(error, "invalid_api_key") || same(
        error,
        "quota_exceeded",
    ) || same(error, "model_not_found")
}

/// What a server message means.
#[derive(Debug)]
pub struct ElevenLabsStep {
    /// Chunks to hand on, their audio still at [`ELEVENLABS_WS_SAMPLE_RATE`].
    pub chunks: Vec<TtsAudioChunk>,
    /// A message to send back.
    pub reply: Option<String>,
    /// Whether to stop reading for good.
    pub stop: bool,
}

/// Whether a message holds audio that cannot be decoded; then nothing of it counts.
pub open spec fn is_garbled(e: ElevenLabsEvent) -> bool {
    e.audio matches Some(a) && crate::base64_text::decoded(a@) is None
}

/// Whether a message ends reading for good.
pub open spec fn stops(e: ElevenLabsEvent) -> bool {
    !is_garbled(e) && (e.error matches Some(x) && is_fatal(x@))
}

/// The chunks of a message: its audio, then the end of its turn where it is final, then the end of
/// its turn where it reports an error.
pub open spec fn event_chunks(e: ElevenLabsEvent) -> Seq<
    crate::providers::tts::stream::ChunkView,
> {
    let end = seq![crate::providers::tts::stream::final_chunk(e.context_id@)];
    let none = Seq::<crate::providers::tts::stream::ChunkView>::empty();
    if is_garbled(e) {
        none
    } else {
        (match e.audio {
            Some(a) => seq![
                crate::providers::tts::stream::audio_chunk(
                    crate::base64_text::decoded(a@)->0,
                    e.context_id@,
                ),
            ],
            None => none,
        }) + (if e.is_final {
            end
        } else {
            none
        }) + (if e.error is Some {
            end
        } else {
            none
        })
    }
}

/// Decides what a server message means. A final message frees the context on the server at once:
/// left to its timeout it would keep one of the few contexts that a connection may have.
pub fn on_event(e: ElevenLabsEvent) -> (step: ElevenLabsStep)
    ensures
        crate::providers::tts::stream::chunk_views(step.chunks@) == event_chunks(e),
        step.reply is Some <==> e.is_final && !is_garbled(e),
        step.reply matches Some(m) ==> m@ == flag_message(e.context_id@, "close_context"@),
        step.stop == (!is_garbled(e) && (e.error matches Some(x) && is_fatal(x@))),
        step.stop == stops(e),
{
    let mut chunks: Vec<TtsAudioChunk> = Vec::new();
    let mut reply: Option<String> = None;
    let mut stop = false;
    let ghost ctx = e.context_id@;
    if let Some(a) = &e.audio {
        match crate::base64_text::decode(a.as_str()) {
            Some(pcm) => {
                chunks.push(
                    TtsAudioChunk { pcm, is_final: false, context_id: e.context_id.clone() },
                );
            },
            None => {
                assert(crate::providers::tts::stream::chunk_views(chunks@) =~= event_chunks(e));
                return ElevenLabsStep { chunks, reply, stop };
            },
        }
    }
    if e.is_final {
        reply = Some(write_flag(e.context_id.as_str(), "close_context"));
        chunks.push(end_of(e.context_id.clone()));
    }
    if let Some(x) = &e.error {
        stop = is_fatal_error(x.as_str());
        chunks.push(end_of(e.context_id.clone()));
    }
    assert(crate::providers::tts::stream::chunk_views(chunks@) =~= event_chunks(e));
    ElevenLabsStep { chunks, reply, stop }
}

impl ElevenLabsWsTtsProvider {
    /// No context is remembered twice, and not too many are.
    pub open spec fn wf(&self) -> bool {
        &&& crate::text::views(self.initialized_contexts@).no_duplicates()
        &&& self.initialized_contexts@.len() <= MAX_CONTEXTS
    }

    /// The contexts that were opened on this connection.
    pub open spec fn contexts(&self) -> Seq<Seq<char>> {
        crate::text::views(self.initialized_contexts@)
    }

    /// A provider for a model and language, without a voice yet.
    pub fn new(model: &str, output_sample_rate: u32, language: &str) -> (p: Self)
        ensures
            p.wf(),
            p.model_id@ == crate::providers::request::nonempty_or(model@, "eleven_turbo_v2_5"@),
            p.language@ == language@,
            p.output_sample_rate == output_sample_rate,
            p.active_voice_id@ == Seq::<char>::empty(),
            p.contexts() == Seq::<Seq<char>>::empty(),
    {
        let p = ElevenLabsWsTtsProvider {
            model_id: text_or(model, "eleven_turbo_v2_5"),
            language: language.to_owned(),
            output_sample_rate,
            active_voice_id: String::new(),
            initialized_contexts: Vec::new(),
        };
        assert(p.contexts() =~= Seq::<Seq<char>>::empty());
        p
    }

    /// The name of the provider.
    pub fn provider_name(&self) -> (n: &'static str)
        ensures
            n@ == "elevenlabs-ws"@,
    {
        "elevenlabs-ws"
    }

    /// Sets the voice, where one is named. The handshake names the voice, so this has to come
    /// before it.
    pub fn set_voice(&mut self, voice_id: &str)
        ensures
            final(self).active_voice_id@ == if crate::providers::request::names_voice(voice_id@) {
                voice_id@
            } else {
                old(self).active_voice_id@
            },
            *final(self) == (ElevenLabsWsTtsProvider {
                active_voice_id: final(self).active_voice_id,
                ..*old(self)
            }),
    {
        if has_voice(voice_id) {
            self.active_voice_id = voice_id.to_owned();
        }
    }

    /// The URL of the connection for a voice. The language is named for multilingual models only.
    pub open spec fn url(self, voice_id: Seq<char>) -> Seq<char> {
        let u = "wss://api.elevenlabs.io/v1/text-to-speech/"@ + voice_id
            + "/multi-stream-input?model_id="@ + self.model_id@ + "&output_format=pcm_24000"@;
        let lang = crate::providers::tts::elevenlabs::model_language(
            self.model_id@,
            self.language@,
        );
        if lang.len() > 0 {
            u + "&language_code="@ + lang
        } else {
            u
        }
    }

    /// The URL of the connection for a voice.
    pub fn ws_url(&self, voice_id: &str) -> (u: String)
        ensures
            u@ == self.url(voice_id@),
    {
        let mut u = concat("wss://api.elevenlabs.io/v1/text-to-speech/", voice_id);
        u.append("/multi-stream-input?model_id=");
        u.append(self.model_id.as_str());
        u.append("&output_format=pcm_24000");
        let lang = elevenlabs_language_code(self.language.as_str());
        if is_elevenlabs_multilingual(self.model_id.as_str()) && !lang.is_empty() {
            u.append("&language_code=");
            u.append(lang);
        }
        u
    }

    /// The handshake; refused where no voice is named.
    pub fn request(&self, api_key: &str) -> (r: Result<WsRequest, ConnectError>)
        ensures
            r is Ok <==> crate::providers::request::names_voice(self.active_voice_id@),
            r matches Ok(q) ==> {
                &&& q.url@ == self.url(self.active_voice_id@)
                &&& crate::providers::request::header_views(q.headers@) == seq![
                    ("xi-api-key"@, api_key@),
                ]
            },
    {
        if !has_voice(self.active_voice_id.as_str()) {
            return Err(ConnectError::NoVoice);
        }
        let url = self.ws_url(self.active_voice_id.as_str());
        Ok(WsRequest { url, headers: one_header("xi-api-key", api_key.to_owned()) })
    }

    /// Starts a session, once the connection stands: no context is open yet.
    pub fn connect(&mut self)
        ensures
            final(self).wf(),
            final(self).contexts() == Seq::<Seq<char>>::empty(),
            *final(self) == (ElevenLabsWsTtsProvider {
                initialized_contexts: final(self).initialized_contexts,
                ..*old(self)
            }),
    {
        self.forget_contexts();
    }

    /// How the connection is kept: an empty text every ten seconds.
    pub fn connection(&self) -> (c: WsConfig)
        ensures
            c.keepalive matches WsKeepalive::TextMessage { interval, message } && interval
                == crate::clock::millis(10_000_000_000) && message@ == "{\"text\":\"\"}"@,
            c == (WsConfig {
                keepalive: c.keepalive,
                max_reconnect_attempts: 3,
                reconnect_delay: crate::clock::millis(1_000_000_000),
                max_total_reconnect_rounds: 5,
            }),
    {
        ws_config(
            WsKeepalive::TextMessage {
                interval: Millis { ns: 10_000_000_000 },
                message: "{\"text\":\"\"}".to_owned(),
            },
            5,
        )
    }

    fn forget_contexts(&mut self)
        ensures
            final(self).wf(),
            final(self).contexts() == Seq::<Seq<char>>::empty(),
            *final(self) == (ElevenLabsWsTtsProvider {
                initialized_contexts: final(self).initialized_contexts,
                ..*old(self)
            }),
    {
        self.initialized_contexts = Vec::new();
        assert(self.contexts() =~= Seq::<Seq<char>>::empty());
    }

    fn position_of(&self, context_id: &str) -> (i: Option<usize>)
        ensures
            i is Some <==> self.contexts().contains(context_id@),
            i matches Some(k) ==> k < self.initialized_contexts@.len() && self.contexts()[k as int]
                == context_id@,
    {
        for i in 0..self.initialized_contexts.len()
            invariant
                forall|k: int| 0 <= k < i ==> self.contexts()[k] != context_id@,
        {
            if same(self.initialized_contexts[i].as_str(), context_id) {
                assert(self.contexts()[i as int] == context_id@);
                return Some(i);
            }
        }
        None
    }

    /// The contexts that still count before a message is sent: none where the connection was
    /// brought back since the last one.
    pub open spec fn live_contexts(self, reconnected: bool) -> Seq<Seq<char>> {
        if reconnected {
            Seq::empty()
        } else {
            self.contexts()
        }
    }

    /// The messages that add `text` to a context.
    pub open spec fn messages(
        self,
        text: Seq<char>,
        context_id: Seq<char>,
        reconnected: bool,
    ) -> Seq<Seq<char>> {
        if self.live_contexts(reconnected).contains(context_id) {
            seq![text_message(text, context_id)]
        } else {
            seq![open_message(context_id), text_message(text, context_id)]
        }
    }

    /// The contexts after text was sent for one.
    pub open spec fn contexts_after(self, context_id: Seq<char>, reconnected: bool) -> Seq<
        Seq<char>,
    > {
        let live = self.live_contexts(reconnected);
        if live.contains(context_id) {
            live
        } else if live.len() >= MAX_CONTEXTS {
            seq![context_id]
        } else {
            live.push(context_id)
        }
    }

    /// The messages that add `text` to a context: one that opens it, where it is not open, and the
    /// text. `reconnected` tells whether the connection was brought back since the last call.
    pub fn send_text(&mut self, text: &str, context_id: &str, reconnected: bool) -> (m: Vec<String>)
        requires
            old(self).wf(),
        ensures
            final(self).wf(),
            crate::text::views(m@) == old(self).messages(text@, context_id@, reconnected),
            crate::text::views(m@) == if old(self).live_contexts(reconnected).contains(
                context_id@,
            ) {
                seq![text_message(text@, context_id@)]
            } else {
                seq![open_message(context_id@), text_message(text@, context_id@)]
            },
            final(self).contexts() == old(self).contexts_after(context_id@, reconnected),
            *final(self) == (ElevenLabsWsTtsProvider {
                initialized_contexts: final(self).initialized_contexts,
                ..*old(self)
            }),
    {
        if reconnected {
            self.forget_contexts();
        }
        let ghost live = self.contexts();
        let mut m: Vec<String> = Vec::new();
        if self.position_of(context_id).is_none() {
            if self.initialized_contexts.len() >= MAX_CONTEXTS {
                self.forget_contexts();
                assert(!self.contexts().contains(context_id@));
            }
            let ghost before = self.contexts();
            self.initialized_contexts.push(context_id.to_owned());
            assert(self.contexts() =~= before.push(context_id@));
            assert(self.contexts().no_duplicates()) by {
                assert forall|i: int, j: int|
                    0 <= i < self.contexts().len() && 0 <= j < self.contexts().len() && i
                        != j implies self.contexts()[i] != self.contexts()[j] by {
                    if i == before.len() {
                        assert(before.contains(before[j]));
                    } else if j == before.len() {
                        assert(before.contains(before[i]));
                    }
                }
            }
            assert(self.contexts() =~= old(self).contexts_after(context_id@, reconnected));
            m.push(write_text(" ", context_id));
        }
        m.push(write_text(text, context_id));
        assert(crate::text::views(m@) =~= if live.contains(context_id@) {
            seq![text_message(text@, context_id@)]
        } else {
            seq![open_message(context_id@), text_message(text@, context_id@)]
        });
        m
    }

    fn forget_context(&mut self, context_id: &str)
        requires
            old(self).wf(),
        ensures
            final(self).wf(),
            !final(self).contexts().contains(context_id@),
            forall|c: Seq<char>|
                c != context_id@ ==> #[trigger] final(self).contexts().contains(c) == old(
                    self,
                ).contexts().contains(c),
            *final(self) == (ElevenLabsWsTtsProvider {
                initialized_contexts: final(self).initialized_contexts,
                ..*old(self)
            }),
    {
        let ghost before = self.contexts();
        if let Some(k) = self.position_of(context_id) {
            let _gone = self.initialized_contexts.remove(k);
            assert(self.contexts() =~= before.remove(k as int));
            let after = Ghost(self.contexts());
            assert(after@.no_duplicates()) by {
                assert forall|i: int, j: int|
                    0 <= i < after@.len() && 0 <= j < after@.len() && i != j implies after@[i]
                    != after@[j] by {
                    let a = if i < k {
                        i
                    } else {
                        i + 1
                    };
                    let b = if j < k {
                        j
                    } else {
                        j + 1
                    };
                    assert(after@[i] == before[a] && after@[j] == before[b]);
                }
            }
            assert forall|c: Seq<char>| c != context_id@ implies #[trigger] after@.contains(c)
                == before.contains(c) by {
                if before.contains(c) {
                    let i = before.index_of(c);
                    let a = if i < k {
                        i
                    } else {
                        i - 1
                    };
                    assert(after@[a] == c);
                }
                if after@.contains(c) {
                    let i = after@.index_of(c);
                    let a = if i < k {
                        i
                    } else {
                        i + 1
                    };
                    assert(before[a] == c);
                }
            }
            assert(!after@.contains(context_id@)) by {
                if after@.contains(context_id@) {
                    let i = after@.index_of(context_id@);
                    let a = if i < k {
                        i
                    } else {
                        i + 1
                    };
                    assert(before[a] == before[k as int]);
                }
            }
        }
    }

    /// The message that ends a turn; its context is no longer open.
    pub fn flush(&mut self, context_id: &str) -> (m: String)
        requires
            old(self).wf(),
        ensures
            final(self).wf(),
            m@ == flag_message(context_id@, "flush"@),
            !final(self).contexts().contains(context_id@),
            forall|c: Seq<char>|
                c != context_id@ ==> #[trigger] final(self).contexts().contains(c) == old(
                    self,
                ).contexts().contains(c),
            *final(self) == (ElevenLabsWsTtsProvider {
                initialized_contexts: final(self).initialized_contexts,
                ..*old(self)
            }),
    {
        self.forget_context(context_id);
        write_flag(context_id, "flush")
    }

    /// The message that cancels a turn; its context is no longer open.
    pub fn cancel(&mut self, context_id: &str) -> (m: String)
        requires
            old(self).wf(),
        ensures
            final(self).wf(),
            m@ == flag_message(context_id@, "close_context"@),
            !final(self).contexts().contains(context_id@),
            forall|c: Seq<char>|
                c != context_id@ ==> #[trigger] final(self).contexts().contains(c) == old(
                    self,
                ).contexts().contains(c),
            *final(self) == (ElevenLabsWsTtsProvider {
                initialized_contexts: final(self).initialized_contexts,
                ..*old(self)
            }),
    {
        self.forget_context(context_id);
        write_flag(context_id, "close_context")
    }

    /// The connection is closed.
    pub fn close(&mut self)
        ensures
            final(self).wf(),
            final(self).contexts() == Seq::<Seq<char>>::empty(),
            *final(self) == (ElevenLabsWsTtsProvider {
                initialized_contexts: final(self).initialized_contexts,
                ..*old(self)
            }),
    {
        self.forget_contexts();
    }
}

/// A context is opened once: text that follows on the same connection, before the context ends,
/// does not open it again; and text after the connection was brought back does.
pub proof fn law_context_opened_once(p: ElevenLabsWsTtsProvider, c: Seq<char>, reconnected: bool)
    requires
        p.wf(),
    ensures
        p.contexts_after(c, reconnected).contains(c),
        !p.live_contexts(true).contains(c),
        p.contexts_after(c, reconnected).len() <= MAX_CONTEXTS,
{
    let live = p.live_contexts(reconnected);
    if !live.contains(c) {
        if live.len() >= MAX_CONTEXTS {
            assert(seq![c][0] == c);
        } else {
            assert(live.push(c)[live.len() as int] == c);
        }
    }
}

/// The text is sent last, to its context, and only a context that is not open on this connection is
/// opened before, with a single space.
pub proof fn law_text_follows_the_opening(
    p: ElevenLabsWsTtsProvider,
    text: Seq<char>,
    c: Seq<char>,
    reconnected: bool,
)
    ensures
        ({
            let m = p.messages(text, c, reconnected);
            &&& m.len() == if !reconnected && p.contexts().contains(c) {
                1int
            } else {
                2int
            }
            &&& m.last() == json::object_text(text_members(text, c))
            &&& m.len() == 2 ==> m[0] == json::object_text(text_members(" "@, c))
            &&& text_members(text, c).dom().contains("text"@) && text_members(text, c)["text"@]
                == json::quoted(text)
            &&& text_members(text, c).dom().contains("context_id"@) && text_members(
                text,
                c,
            )["context_id"@] == json::quoted(c)
            &&& forall|k: Seq<char>| #[trigger]
                text_members(text, c).dom().contains(k) ==> k == "text"@ || k == "context_id"@
        }),
{
    reveal_strlit("text");
    reveal_strlit("context_id");
    assert("text"@[0] == 't' && "context_id"@[0] == 'c');
}

/// Sending text keeps every context that was open on this connection, until as many are open as are
/// remembered: then all others are forgotten.
pub proof fn law_open_contexts_stay_open(
    p: ElevenLabsWsTtsProvider,
    c: Seq<char>,
    other: Seq<char>,
    reconnected: bool,
)
    ensures
        p.contexts_after(c, reconnected).contains(c),
        reconnected && other != c ==> !p.contexts_after(c, reconnected).contains(other),
        !reconnected && other != c && (p.contexts().contains(c) || p.contexts().len()
            < MAX_CONTEXTS) ==> p.contexts_after(c, reconnected).contains(other)
            == p.contexts().contains(other),
        !reconnected && other != c && !p.contexts().contains(c) && p.contexts().len()
            >= MAX_CONTEXTS ==> !p.contexts_after(c, reconnected).contains(other),
{
    let live = p.live_contexts(reconnected);
    let after = p.contexts_after(c, reconnected);
    if !live.contains(c) {
        if live.len() >= MAX_CONTEXTS {
            assert(after[0] == c);
        } else {
            assert(after[live.len() as int] == c);
            if live.contains(other) {
                assert(after[live.index_of(other)] == other);
            }
            if other != c && after.contains(other) {
                assert(live[after.index_of(other)] == other);
            }
        }
    }
}

/// The audio of a message comes first, under its turn; every chunk after it is an end of that turn
/// without audio: one where the message is final, one where it reports an error. Of a message with
/// audio that cannot be decoded nothing is handed on.
pub proof fn law_audio_comes_before_the_end(e: ElevenLabsEvent, i: int)
    requires
        0 <= i < event_chunks(e).len(),
    ensures
        ({
            let c = event_chunks(e);
            let heard = if e.audio is Some {
                1int
            } else {
                0int
            };
            &&& c[i].context_id == e.context_id@
            &&& i < heard ==> !c[i].is_final && (e.audio matches Some(a)
                && crate::base64_text::decoded(a@) == Some(c[i].pcm))
            &&& i >= heard ==> c[i].is_final && c[i].pcm.len() == 0
            &&& c.len() == heard + (if e.is_final {
                1int
            } else {
                0int
            }) + (if e.error is Some {
                1int
            } else {
                0int
            })
        }),
{
}

/// A message that is final, or reports an error, or holds audio that can be decoded is handed on.
pub proof fn law_messages_are_handed_on(e: ElevenLabsEvent)
    ensures
        event_chunks(e).len() == 0 <==> (e.audio matches Some(a)
            && crate::base64_text::decoded(a@) is None) || (e.audio is None && !e.is_final
            && e.error is None),
{
}

/// A flag is set on the context that is named, and nothing else is said.
pub proof fn law_flags_are_set_on_their_context(c: Seq<char>, flag: Seq<char>)
    requires
        flag != "context_id"@,
    ensures
        flag_members(c, flag).dom() == set!["context_id"@, flag],
        flag_members(c, flag)["context_id"@] == json::quoted(c),
        flag_members(c, flag)[flag] == "true"@,
{
    assert(flag_members(c, flag).dom() =~= set!["context_id"@, flag]);
}

/// Reading stops for an unknown voice, key or model and for a spent quota, and for nothing else: a
/// message without an error, or with any other one, lets it go on.
pub proof fn law_only_incurable_errors_stop(e: ElevenLabsEvent, error: Seq<char>)
    requires
        e.audio is None,
    ensures
        e.error is None ==> !stops(e),
        e.error matches Some(x) ==> x@ == error ==> (stops(e) <==> set![
            "voice_id_does_not_exist"@,
            "invalid_api_key"@,
            "quota_exceeded"@,
            "model_not_found"@,
        ].contains(error)),
{
}

} // verus!
