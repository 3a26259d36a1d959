//! OpenAI Realtime recognition over a WebSocket.
use crate::clock::Millis;
use crate::json;
use crate::providers::request::{text_or, two_headers, ws_config, WsRequest};
use crate::providers::stt::event::SttEvent;
use crate::providers::ws::{WsConfig, WsKeepalive};
use crate::text::{concat, same, trim};
use vstd::prelude::*;

verus! {

/// What the report of a lost connection starts with.
pub const DISCONNECTED: &'static str = "openai-realtime STT disconnected: ";

/// OpenAI Realtime recognition.
#[derive(Debug)]
pub struct OpenAIRealtimeSttProvider {
    pub model: String,
    pub language: String,
    pub base_url: String,
    /// Whether text of the current utterance was reported.
    pub sent_first_text: bool,
}

/// A message of the server.
#[derive(Debug)]
pub struct RealtimeEvent {
    pub event_type: String,
    pub delta: String,
    pub transcript: String,
}

/// Reads a server message; none where it is not JSON.
pub fn read_event(text: &str) -> (e: Option<RealtimeEvent>)
    ensures
        e is Some <==> json::parsed(text@) is Some,
        e matches Some(x) ==> {
            let v = json::parsed(text@)->0;
            &&& x.event_type@ == json::or_empty(json::string_member(v, "type"@))
            &&& x.delta@ == json::or_empty(json::string_member(v, "delta"@))
            &&& x.transcript@ == json::or_empty(json::string_member(v, "transcript"@))
        },
{
    match json::parse(text) {
        Some(v) => Some(
            RealtimeEvent {
                event_type: json::get_string_or_empty(&v, "type"),
                delta: json::get_string_or_empty(&v, "delta"),
                transcript: json::get_string_or_empty(&v, "transcript"),
            },
        ),
        None => None,
    }
}

/// What a server message asks for.
#[derive(Debug)]
pub struct RealtimeStep {
    pub events: Vec<SttEvent>,
    /// A message to send back.
    pub reply: Option<String>,
}

/// The kinds of server messages that matter.
#[derive(Clone, Copy, Debug, PartialEq, Eq, Structural)]
pub enum RealtimeKind {
    /// The session exists and has to be configured.
    Created,
    /// A piece of text that may still change.
    Delta,
    /// The text of an utterance.
    Completed,
    /// Anything else.
    Other,
}

/// The kind of a message type.
pub open spec fn kind_of(event_type: Seq<char>) -> RealtimeKind {
    if event_type == "session.created"@ || event_type == "transcription_session.created"@ {
        RealtimeKind::Created
    } else if event_type == "conversation.item.input_audio_transcription.delta"@ {
        RealtimeKind::Delta
    } else if event_type == "conversation.item.input_audio_transcription.completed"@ {
        RealtimeKind::Completed
    } else {
        RealtimeKind::Other
    }
}

fn classify(event_type: &str) -> (k: RealtimeKind)
    ensures
        k == kind_of(event_type@),
{
    if same(event_type, "session.created") || same(event_type, "transcription_session.created") {
        RealtimeKind::Created
    } else if same(event_type, "conversation.item.input_audio_transcription.delta") {
        RealtimeKind::Delta
    } else if same(event_type, "conversation.item.input_audio_transcription.completed") {
        RealtimeKind::Completed
    } else {
        RealtimeKind::Other
    }
}

impl OpenAIRealtimeSttProvider {
    /// The message that configures the session: PCM16, the model and language, and no turn
    /// detection on the server.
    pub open spec fn session_update(self) -> Seq<char> {
        json::object_text(
            json::no_members().insert(
                "type"@,
                json::quoted("transcription_session.update"@),
            ).insert("session"@, json::object_text(self.session_members())),
        )
    }

    /// What the session is configured to.
    pub open spec fn session_members(self) -> Map<Seq<char>, Seq<char>> {
        json::no_members().insert("input_audio_format"@, json::quoted("pcm16"@)).insert(
            "input_audio_transcription"@,
            json::object_text(self.transcription_members()),
        ).insert("turn_detection"@, "null"@)
    }

    /// What the session transcribes with.
    pub open spec fn transcription_members(self) -> Map<Seq<char>, Seq<char>> {
        json::no_members().insert("model"@, json::quoted(self.model@)).insert(
            "language"@,
            json::quoted(self.language@),
        )
    }

    /// What a message is reported as.
    pub open spec fn reports(self, e: RealtimeEvent) -> Seq<
        crate::providers::stt::event::SttView,
    > {
        let final_text = crate::text::trimmed(e.transcript@);
        match kind_of(e.event_type@) {
            RealtimeKind::Delta => if e.delta@.len() > 0 {
                crate::providers::stt::event::with_first(!self.sent_first_text).push(
                    crate::providers::stt::event::SttView::PartialTranscript(e.delta@),
                )
            } else {
                Seq::empty()
            },
            RealtimeKind::Completed => if final_text.len() > 0 {
                crate::providers::stt::event::with_first(!self.sent_first_text).push(
                    crate::providers::stt::event::SttView::Transcript(final_text),
                )
            } else {
                Seq::empty()
            },
            _ => Seq::empty(),
        }
    }

    /// Whether text of the current utterance was reported, after a message.
    pub open spec fn sent_after(self, e: RealtimeEvent) -> bool {
        match kind_of(e.event_type@) {
            RealtimeKind::Delta => self.sent_first_text || e.delta@.len() > 0,
            RealtimeKind::Completed => self.sent_first_text && crate::text::trimmed(
                e.transcript@,
            ).len() == 0,
            _ => self.sent_first_text,
        }
    }

    /// A provider for a model and language.
    pub fn new(model: &str, language: &str) -> (p: Self)
        ensures
            p.model@ == crate::providers::request::nonempty_or(model@, "gpt-4o-transcribe"@),
            p.language@ == crate::providers::request::nonempty_or(language@, "en"@),
            p.base_url@ == "wss://api.openai.com/v1/realtime"@,
            !p.sent_first_text,
    {
        OpenAIRealtimeSttProvider {
            model: text_or(model, "gpt-4o-transcribe"),
            language: text_or(language, "en"),
            base_url: "wss://api.openai.com/v1/realtime".to_owned(),
            sent_first_text: false,
        }
    }

    /// The name of the provider.
    pub fn provider_name(&self) -> (n: &'static str)
        ensures
            n@ == "openai-realtime"@,
    {
        "openai-realtime"
    }

    /// The handshake.
    pub fn request(&self, api_key: &str) -> (r: WsRequest)
        ensures
            r.url@ == self.base_url@ + "?intent=transcription"@,
            crate::providers::request::header_views(r.headers@) == seq![
                ("Authorization"@, "Bearer "@ + api_key@),
                ("OpenAI-Beta"@, "realtime=v1"@),
            ],
    {
        WsRequest {
            url: concat(self.base_url.as_str(), "?intent=transcription"),
            headers: two_headers(
                "Authorization",
                concat("Bearer ", api_key),
                "OpenAI-Beta",
                "realtime=v1",
            ),
        }
    }

    /// Starts a session, once the connection stands: nothing was said yet.
    pub fn connect(&mut self)
        ensures
            *final(self) == (OpenAIRealtimeSttProvider { sent_first_text: false, ..*old(self) }),
    {
        self.sent_first_text = false;
    }

    /// How the connection is kept: a ping every 15 seconds.
    pub fn connection(&self) -> (c: WsConfig)
        ensures
            c == (WsConfig {
                keepalive: WsKeepalive::WsPing { interval: crate::clock::millis(15_000_000_000) },
                max_reconnect_attempts: 3,
                reconnect_delay: crate::clock::millis(1_000_000_000),
                max_total_reconnect_rounds: 5,
            }),
    {
        ws_config(WsKeepalive::WsPing { interval: Millis { ns: 15_000_000_000 } }, 5)
    }

    /// The message that sends audio, given at 24 kHz; none where there is none, which the server
    /// would reject.
    pub fn audio_message(&self, audio_24k: &[u8]) -> (m: Option<String>)
        requires
            audio_24k@.len() <= crate::base64_text::MAX_ENCODED_BYTES,
        ensures
            m is Some <==> audio_24k@.len() > 0,
            m matches Some(x) ==> x@ == json::object_text(
                json::no_members().insert(
                    "type"@,
                    json::quoted("input_audio_buffer.append"@),
                ).insert("audio"@, json::quoted(crate::base64_text::encoded(audio_24k@))),
            ),
            m is Some ==> crate::base64_text::decoded(crate::base64_text::encoded(audio_24k@))
                == Some(audio_24k@),
    {
        if audio_24k.len() == 0 {
            return None;
        }
        let audio = crate::base64_text::encode(audio_24k);
        let mut o = json::object();
        json::set(&mut o, "type", json::string("input_audio_buffer.append"));
        json::set(&mut o, "audio", json::string(audio.as_str()));
        Some(json::write_object(o))
    }

    /// The message that asks for the text of the audio sent so far.
    pub fn finalize(&self) -> (m: &'static str)
        ensures
            m@ == "{\"type\":\"input_audio_buffer.commit\"}"@,
    {
        "{\"type\":\"input_audio_buffer.commit\"}"
    }

    fn update_message(&self) -> (m: String)
        ensures
            m@ == self.session_update(),
    {
        let mut t = json::object();
        json::set(&mut t, "model", json::string(self.model.as_str()));
        json::set(&mut t, "language", json::string(self.language.as_str()));
        let mut s = json::object();
        json::set(&mut s, "input_audio_format", json::string("pcm16"));
        json::set(&mut s, "input_audio_transcription", json::nested(t));
        json::set(&mut s, "turn_detection", json::null());
        let mut o = json::object();
        json::set(&mut o, "type", json::string("transcription_session.update"));
        json::set(&mut o, "session", json::nested(s));
        json::write_object(o)
    }

    /// Takes a message of the server.
    pub fn on_event(&mut self, e: RealtimeEvent) -> (step: RealtimeStep)
        ensures
            crate::providers::stt::event::stt_views(step.events@) == old(self).reports(e),
            step.reply is Some <==> kind_of(e.event_type@) is Created,
            step.reply matches Some(m) ==> m@ == old(self).session_update(),
            *final(self) == (OpenAIRealtimeSttProvider {
                sent_first_text: old(self).sent_after(e),
                ..*old(self)
            }),
    {
        let mut events: Vec<SttEvent> = Vec::new();
        let mut reply: Option<String> = None;
        match classify(e.event_type.as_str()) {
            RealtimeKind::Created => {
                reply = Some(self.update_message());
            },
            RealtimeKind::Delta => {
                if !e.delta.as_str().is_empty() {
                    if !self.sent_first_text {
                        self.sent_first_text = true;
                        events.push(SttEvent::FirstTextReceived);
                    }
                    events.push(SttEvent::PartialTranscript(e.delta));
                }
            },
            RealtimeKind::Completed => {
                let text = trim(e.transcript.as_str());
                if !text.as_str().is_empty() {
                    if !self.sent_first_text {
                        events.push(SttEvent::FirstTextReceived);
                    }
                    self.sent_first_text = false;
                    events.push(SttEvent::Transcript(text));
                }
            },
            RealtimeKind::Other => {},
        }
        assert(crate::providers::stt::event::stt_views(events@) =~= old(self).reports(e));
        RealtimeStep { events, reply }
    }
}

/// That an utterance has text is reported once, before any of its text.
pub proof fn law_first_text_comes_first(p: OpenAIRealtimeSttProvider, e: RealtimeEvent, i: int)
    requires
        0 <= i < p.reports(e).len(),
    ensures
        p.reports(e)[i] is FirstTextReceived ==> i == 0 && !p.sent_first_text,
        p.reports(e)[i] is PartialTranscript ==> p.sent_first_text || p.reports(
            e,
        )[0] is FirstTextReceived,
        p.reports(e)[i] matches crate::providers::stt::event::SttView::Transcript(t) && t.len() > 0
            ==> p.sent_first_text || p.reports(e)[0] is FirstTextReceived,
{
}

/// A piece of text is reported as it is, and the text of an utterance without space around it, each
/// after the report of a first text where none was made since the last utterance. Nothing else is
/// reported, and nothing that holds no text.
pub proof fn law_texts_are_reported_as_they_are(p: OpenAIRealtimeSttProvider, e: RealtimeEvent)
    ensures
        ({
            let reports = p.reports(e);
            let n = reports.len();
            let piece = e.event_type@ == "conversation.item.input_audio_transcription.delta"@;
            let whole = e.event_type@ == "conversation.item.input_audio_transcription.completed"@;
            let text = crate::text::trimmed(e.transcript@);
            let holds = (piece && e.delta@.len() > 0) || (whole && text.len() > 0);
            &&& piece && e.delta@.len() > 0
                ==> n > 0
                && reports.last() == crate::providers::stt::event::SttView::PartialTranscript(
                e.delta@,
            ) && p.sent_after(e)
            &&& whole && text.len() > 0
                ==> n > 0
                && reports.last() == crate::providers::stt::event::SttView::Transcript(text)
                && !p.sent_after(e)
            &&& !holds ==> n == 0 && p.sent_after(e) == p.sent_first_text
            &&& holds ==> n == if p.sent_first_text {
                1int
            } else {
                2int
            }
            &&& n == 2 ==> reports[0] is FirstTextReceived
        }),
{
    reveal_strlit("session.created");
    reveal_strlit("transcription_session.created");
    reveal_strlit("conversation.item.input_audio_transcription.delta");
    reveal_strlit("conversation.item.input_audio_transcription.completed");
    assert("session.created"@[0] == 's');
    assert("transcription_session.created"@[0] == 't');
    assert("conversation.item.input_audio_transcription.delta"@[0] == 'c');
    assert("conversation.item.input_audio_transcription.completed"@[0] == 'c');
    assert("conversation.item.input_audio_transcription.delta"@.len()
        != "conversation.item.input_audio_transcription.completed"@.len());
}

/// The session is configured once it exists, whichever way the server says so, and only then.
pub proof fn law_session_is_configured_when_created(event_type: Seq<char>)
    ensures
        kind_of(event_type) is Created <==> event_type == "session.created"@ || event_type
            == "transcription_session.created"@,
{
}

/// The session is configured to the model and language of the provider, to PCM16, and not to detect
/// turns.
pub proof fn law_session_is_told_model_and_language(p: OpenAIRealtimeSttProvider)
    ensures
        ({
            let s = p.session_members();
            let t = p.transcription_members();
            &&& t.dom().contains("model"@) && t["model"@] == json::quoted(p.model@)
            &&& t.dom().contains("language"@) && t["language"@] == json::quoted(p.language@)
            &&& s.dom().contains("input_audio_transcription"@) && s["input_audio_transcription"@]
                == json::object_text(t)
            &&& s.dom().contains("input_audio_format"@) && s["input_audio_format"@] == json::quoted(
                "pcm16"@,
            )
            &&& s.dom().contains("turn_detection"@) && s["turn_detection"@] == "null"@
        }),
{
    reveal_strlit("model");
    reveal_strlit("language");
    reveal_strlit("input_audio_transcription");
    reveal_strlit("input_audio_format");
    reveal_strlit("turn_detection");
    assert("model"@.len() == 5 && "language"@.len() == 8);
    assert("input_audio_transcription"@.len() == 25 && "input_audio_format"@.len() == 18);
    assert("turn_detection"@.len() == 14);
}

} // verus!
