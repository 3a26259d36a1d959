//! Deepgram Aura synthesis over a WebSocket.
//!
//! Audio comes as binary frames that do not say which turn they belong to, so the turn is tracked
//! on this side. After a barge-in, frames of the cancelled turn are dropped until the server
//! confirms.
use crate::clock::Millis;
use crate::json;
use crate::providers::request::{has_voice, one_header, text_or, ws_config, WsRequest};
use crate::providers::tts::stream::{end_of, TtsAudioChunk};
use crate::providers::ws::{WsConfig, WsKeepalive};
use crate::text::{concat, decimal_of, same};
use vstd::prelude::*;

verus! {

/// Deepgram Aura synthesis over a WebSocket.
#[derive(Debug)]
pub struct DeepgramWsTtsProvider {
    /// Voice, which is also the model.
    pub voice: String,
    pub output_sample_rate: u32,
    /// The turn that text was last sent for.
    pub context_id: String,
    /// The turn that was cancelled last.
    pub cancelled_context_id: String,
    /// Whether a cancelled turn is not confirmed yet.
    pub is_clearing: bool,
}

impl DeepgramWsTtsProvider {
    /// A provider for a voice.
    pub fn new(model: &str, output_sample_rate: u32) -> (p: Self)
        ensures
            p.voice@ == crate::providers::request::nonempty_or(model@, "aura-2-helena-en"@),
            p.output_sample_rate == output_sample_rate,
            p.context_id@ == Seq::<char>::empty(),
            p.cancelled_context_id@ == Seq::<char>::empty(),
            !p.is_clearing,
    {
        DeepgramWsTtsProvider {
            voice: text_or(model, "aura-2-helena-en"),
            output_sample_rate,
            context_id: String::new(),
            cancelled_context_id: String::new(),
            is_clearing: false,
        }
    }

    /// The name of the provider.
    pub fn provider_name(&self) -> (n: &'static str)
        ensures
            n@ == "deepgram-ws"@,
    {
        "deepgram-ws"
    }

    /// Sets the voice, where one is named. The handshake names the voice, so this counts from the
    /// next one on: that of the first connection, or of one that brings it back.
    pub fn set_voice(&mut self, voice_id: &str)
        ensures
            final(self).voice@ == if crate::providers::request::names_voice(voice_id@) {
                voice_id@
            } else {
                old(self).voice@
            },
            *final(self) == (DeepgramWsTtsProvider { voice: final(self).voice, ..*old(self) }),
    {
        if has_voice(voice_id) {
            self.voice = voice_id.to_owned();
        }
    }

    /// The handshake, for the voice as it is set now.
    pub fn request(&self, api_key: &str) -> (r: WsRequest)
        ensures
            r.url@ == "wss://api.deepgram.com/v1/speak?model="@ + self.voice@
                + "&encoding=linear16&sample_rate="@ + crate::text::decimal(
                self.output_sample_rate as nat,
            ),
            crate::providers::request::header_views(r.headers@) == seq![
                ("Authorization"@, "Token "@ + api_key@),
            ],
    {
        let mut url = concat("wss://api.deepgram.com/v1/speak?model=", self.voice.as_str());
        url.append("&encoding=linear16&sample_rate=");
        url.append(decimal_of(self.output_sample_rate as u64).as_str());
        WsRequest { url, headers: one_header("Authorization", concat("Token ", api_key)) }
    }

    /// Starts a session, once the connection stands: no turn is current yet, and none is cancelled.
    /// A connection that comes back goes on with the session that it was lost in.
    pub fn connect(&mut self)
        ensures
            final(self).context_id@ == Seq::<char>::empty(),
            final(self).cancelled_context_id@ == Seq::<char>::empty(),
            *final(self) == (DeepgramWsTtsProvider {
                context_id: final(self).context_id,
                cancelled_context_id: final(self).cancelled_context_id,
                is_clearing: false,
                ..*old(self)
            }),
    {
        self.context_id = String::new();
        self.cancelled_context_id = String::new();
        self.is_clearing = false;
    }

    /// How the connection is kept: a ping every five seconds. The server closes it after every
    /// turn, so it is brought back without end.
    pub fn connection(&self) -> (c: WsConfig)
        ensures
            c == (WsConfig {
                keepalive: WsKeepalive::WsPing { interval: crate::clock::millis(5_000_000_000) },
                max_reconnect_attempts: 3,
                reconnect_delay: crate::clock::millis(1_000_000_000),
                max_total_reconnect_rounds: u32::MAX,
            }),
    {
        ws_config(WsKeepalive::WsPing { interval: Millis { ns: 5_000_000_000 } }, u32::MAX)
    }

    /// The message that adds `text` to a turn, which becomes the current one.
    pub fn send_text(&mut self, text: &str, context_id: &str) -> (m: String)
        ensures
            m@ == json::object_text(
                json::no_members().insert("type"@, json::quoted("Speak"@)).insert(
                    "text"@,
                    json::quoted(text@),
                ),
            ),
            old(self).sends(context_id@, *final(self)),
            final(self).context_id@ == context_id@,
            *final(self) == (DeepgramWsTtsProvider {
                context_id: final(self).context_id,
                ..*old(self)
            }),
    {
        self.context_id = context_id.to_owned();
        let mut o = json::object();
        json::set(&mut o, "type", json::string("Speak"));
        json::set(&mut o, "text", json::string(text));
        json::write_object(o)
    }

    /// The message that ends a turn.
    pub fn flush(&self) -> (m: &'static str)
        ensures
            m@ == "{\"type\":\"Flush\"}"@,
    {
        "{\"type\":\"Flush\"}"
    }

    /// The message that cancels a turn. From now on its audio is dropped until the server confirms.
    pub fn cancel(&mut self, context_id: &str) -> (m: &'static str)
        ensures
            m@ == "{\"type\":\"Clear\"}"@,
            old(self).cancels(context_id@, *final(self)),
            final(self).cancelled_context_id@ == context_id@,
            *final(self) == (DeepgramWsTtsProvider {
                cancelled_context_id: final(self).cancelled_context_id,
                is_clearing: true,
                ..*old(self)
            }),
    {
        self.cancelled_context_id = context_id.to_owned();
        self.is_clearing = true;
        "{\"type\":\"Clear\"}"
    }

    /// The message that closes the connection.
    pub fn close(&self) -> (m: &'static str)
        ensures
            m@ == "{\"type\":\"Close\"}"@,
    {
        "{\"type\":\"Close\"}"
    }

    /// A binary frame: audio of the current turn, or of the cancelled one and dropped.
    pub fn on_binary(&self, pcm: Vec<u8>) -> (c: Option<TtsAudioChunk>)
        ensures
            c is Some <==> self.binary_chunk(pcm@) is Some,
            c matches Some(x) ==> self.binary_chunk(pcm@) == Some(x@),
            c is Some <==> !self.is_clearing,
            c matches Some(x) ==> x@ == crate::providers::tts::stream::audio_chunk(
                pcm@,
                self.context_id@,
            ),
    {
        if self.is_clearing {
            return None;
        }
        Some(TtsAudioChunk { pcm, is_final: false, context_id: self.context_id.clone() })
    }

    /// Reads the type of a text frame; none where it is not JSON.
    pub fn read_type(text: &str) -> (t: Option<String>)
        ensures
            t is Some <==> json::parsed(text@) is Some,
            t matches Some(x) ==> x@ == json::or_empty(
                json::string_member(json::parsed(text@)->0, "type"@),
            ),
    {
        match json::parse(text) {
            Some(v) => Some(json::get_string_or_empty(&v, "type")),
            None => None,
        }
    }

    /// What a text frame of the given type ends: the current turn where all its audio was sent, the
    /// cancelled one where the server confirms that.
    pub open spec fn ended_by(self, msg_type: Seq<char>) -> Option<Seq<char>> {
        if msg_type == "Flushed"@ {
            Some(self.context_id@)
        } else if msg_type == "Cleared"@ {
            Some(self.cancelled_context_id@)
        } else {
            None
        }
    }

    /// The provider after a text frame of the given type.
    pub open spec fn after_type(self, msg_type: Seq<char>) -> Self {
        DeepgramWsTtsProvider {
            is_clearing: self.is_clearing && msg_type != "Cleared"@,
            ..self
        }
    }

    /// What a binary frame stands for.
    pub open spec fn binary_chunk(self, pcm: Seq<u8>) -> Option<
        crate::providers::tts::stream::ChunkView,
    > {
        if self.is_clearing {
            None
        } else {
            Some(crate::providers::tts::stream::audio_chunk(pcm, self.context_id@))
        }
    }

    /// `next` is the provider after text was sent for a turn.
    pub open spec fn sends(self, context_id: Seq<char>, next: Self) -> bool {
        &&& next.context_id@ == context_id
        &&& next == (DeepgramWsTtsProvider { context_id: next.context_id, ..self })
    }

    /// `next` is the provider after a turn was cancelled.
    pub open spec fn cancels(self, context_id: Seq<char>, next: Self) -> bool {
        &&& next.cancelled_context_id@ == context_id
        &&& next == (DeepgramWsTtsProvider {
            cancelled_context_id: next.cancelled_context_id,
            is_clearing: true,
            ..self
        })
    }

    /// A text frame of the given type.
    pub fn on_text_type(&mut self, msg_type: &str) -> (c: Option<TtsAudioChunk>)
        ensures
            c is Some <==> old(self).ended_by(msg_type@) is Some,
            c matches Some(x) ==> x@ == crate::providers::tts::stream::final_chunk(
                old(self).ended_by(msg_type@)->0,
            ),
            *final(self) == old(self).after_type(msg_type@),
            *final(self) == (DeepgramWsTtsProvider {
                is_clearing: old(self).is_clearing && msg_type@ != "Cleared"@,
                ..*old(self)
            }),
    {
        proof {
            reveal_strlit("Flushed");
            reveal_strlit("Cleared");
            assert("Flushed"@[0] == 'F');
            assert("Cleared"@[0] == 'C');
        }
        if same(msg_type, "Flushed") {
            Some(end_of(self.context_id.clone()))
        } else if same(msg_type, "Cleared") {
            self.is_clearing = false;
            Some(end_of(self.cancelled_context_id.clone()))
        } else {
            None
        }
    }

    /// A text frame.
    pub fn on_text(&mut self, text: &str) -> (c: Option<TtsAudioChunk>)
        ensures
            match json::parsed(text@) {
                Some(v) => {
                    let t = json::or_empty(json::string_member(v, "type"@));
                    &&& c is Some <==> old(self).ended_by(t) is Some
                    &&& c matches Some(x) ==> x@ == crate::providers::tts::stream::final_chunk(
                        old(self).ended_by(t)->0,
                    )
                    &&& *final(self) == (DeepgramWsTtsProvider {
                        is_clearing: old(self).is_clearing && t != "Cleared"@,
                        ..*old(self)
                    })
                },
                None => c is None && *final(self) == *old(self),
            },
    {
        match Self::read_type(text) {
            Some(t) => self.on_text_type(t.as_str()),
            None => None,
        }
    }
}

/// No audio of a cancelled turn reaches the next one: between the cancellation and its confirmation
/// no binary frame is handed on, and the confirmation ends the cancelled turn, not the current one.
pub proof fn law_cancelled_audio_is_dropped(
    before: DeepgramWsTtsProvider,
    cancelled: DeepgramWsTtsProvider,
    speaking: DeepgramWsTtsProvider,
    old_turn: Seq<char>,
    new_turn: Seq<char>,
)
    requires
        cancelled == (DeepgramWsTtsProvider {
            cancelled_context_id: cancelled.cancelled_context_id,
            is_clearing: true,
            ..before
        }),
        cancelled.cancelled_context_id@ == old_turn,
        speaking == (DeepgramWsTtsProvider { context_id: speaking.context_id, ..cancelled }),
        speaking.context_id@ == new_turn,
    ensures
        speaking.is_clearing,
        speaking.ended_by("Cleared"@) == Some(old_turn),
        speaking.ended_by("Flushed"@) == Some(new_turn),
{
    reveal_strlit("Flushed");
    reveal_strlit("Cleared");
    assert("Flushed"@[0] == 'F');
    assert("Cleared"@[0] == 'C');
}

/// After a barge-in no audio is handed on until the server confirms it; then the audio is that of the
/// turn that text was sent for in between. The confirmation ends the cancelled turn, and the end of
/// the audio ends the current one.
pub proof fn law_audio_goes_on_after_the_confirmation(
    before: DeepgramWsTtsProvider,
    cancelled: DeepgramWsTtsProvider,
    sent: DeepgramWsTtsProvider,
    old_turn: Seq<char>,
    new_turn: Seq<char>,
    pcm: Seq<u8>,
    other: Seq<char>,
)
    requires
        before.cancels(old_turn, cancelled),
        cancelled.sends(new_turn, sent),
        other != "Cleared"@,
    ensures
        cancelled.binary_chunk(pcm) is None,
        sent.binary_chunk(pcm) is None,
        sent.after_type(other).binary_chunk(pcm) is None,
        sent.ended_by("Cleared"@) == Some(old_turn),
        sent.ended_by("Flushed"@) == Some(new_turn),
        sent.after_type("Cleared"@).binary_chunk(pcm) matches Some(c) && c.pcm == pcm
            && c.context_id == new_turn && !c.is_final,
        other != "Flushed"@ ==> sent.ended_by(other) is None,
{
    reveal_strlit("Flushed");
    reveal_strlit("Cleared");
    assert("Flushed"@[0] == 'F');
    assert("Cleared"@[0] == 'C');
}

/// Where no turn is being cancelled all audio is handed on, as it came and for the current turn, and
/// no text frame stops it.
pub proof fn law_audio_is_that_of_the_current_turn(
    p: DeepgramWsTtsProvider,
    pcm: Seq<u8>,
    msg_type: Seq<char>,
)
    requires
        !p.is_clearing,
    ensures
        p.binary_chunk(pcm) matches Some(c) && c.pcm == pcm && c.context_id == p.context_id@
            && !c.is_final,
        p.after_type(msg_type) == p,
{
}

} // verus!
