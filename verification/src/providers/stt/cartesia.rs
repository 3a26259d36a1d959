//! Cartesia recognition over a WebSocket.
use crate::clock::Millis;
use crate::providers::request::{text_or, two_headers, ws_config, WsRequest};
use crate::providers::stt::event::SttEvent;
use crate::providers::ws::{WsConfig, WsKeepalive};
use crate::text::{concat, same, trim};
use vstd::prelude::*;

verus! {

/// What the report of a lost connection starts with.
pub const DISCONNECTED: &'static str = "cartesia STT disconnected: ";

/// API version.
pub const CARTESIA_STT_API_VERSION: &'static str = "2025-04-16";

/// Bytes of 100 ms of silence at 16 kHz, which keep the connection from idling.
pub const SILENCE_BYTES: usize = 3200;

/// A message of the server.
#[derive(Debug)]
pub struct CartesiaTranscriptMsg {
    pub msg_type: String,
    pub text: String,
    pub is_final: bool,
}

/// Cartesia recognition.
#[derive(Debug)]
pub struct CartesiaSttProvider {
    pub model: String,
    pub language: String,
    /// Whether text of the current utterance was reported.
    pub sent_first_text: bool,
}

impl CartesiaSttProvider {
    /// Whether a message counts: a transcript that is final or holds text.
    pub open spec fn counts(m: CartesiaTranscriptMsg) -> bool {
        m.msg_type@ == "transcript"@ && (m.text@.len() > 0 || m.is_final)
    }

    /// What a message is reported as.
    pub open spec fn reports(self, m: CartesiaTranscriptMsg) -> Seq<
        crate::providers::stt::event::SttView,
    > {
        let first = crate::providers::stt::event::with_first(
            m.text@.len() > 0 && !self.sent_first_text,
        );
        if !Self::counts(m) {
            Seq::empty()
        } else if m.is_final {
            first.push(
                crate::providers::stt::event::SttView::Transcript(crate::text::trimmed(m.text@)),
            )
        } else {
            first.push(crate::providers::stt::event::SttView::PartialTranscript(m.text@))
        }
    }

    /// Whether text of the current utterance was reported, after a message.
    pub open spec fn sent_after(self, m: CartesiaTranscriptMsg) -> bool {
        if Self::counts(m) {
            !m.is_final
        } else {
            self.sent_first_text
        }
    }

    /// A provider for a model and language.
    pub fn new(model: &str, language: &str) -> (p: Self)
        ensures
            p.model@ == crate::providers::request::nonempty_or(model@, "ink-whisper"@),
            p.language@ == crate::providers::request::nonempty_or(language@, "en"@),
            !p.sent_first_text,
    {
        CartesiaSttProvider {
            model: text_or(model, "ink-whisper"),
            language: text_or(language, "en"),
            sent_first_text: false,
        }
    }

    /// The name of the provider.
    pub fn provider_name(&self) -> (n: &'static str)
        ensures
            n@ == "cartesia"@,
    {
        "cartesia"
    }

    /// The handshake.
    pub fn request(&self, api_key: &str) -> (r: WsRequest)
        ensures
            r.url@ == "wss://api.cartesia.ai/stt/websocket?model="@ + self.model@ + "&language="@
                + self.language@
                + "&encoding=pcm_s16le&sample_rate=16000&min_volume=0.01&max_silence_duration_secs=5.0"@,
            crate::providers::request::header_views(r.headers@) == seq![
                ("X-API-Key"@, api_key@),
                ("Cartesia-Version"@, CARTESIA_STT_API_VERSION@),
            ],
    {
        let mut url = concat("wss://api.cartesia.ai/stt/websocket?model=", self.model.as_str());
        url.append("&language=");
        url.append(self.language.as_str());
        url.append(
            "&encoding=pcm_s16le&sample_rate=16000&min_volume=0.01&max_silence_duration_secs=5.0",
        );
        WsRequest {
            url,
            headers: two_headers(
                "X-API-Key",
                api_key.to_owned(),
                "Cartesia-Version",
                CARTESIA_STT_API_VERSION,
            ),
        }
    }

    /// Starts a session, once the connection stands: nothing was said yet.
    pub fn connect(&mut self)
        ensures
            *final(self) == (CartesiaSttProvider { sent_first_text: false, ..*old(self) }),
    {
        self.sent_first_text = false;
    }

    /// How the connection is kept: silence every 30 seconds.
    pub fn connection(&self) -> (c: WsConfig)
        ensures
            c.keepalive matches WsKeepalive::BinaryMessage { interval, payload } && interval
                == crate::clock::millis(30_000_000_000) && payload@ == Seq::new(
                SILENCE_BYTES as nat,
                |i: int| 0u8,
            ),
            c == (WsConfig {
                keepalive: c.keepalive,
                max_reconnect_attempts: 3,
                reconnect_delay: crate::clock::millis(1_000_000_000),
                max_total_reconnect_rounds: 5,
            }),
    {
        let mut payload: Vec<u8> = Vec::new();
        payload.resize(SILENCE_BYTES, 0);
        assert(payload@ =~= Seq::new(SILENCE_BYTES as nat, |i: int| 0u8));
        ws_config(
            WsKeepalive::BinaryMessage { interval: Millis { ns: 30_000_000_000 }, payload },
            5,
        )
    }

    /// The message that asks for the text of the current utterance.
    pub fn finalize(&self) -> (m: &'static str)
        ensures
            m@ == "finalize"@,
    {
        "finalize"
    }

    /// Takes a message of the server.
    pub fn on_message(&mut self, m: CartesiaTranscriptMsg) -> (events: Vec<SttEvent>)
        ensures
            crate::providers::stt::event::stt_views(events@) == old(self).reports(m),
            final(self).sent_first_text == old(self).sent_after(m),
            *final(self) == (CartesiaSttProvider {
                sent_first_text: if Self::counts(m) {
                    !m.is_final
                } else {
                    old(self).sent_first_text
                },
                ..*old(self)
            }),
    {
        let mut events: Vec<SttEvent> = Vec::new();
        let spoken = !m.text.as_str().is_empty();
        if !same(m.msg_type.as_str(), "transcript") || (!spoken && !m.is_final) {
            assert(crate::providers::stt::event::stt_views(events@) =~= old(self).reports(m));
            return events;
        }
        if spoken && !self.sent_first_text {
            events.push(SttEvent::FirstTextReceived);
        }
        if m.is_final {
            self.sent_first_text = false;
            events.push(SttEvent::Transcript(trim(m.text.as_str())));
        } else {
            self.sent_first_text = true;
            events.push(SttEvent::PartialTranscript(m.text));
        }
        assert(crate::providers::stt::event::stt_views(events@) =~= old(self).reports(m));
        events
    }
}

/// That an utterance has text is reported once, before any of its text.
pub proof fn law_first_text_comes_first(p: CartesiaSttProvider, m: CartesiaTranscriptMsg, i: int)
    requires
        0 <= i < p.reports(m).len(),
    ensures
        p.reports(m)[i] is FirstTextReceived ==> i == 0 && !p.sent_first_text,
        p.reports(m)[i] is PartialTranscript ==> p.sent_first_text || p.reports(
            m,
        )[0] is FirstTextReceived,
        p.reports(m)[i] matches crate::providers::stt::event::SttView::Transcript(t) && t.len() > 0
            ==> p.sent_first_text || p.reports(m)[0] is FirstTextReceived,
{
    if m.text@.len() == 0 {
        assert(m.text@ =~= Seq::empty());
        crate::text::lemma_trimmed_empty();
    }
}

/// A transcript message is reported as what it is: a final one, also an empty one, as the text of
/// the utterance without space around it, another one that holds text as partial text, as it is. No
/// other message is reported. After a final one the next utterance starts.
pub proof fn law_messages_are_reported_as_they_are(p: CartesiaSttProvider, m: CartesiaTranscriptMsg)
    ensures
        ({
            let reports = p.reports(m);
            let n = reports.len();
            let heard = m.msg_type@ == "transcript"@;
            &&& heard && m.is_final
                ==> n > 0 && reports.last() == crate::providers::stt::event::SttView::Transcript(
                crate::text::trimmed(m.text@),
            ) && !p.sent_after(m)
            &&& heard && !m.is_final && m.text@.len() > 0 ==> n > 0 && reports.last()
                == crate::providers::stt::event::SttView::PartialTranscript(m.text@)
                    && p.sent_after(m)
            &&& !heard || (!m.is_final && m.text@.len() == 0) ==> n == 0 && p.sent_after(m)
                == p.sent_first_text
            &&& n <= 2
            &&& n == 2 ==> reports[0] is FirstTextReceived && !p.sent_first_text && m.text@.len()
                > 0
            &&& heard && m.text@.len() > 0 && !p.sent_first_text ==> n == 2
        }),
{
}

} // verus!
