//! Recognition by a speech-inference server over a WebSocket.
use crate::providers::stt::event::SttEvent;
use crate::text::{replace, trim};
use vstd::prelude::*;

verus! {

/// A transcript of the server.
#[derive(Debug)]
pub struct TranscriptResult {
    pub is_final: bool,
    pub text: String,
}

/// Recognition by a speech-inference server.
#[derive(Debug)]
pub struct BuiltinSttProvider {
    pub ws_url: String,
    /// Whether text of the current utterance was reported.
    pub sent_first_text: bool,
}

/// The URL of a server, with its HTTP schemes turned into WebSocket ones.
pub open spec fn ws_base(base_url: Seq<char>) -> Seq<char> {
    crate::text::replaced(
        crate::text::replaced(base_url, "http://"@, "ws://"@),
        "https://"@,
        "wss://"@,
    )
}

impl BuiltinSttProvider {
    /// What a transcript is reported as: only a final one is, once it holds text.
    pub open spec fn reports(self, t: TranscriptResult) -> Seq<
        crate::providers::stt::event::SttView,
    > {
        let text = crate::text::trimmed(t.text@);
        let first = crate::providers::stt::event::with_first(
            text.len() > 0 && !self.sent_first_text,
        );
        if t.is_final && text.len() > 0 {
            first.push(crate::providers::stt::event::SttView::Transcript(text))
        } else {
            first
        }
    }

    /// Whether text of the current utterance was reported, after a transcript.
    pub open spec fn sent_after(self, t: TranscriptResult) -> bool {
        if crate::text::trimmed(t.text@).len() > 0 {
            !t.is_final
        } else {
            self.sent_first_text
        }
    }

    /// A provider for a server and language.
    pub fn new(base_url: &str, language: &str) -> (p: Self)
        ensures
            p.ws_url@ == ws_base(base_url@) + "/v1/listen?language="@ + language@,
            !p.sent_first_text,
    {
        proof {
            reveal_strlit("http://");
            reveal_strlit("https://");
        }
        let plain = replace(base_url, "http://", "ws://");
        let mut ws_url = replace(plain.as_str(), "https://", "wss://");
        ws_url.append("/v1/listen?language=");
        ws_url.append(language);
        BuiltinSttProvider { ws_url, sent_first_text: false }
    }

    /// The name of the provider.
    pub fn provider_name(&self) -> (n: &'static str)
        ensures
            n@ == "builtin"@,
    {
        "builtin"
    }

    /// Starts a session, once the connection stands: nothing was said yet.
    pub fn connect(&mut self)
        ensures
            *final(self) == (BuiltinSttProvider { sent_first_text: false, ..*old(self) }),
    {
        self.sent_first_text = false;
    }

    /// The message that asks for the text of the current utterance.
    pub fn finalize(&self) -> (m: &'static str)
        ensures
            m@ == "{\"finalize\": {}}"@,
    {
        "{\"finalize\": {}}"
    }

    /// The message that closes the stream.
    pub fn close(&self) -> (m: &'static str)
        ensures
            m@ == "{\"close\": {}}"@,
    {
        "{\"close\": {}}"
    }

    /// Takes a transcript of the server.
    pub fn on_transcript(&mut self, t: &TranscriptResult) -> (events: Vec<SttEvent>)
        ensures
            crate::providers::stt::event::stt_views(events@) == old(self).reports(*t),
            final(self).sent_first_text == old(self).sent_after(*t),
            *final(self) == (BuiltinSttProvider {
                sent_first_text: if crate::text::trimmed(t.text@).len() > 0 {
                    !t.is_final
                } else {
                    old(self).sent_first_text
                },
                ..*old(self)
            }),
    {
        let mut events: Vec<SttEvent> = Vec::new();
        let text = trim(t.text.as_str());
        let spoken = !text.as_str().is_empty();
        if spoken && !self.sent_first_text {
            self.sent_first_text = true;
            events.push(SttEvent::FirstTextReceived);
        }
        if t.is_final && spoken {
            self.sent_first_text = false;
            events.push(SttEvent::Transcript(text));
        }
        assert(crate::providers::stt::event::stt_views(events@) =~= old(self).reports(*t));
        events
    }
}

/// That an utterance has text is reported once, before any of its text.
pub proof fn law_first_text_comes_first(p: BuiltinSttProvider, m: TranscriptResult, i: int)
    requires
        0 <= i < p.reports(m).len(),
    ensures
        p.reports(m)[i] is FirstTextReceived ==> i == 0 && !p.sent_first_text,
        p.reports(m)[i] is PartialTranscript ==> p.sent_first_text || p.reports(
            m,
        )[0] is FirstTextReceived,
        p.reports(m)[i] matches crate::providers::stt::event::SttView::Transcript(t) && t.len() > 0
            ==> p.sent_first_text || p.reports(m)[0] is FirstTextReceived,
{
}

/// A final transcript that holds text is reported, without space around it, and ends the utterance;
/// the first text of an utterance is announced, and nothing else is reported.
pub proof fn law_final_texts_are_reported(p: BuiltinSttProvider, t: TranscriptResult)
    ensures
        ({
            let reports = p.reports(t);
            let text = crate::text::trimmed(t.text@);
            let n = reports.len();
            &&& text.len() == 0 ==> n == 0 && p.sent_after(t) == p.sent_first_text
            &&& text.len() > 0 && t.is_final
                ==> n > 0
                && reports.last() == crate::providers::stt::event::SttView::Transcript(text)
                && !p.sent_after(t)
            &&& text.len() > 0 && !t.is_final ==> p.sent_after(t)
            &&& text.len() > 0 ==> n == (if p.sent_first_text {
                0int
            } else {
                1int
            }) + (if t.is_final {
                1int
            } else {
                0int
            })
            &&& n > 0 && !p.sent_first_text ==> reports[0] is FirstTextReceived
        }),
{
}

/// The scheme of a server's URL is turned into that of its WebSocket, a secure one into a secure one,
/// and what follows it stays.
pub proof fn law_schemes_are_turned(host: Seq<char>)
    requires
        host.len() > 0 ==> host[0] != '/',
        forall|k: int| 0 <= k < host.len() - 1
            ==> !(#[trigger] host[k] == '/' && host[k + 1] == '/'),
    ensures
        ws_base("http://"@ + host) == "ws://"@ + host,
        ws_base("https://"@ + host) == "wss://"@ + host,
{
    reveal_strlit("http://");
    reveal_strlit("https://");
    reveal_strlit("ws://");
    reveal_strlit("wss://");
    let plain = "http://"@;
    let secure = "https://"@;
    assert(plain.len() == 7 && plain[0] == 'h' && plain[4] == ':' && plain[5] == '/' && plain[6]
        == '/');
    assert(secure.len() == 8 && secure[1] == 't' && secure[6] == '/' && secure[7] == '/');
    let ws = "ws://"@;
    let wss = "wss://"@;
    assert(ws.len() == 5 && ws[2] == ':' && ws[3] == '/' && ws[4] == '/');
    assert(wss.len() == 6 && wss[3] == ':' && wss[4] == '/' && wss[5] == '/');
    lemma_stays(host, plain);
    lemma_stays(host, secure);
    let a = plain + host;
    assert(a.subrange(0, 7) =~= plain);
    crate::text::law_replacing_goes_on(a, plain, ws, 0);
    assert(a.skip(7) =~= host);
    assert(a.take(0) + ws + host =~= ws + host);
    lemma_no_scheme(ws, host, secure);
    crate::text::law_replacing_goes_on(ws + host, secure, wss, (ws + host).len() as int);
    let b = secure + host;
    lemma_no_scheme(secure, host, plain);
    crate::text::law_replacing_goes_on(b, plain, ws, b.len() as int);
    assert(b.subrange(0, 8) =~= secure);
    crate::text::law_replacing_goes_on(b, secure, wss, 0);
    assert(b.skip(8) =~= host);
    assert(b.take(0) + wss + host =~= wss + host);
}

/// A scheme does not occur where no two slashes follow each other.
proof fn lemma_stays(host: Seq<char>, p: Seq<char>)
    requires
        p.len() >= 2,
        p[p.len() - 2] == '/' && p.last() == '/',
        forall|k: int| 0 <= k < host.len() - 1
            ==> !(#[trigger] host[k] == '/' && host[k + 1] == '/'),
    ensures
        forall|q: Seq<char>| #[trigger] crate::text::replaced(host, p, q) == host,
{
    assert forall|q: Seq<char>| #[trigger] crate::text::replaced(host, p, q) == host by {
        assert forall|k: int| 0 <= k < host.len() implies !crate::text::occurs_at(host, p, k) by {
            if crate::text::occurs_at(host, p, k) {
                let n = p.len() as int;
                let part = host.subrange(k, k + n);
                assert(part[n - 2] == host[k + n - 2] && part[n - 1] == host[k + n - 1]);
            }
        }
        crate::text::law_replacing_goes_on(host, p, q, host.len() as int);
    }
}

/// Behind one scheme, another does not occur.
proof fn lemma_no_scheme(scheme: Seq<char>, host: Seq<char>, p: Seq<char>)
    requires
        host.len() > 0 ==> host[0] != '/',
        forall|k: int| 0 <= k < host.len() - 1
            ==> !(#[trigger] host[k] == '/' && host[k + 1] == '/'),
        (scheme == "ws://"@ && p == "https://"@) || (scheme == "https://"@ && p == "http://"@),
    ensures
        forall|k: int|
            0 <= k < (scheme + host).len() ==> !crate::text::occurs_at(scheme + host, p, k),
{
    reveal_strlit("http://");
    reveal_strlit("https://");
    reveal_strlit("ws://");
    let s = scheme + host;
    let n = p.len() as int;
    let m = scheme.len() as int;
    assert forall|k: int| 0 <= k < s.len() implies !crate::text::occurs_at(s, p, k) by {
        if crate::text::occurs_at(s, p, k) {
            let part = s.subrange(k, k + n);
            let i = k + n - 2;
            assert(part[n - 2] == s[i] && part[n - 1] == s[i + 1] && part[0] == s[k]);
            assert(p[n - 2] == '/' && p[n - 1] == '/' && p[0] == 'h');
            if i >= m {
                assert(host[i - m] == '/' && host[i - m + 1] == '/');
            } else if i == m - 1 {
                assert(host[0] == '/');
            } else {
                assert("https://"@[1] == 't' && "https://"@[6] == '/' && "https://"@[5] == ':');
                assert("ws://"@[3] == '/');
            }
        }
    }
}

} // verus!
