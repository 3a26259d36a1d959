//! Deepgram recognition over a WebSocket.
//!
//! An utterance comes in segments; the final ones are collected and reported together at the end
//! of the utterance.
use crate::clock::Millis;
use crate::providers::request::{one_header, text_or, ws_config, WsRequest};
use crate::providers::stt::event::SttEvent;
use crate::providers::ws::{WsConfig, WsKeepalive};
use crate::text::{concat, join, trim};
use vstd::prelude::*;

verus! {

/// What the report of a lost connection starts with.
pub const DISCONNECTED: &'static str = "deepgram WS disconnected: ";

/// One way to read what was said.
#[derive(Debug)]
pub struct DeepgramAlternative {
    pub transcript: String,
}

/// What was said on a channel: the ways to read it, the best one first.
#[derive(Debug)]
pub struct DeepgramChannel {
    pub alternatives: Vec<DeepgramAlternative>,
}

/// A result of the server.
#[derive(Debug)]
pub struct DeepgramResult {
    /// `"Results"` for text.
    pub msg_type: String,
    /// What was said, where the result tells.
    pub channel: Option<DeepgramChannel>,
    /// Whether the result answers a finalize request.
    pub from_finalize: bool,
    /// Whether the segment is final.
    pub is_final: bool,
    /// Whether the utterance is over.
    pub speech_final: bool,
}

fn first_transcript(r: &DeepgramResult) -> (text: String)
    ensures
        text@ == DeepgramSttProvider::text_of(*r),
{
    match &r.channel {
        Some(c) => if c.alternatives.len() > 0 {
            trim(c.alternatives[0].transcript.as_str())
        } else {
            String::new()
        },
        None => String::new(),
    }
}

/// Deepgram recognition.
#[derive(Debug)]
pub struct DeepgramSttProvider {
    pub model: String,
    pub language: String,
    /// Whether text of the current utterance was reported.
    pub sent_first_text: bool,
    /// The final segments of the current utterance.
    pub segments: Vec<String>,
}

impl DeepgramSttProvider {
    /// Segments are kept only of an utterance that was reported to have text.
    pub open spec fn wf(&self) -> bool {
        self.segments@.len() > 0 ==> self.sent_first_text
    }

    /// The text of a result: its first alternative without the space around it, or nothing.
    pub open spec fn text_of(r: DeepgramResult) -> Seq<char> {
        match r.channel {
            Some(c) if c.alternatives@.len() > 0 => crate::text::trimmed(
                c.alternatives@[0].transcript@,
            ),
            _ => Seq::empty(),
        }
    }

    /// The segments with that of a result: a final one always, another one where it ends the
    /// utterance.
    pub open spec fn segments_with(self, r: DeepgramResult) -> Seq<Seq<char>> {
        let segments = crate::text::views(self.segments@);
        if Self::text_of(r).len() > 0 && (r.is_final || r.speech_final || r.from_finalize) {
            segments.push(Self::text_of(r))
        } else {
            segments
        }
    }

    /// Whether a result counts: it holds text or ends an utterance.
    pub open spec fn counts(r: DeepgramResult) -> bool {
        r.msg_type@ == "Results"@ && (Self::text_of(r).len() > 0 || r.speech_final
            || r.from_finalize)
    }

    /// What a result is reported as.
    ///
    /// At the end of an utterance its text is reported; an empty one only where it was asked for,
    /// so that whoever asked is not left waiting.
    pub open spec fn reports(self, r: DeepgramResult) -> Seq<
        crate::providers::stt::event::SttView,
    > {
        let text = Self::text_of(r);
        let first = crate::providers::stt::event::with_first(
            text.len() > 0 && !self.sent_first_text,
        );
        let full = crate::text::trimmed(crate::text::joined(self.segments_with(r), " "@));
        if !Self::counts(r) {
            Seq::empty()
        } else if r.speech_final || r.from_finalize {
            if full.len() == 0 && !r.from_finalize {
                first
            } else {
                first.push(crate::providers::stt::event::SttView::Transcript(full))
            }
        } else if !r.is_final {
            first.push(crate::providers::stt::event::SttView::PartialTranscript(text))
        } else {
            first
        }
    }

    /// `next` is the provider after a result: at the end of an utterance all of it is forgotten,
    /// before that its text is remembered.
    pub open spec fn steps(self, r: DeepgramResult, next: DeepgramSttProvider) -> bool {
        let over = Self::counts(r) && (r.speech_final || r.from_finalize);
        &&& next.wf()
        &&& next.sent_first_text == (!over && (self.sent_first_text || (Self::counts(r)
            && Self::text_of(r).len() > 0)))
        &&& crate::text::views(next.segments@) == if over {
            Seq::empty()
        } else if Self::counts(r) {
            self.segments_with(r)
        } else {
            crate::text::views(self.segments@)
        }
    }

    /// A provider for a model and language.
    pub fn new(model: &str, language: &str) -> (p: Self)
        ensures
            p.wf(),
            p.model@ == crate::providers::request::nonempty_or(model@, "nova-3-general"@),
            p.language@ == crate::providers::request::nonempty_or(language@, "en"@),
            !p.sent_first_text,
            p.segments@.len() == 0,
    {
        DeepgramSttProvider {
            model: text_or(model, "nova-3-general"),
            language: text_or(language, "en"),
            sent_first_text: false,
            segments: Vec::new(),
        }
    }

    /// The name of the provider.
    pub fn provider_name(&self) -> (n: &'static str)
        ensures
            n@ == "deepgram"@,
    {
        "deepgram"
    }

    /// The handshake.
    pub fn request(&self, api_key: &str) -> (r: WsRequest)
        ensures
            r.url@ == "wss://api.deepgram.com/v1/listen?model="@ + self.model@ + "&language="@
                + self.language@
                + "&encoding=linear16&sample_rate=16000&interim_results=true&punctuate=true&smart_format=true"@,
            crate::providers::request::header_views(r.headers@) == seq![
                ("Authorization"@, "Token "@ + api_key@),
            ],
    {
        let mut url = concat("wss://api.deepgram.com/v1/listen?model=", self.model.as_str());
        url.append("&language=");
        url.append(self.language.as_str());
        url.append(
            "&encoding=linear16&sample_rate=16000&interim_results=true&punctuate=true&smart_format=true",
        );
        WsRequest { url, headers: one_header("Authorization", concat("Token ", api_key)) }
    }

    /// Starts a session, once the connection stands: nothing was said yet.
    pub fn connect(&mut self)
        ensures
            final(self).wf(),
            final(self).segments@.len() == 0,
            *final(self) == (DeepgramSttProvider {
                sent_first_text: false,
                segments: final(self).segments,
                ..*old(self)
            }),
    {
        self.sent_first_text = false;
        self.segments = Vec::new();
    }

    /// How the connection is kept: a message every five seconds.
    pub fn connection(&self) -> (c: WsConfig)
        ensures
            c.keepalive matches WsKeepalive::TextMessage { interval, message } && interval
                == crate::clock::millis(5_000_000_000) && message@
                == "{\"type\":\"KeepAlive\"}"@,
            c == (WsConfig {
                keepalive: c.keepalive,
                max_reconnect_attempts: 3,
                reconnect_delay: crate::clock::millis(1_000_000_000),
                max_total_reconnect_rounds: 5,
            }),
    {
        ws_config(
            WsKeepalive::TextMessage {
                interval: Millis { ns: 5_000_000_000 },
                message: "{\"type\":\"KeepAlive\"}".to_owned(),
            },
            5,
        )
    }

    /// The message that asks for the text of the current utterance.
    pub fn finalize(&self) -> (m: &'static str)
        ensures
            m@ == "{\"type\":\"Finalize\"}"@,
    {
        "{\"type\":\"Finalize\"}"
    }

    /// The message that closes the stream.
    pub fn close(&self) -> (m: &'static str)
        ensures
            m@ == "{\"type\":\"CloseStream\"}"@,
    {
        "{\"type\":\"CloseStream\"}"
    }

    /// Takes a result of the server.
    pub fn on_result(&mut self, r: &DeepgramResult) -> (events: Vec<SttEvent>)
        requires
            old(self).wf(),
        ensures
            final(self).wf(),
            old(self).steps(*r, *final(self)),
            crate::providers::stt::event::stt_views(events@) == old(self).reports(*r),
            final(self).model == old(self).model,
            final(self).language == old(self).language,
            ({
                let over = Self::counts(*r) && (r.speech_final || r.from_finalize);
                &&& final(self).sent_first_text == (!over && (old(self).sent_first_text
                    || (Self::counts(*r) && Self::text_of(*r).len() > 0)))
                &&& crate::text::views(final(self).segments@) == if over {
                    Seq::empty()
                } else if Self::counts(*r) {
                    old(self).segments_with(*r)
                } else {
                    crate::text::views(old(self).segments@)
                }
            }),
    {
        let mut events: Vec<SttEvent> = Vec::new();
        let text = first_transcript(r);
        let boundary = r.speech_final || r.from_finalize;
        let spoken = !text.as_str().is_empty();
        if !crate::text::same(r.msg_type.as_str(), "Results") || (!spoken && !boundary) {
            assert(crate::providers::stt::event::stt_views(events@) =~= old(self).reports(*r));
            return events;
        }
        if spoken && !self.sent_first_text {
            self.sent_first_text = true;
            events.push(SttEvent::FirstTextReceived);
        }
        if spoken && (r.is_final || boundary) {
            self.segments.push(text.clone());
            assert(crate::text::views(self.segments@) =~= crate::text::views(
                old(self).segments@,
            ).push(text@));
        }
        assert(crate::text::views(self.segments@) == old(self).segments_with(*r));
        if boundary {
            let joined = join(&self.segments, " ");
            let full = trim(joined.as_str());
            self.segments = Vec::new();
            assert(crate::text::views(self.segments@) =~= Seq::empty());
            self.sent_first_text = false;
            if !full.as_str().is_empty() || r.from_finalize {
                events.push(SttEvent::Transcript(full));
            }
        } else if !r.is_final {
            events.push(SttEvent::PartialTranscript(text));
        }
        assert(crate::providers::stt::event::stt_views(events@) =~= old(self).reports(*r));
        events
    }
}

/// Whoever asks for the text of an utterance gets an answer, even where nothing was said.
pub proof fn law_finalize_is_answered(p: DeepgramSttProvider, r: DeepgramResult)
    requires
        r.msg_type@ == "Results"@,
        r.from_finalize,
    ensures
        p.reports(r).len() > 0,
        p.reports(r).last() is Transcript,
{
}

/// That an utterance has text is reported once, before any of its text: a report of text either
/// follows that report in the same result, or comes after an earlier result of the utterance made
/// it.
pub proof fn law_first_text_comes_first(p: DeepgramSttProvider, r: DeepgramResult, i: int)
    requires
        p.wf(),
        0 <= i < p.reports(r).len(),
    ensures
        p.reports(r)[i] is FirstTextReceived ==> i == 0 && !p.sent_first_text,
        p.reports(r)[i] is PartialTranscript ==> p.sent_first_text || p.reports(
            r,
        )[0] is FirstTextReceived,
        p.reports(r)[i] matches crate::providers::stt::event::SttView::Transcript(t) && t.len() > 0
            ==> p.sent_first_text || p.reports(r)[0] is FirstTextReceived,
{
    if !p.sent_first_text && DeepgramSttProvider::text_of(r).len() == 0 {
        assert(p.segments_with(r) =~= Seq::empty());
        assert(crate::text::joined(p.segments_with(r), " "@) =~= Seq::empty());
        crate::text::lemma_trimmed_empty();
    }
}

/// What a result says, without space around it; nothing where it is no result or says nothing.
pub open spec fn said(r: DeepgramResult) -> Seq<char> {
    if r.msg_type@ != "Results"@ {
        Seq::empty()
    } else {
        match r.channel {
            Some(c) => if c.alternatives@.len() == 0 {
                Seq::empty()
            } else {
                crate::text::trimmed(c.alternatives@[0].transcript@)
            },
            None => Seq::empty(),
        }
    }
}

/// Whether a result ends an utterance, by itself or because that was asked for.
pub open spec fn ends_utterance(r: DeepgramResult) -> bool {
    r.msg_type@ == "Results"@ && (r.speech_final || r.from_finalize)
}

/// The texts of an utterance, in order: what its final results said, and what the one that ended it
/// said.
pub open spec fn utterance_texts(results: Seq<DeepgramResult>) -> Seq<Seq<char>>
    decreases results.len(),
{
    if results.len() == 0 {
        Seq::empty()
    } else {
        let before = utterance_texts(results.drop_last());
        let r = results.last();
        if said(r).len() > 0 && (r.is_final || ends_utterance(r)) {
            before.push(said(r))
        } else {
            before
        }
    }
}

/// Whether any of the results says something.
pub open spec fn anything_said(results: Seq<DeepgramResult>) -> bool {
    exists|i: int| 0 <= i < results.len() && said(#[trigger] results[i]).len() > 0
}

/// `states` are those of a provider over results none of which ends an utterance, from the start of
/// one on.
pub open spec fn is_utterance(states: Seq<DeepgramSttProvider>, results: Seq<DeepgramResult>) -> bool {
    &&& states.len() == results.len() + 1
    &&& states[0].segments@.len() == 0
    &&& !states[0].sent_first_text
    &&& forall|i: int|
        0 <= i < results.len() ==> (#[trigger] states[i]).steps(results[i], states[i + 1])
            && !ends_utterance(results[i])
}

proof fn lemma_utterance(states: Seq<DeepgramSttProvider>, results: Seq<DeepgramResult>)
    requires
        is_utterance(states, results),
    ensures
        crate::text::views(states.last().segments@) == utterance_texts(results),
        states.last().sent_first_text <==> anything_said(results),
    decreases results.len(),
{
    if results.len() == 0 {
        assert(crate::text::views(states.last().segments@) =~= Seq::empty());
    } else {
        let rs = results.drop_last();
        let ss = states.drop_last();
        assert forall|i: int| 0 <= i < rs.len() implies (#[trigger] ss[i]).steps(rs[i], ss[i + 1])
            && !ends_utterance(rs[i]) by {
            assert(states[i].steps(results[i], states[i + 1]));
        }
        lemma_utterance(ss, rs);
        let n = rs.len() as int;
        assert(states[n].steps(results[n], states[n + 1]));
        if anything_said(rs) {
            let i = choose|i: int| 0 <= i < rs.len() && said(#[trigger] rs[i]).len() > 0;
            assert(said(results[i]).len() > 0);
        }
        if anything_said(results) && said(results[n]).len() == 0 {
            let i = choose|i: int| 0 <= i < results.len() && said(#[trigger] results[i]).len() > 0;
            assert(said(rs[i]).len() > 0);
        }
    }
}

proof fn lemma_texts_are_trimmed(results: Seq<DeepgramResult>)
    ensures
        forall|i: int|
            0 <= i < utterance_texts(results).len()
                ==> (#[trigger] utterance_texts(results)[i]).len()
                > 0 && !crate::text::is_white_space(utterance_texts(results)[i][0])
                && !crate::text::is_white_space(utterance_texts(results)[i].last()),
    decreases results.len(),
{
    if results.len() > 0 {
        let before = utterance_texts(results.drop_last());
        lemma_texts_are_trimmed(results.drop_last());
        let r = results.last();
        let all = utterance_texts(results);
        assert forall|i: int| 0 <= i < all.len() implies (#[trigger] all[i]).len() > 0
            && !crate::text::is_white_space(all[i][0]) && !crate::text::is_white_space(
            all[i].last(),
        ) by {
            if i < before.len() {
                assert(all[i] == before[i]);
            } else {
                let s = r.channel->0.alternatives@[0].transcript@;
                crate::text::law_trimming_is_exact(s);
                let (a, b) = choose|a: int, b: int|
                    crate::text::is_trimming(s, crate::text::trimmed(s), a, b);
                assert(all[i] == s.subrange(a, b));
            }
        }
    }
}

proof fn lemma_joined_is_trimmed(parts: Seq<Seq<char>>)
    requires
        parts.len() > 0,
        forall|i: int|
            0 <= i < parts.len() ==> (#[trigger] parts[i]).len() > 0
                && !crate::text::is_white_space(parts[i][0]) && !crate::text::is_white_space(
                parts[i].last(),
            ),
    ensures
        ({
            let all = crate::text::joined(parts, " "@);
            &&& all.len() > 0
            &&& !crate::text::is_white_space(all[0])
            &&& !crate::text::is_white_space(all.last())
        }),
    decreases parts.len(),
{
    if parts.len() > 1 {
        let before = parts.drop_last();
        assert forall|i: int| 0 <= i < before.len() implies (#[trigger] before[i]).len() > 0
            && !crate::text::is_white_space(before[i][0]) && !crate::text::is_white_space(
            before[i].last(),
        ) by {
            assert(before[i] == parts[i]);
        }
        lemma_joined_is_trimmed(before);
        assert(parts[parts.len() - 1] == parts.last());
        let all = crate::text::joined(parts, " "@);
        assert(all[0] == crate::text::joined(before, " "@)[0]);
        assert(all.last() == parts.last().last());
    } else {
        assert(parts[0].len() > 0);
    }
}

/// Nothing that was final is left out. Over any results since the last utterance ended, the
/// transcript reported where the next one ends, whether by itself or because that was asked for, is
/// made of what all final results said and what the ending one said, in order, with a space between
/// each two. Where nothing was said, an empty one is reported if it was asked for, and none else.
pub proof fn law_transcript_holds_every_final_text(
    states: Seq<DeepgramSttProvider>,
    results: Seq<DeepgramResult>,
    end: DeepgramResult,
)
    requires
        is_utterance(states, results),
        ends_utterance(end),
    ensures
        ({
            let texts = utterance_texts(results.push(end));
            let reports = states.last().reports(end);
            &&& texts.len() > 0 ==> reports.len() > 0 && reports.last()
                == crate::providers::stt::event::SttView::Transcript(
                crate::text::joined(texts, " "@),
            )
            &&& texts.len() == 0 && end.from_finalize ==> reports.len() == 1 && reports[0]
                == crate::providers::stt::event::SttView::Transcript(Seq::empty())
            &&& texts.len() == 0 && !end.from_finalize ==> forall|i: int|
                0 <= i < reports.len() ==> !((#[trigger] reports[i]) is Transcript)
        }),
{
    lemma_utterance(states, results);
    let all = results.push(end);
    assert(all.drop_last() =~= results);
    let texts = utterance_texts(all);
    let p = states.last();
    assert(p.segments_with(end) =~= texts);
    lemma_texts_are_trimmed(all);
    if texts.len() > 0 {
        lemma_joined_is_trimmed(texts);
        crate::text::law_trimmed_text_stays(crate::text::joined(texts, " "@));
    } else {
        assert(crate::text::joined(texts, " "@) =~= Seq::empty());
        crate::text::lemma_trimmed_empty();
    }
}

/// That text was heard is reported with the first result of an utterance that says something, and
/// only with that; it comes before all else.
pub proof fn law_first_text_once_per_utterance(
    states: Seq<DeepgramSttProvider>,
    results: Seq<DeepgramResult>,
    r: DeepgramResult,
)
    requires
        is_utterance(states, results),
    ensures
        ({
            let reports = states.last().reports(r);
            let due = said(r).len() > 0 && !anything_said(results);
            &&& due ==> reports.len() > 0 && reports[0] is FirstTextReceived
            &&& forall|i: int|
                0 <= i < reports.len() && (!due || i > 0)
                    ==> !((#[trigger] reports[i]) is FirstTextReceived)
        }),
{
    lemma_utterance(states, results);
}

/// Text that may still change is reported as it is heard, without the texts before it; text that is
/// final waits for the end of the utterance.
pub proof fn law_only_unfinished_text_is_partial(p: DeepgramSttProvider, r: DeepgramResult, i: int)
    requires
        0 <= i < p.reports(r).len(),
    ensures
        p.reports(r)[i] matches crate::providers::stt::event::SttView::PartialTranscript(t) ==> t
            == said(r) && t.len() > 0 && !r.is_final && !ends_utterance(r),
        p.reports(r)[i] is Transcript ==> ends_utterance(r),
        !(p.reports(r)[i] is Error),
{
}

/// Text that may still change is always reported.
pub proof fn law_unfinished_text_is_reported(p: DeepgramSttProvider, r: DeepgramResult)
    requires
        said(r).len() > 0,
        !r.is_final,
        !ends_utterance(r),
    ensures
        p.reports(r).len() > 0,
        p.reports(r).last() == crate::providers::stt::event::SttView::PartialTranscript(said(r)),
{
}

/// The end of an utterance leaves nothing of it behind.
pub proof fn law_utterances_start_empty(
    p: DeepgramSttProvider,
    r: DeepgramResult,
    next: DeepgramSttProvider,
)
    requires
        p.steps(r, next),
        ends_utterance(r),
    ensures
        next.segments@.len() == 0,
        !next.sent_first_text,
{
    assert(crate::text::views(next.segments@).len() == next.segments@.len());
}

} // verus!
