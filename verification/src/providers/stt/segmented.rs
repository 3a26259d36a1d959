//! Recognition by upload: the audio of an utterance is collected and posted at its end.
use crate::json;
use crate::providers::request::Header;
use crate::providers::stt::event::SttEvent;
use crate::text::trim;
use crate::wav::pcm_to_wav;
use vstd::prelude::*;

verus! {

/// A field of an upload form.
#[derive(Debug)]
pub struct FormField {
    pub name: &'static str,
    pub value: String,
}

/// An upload: a form with the file `audio.wav` and these fields.
#[derive(Debug)]
pub struct Upload {
    pub url: &'static str,
    pub headers: Vec<Header>,
    pub fields: Vec<FormField>,
    pub wav: Vec<u8>,
}

/// Fields as values.
pub open spec fn field_views(fields: Seq<FormField>) -> Seq<(Seq<char>, Seq<char>)> {
    fields.map_values(|f: FormField| (f.name@, f.value@))
}

/// What follows the end of an utterance.
#[derive(Debug)]
pub enum FinalizeStep {
    /// Nobody listens yet: what was said is discarded.
    Discard,
    /// Nothing was said: report that at once.
    Report(SttEvent),
    /// Upload the audio.
    Upload(Upload),
}

/// How an upload went.
#[derive(Debug)]
pub enum UploadOutcome {
    /// It could not be made, or was refused.
    Failed,
    /// The body of the response.
    Body(String),
}

/// `step` follows the end of an utterance with the audio `pcm`, for a provider that uploads to
/// `url` with these headers and fields.
///
/// Without audio an empty transcript is reported at once, so that no one is left waiting.
pub open spec fn is_finalize_step(
    step: FinalizeStep,
    connected: bool,
    pcm: Seq<u8>,
    url: Seq<char>,
    headers: Seq<(Seq<char>, Seq<char>)>,
    fields: Seq<(Seq<char>, Seq<char>)>,
) -> bool {
    if !connected {
        step is Discard
    } else if pcm.len() == 0 {
        &&& step matches FinalizeStep::Report(e)
        &&& e@ == crate::providers::stt::event::SttView::Transcript(Seq::empty())
    } else {
        &&& step matches FinalizeStep::Upload(u)
        &&& u.url@ == url
        &&& crate::providers::request::header_views(u.headers@) == headers
        &&& field_views(u.fields@) == fields
        &&& u.wav@ == crate::wav::wav_of_pcm(pcm)
    }
}

/// The step that follows the end of an utterance.
pub fn finalize_step(
    connected: bool,
    pcm: &[u8],
    url: &'static str,
    headers: Vec<Header>,
    fields: Vec<FormField>,
) -> (step: FinalizeStep)
    requires
        crate::wav::wav_bytes_fit(pcm@.len()),
    ensures
        is_finalize_step(
            step,
            connected,
            pcm@,
            url@,
            crate::providers::request::header_views(headers@),
            field_views(fields@),
        ),
{
    if !connected {
        FinalizeStep::Discard
    } else if pcm.len() == 0 {
        FinalizeStep::Report(SttEvent::Transcript(String::new()))
    } else {
        let wav = pcm_to_wav(pcm);
        FinalizeStep::Upload(Upload { url, headers, fields, wav })
    }
}

/// What a response is reported as. A failed upload is reported as nothing said, so that no one is
/// left waiting; a body that is not JSON is not reported at all.
pub open spec fn outcome_reports(o: UploadOutcome) -> Seq<crate::providers::stt::event::SttView> {
    match o {
        UploadOutcome::Failed => seq![
            crate::providers::stt::event::SttView::Transcript(Seq::empty()),
        ],
        UploadOutcome::Body(body) => match json::parsed(body@) {
            Some(v) => text_reports(json::or_empty(json::string_member(v, "text"@))),
            None => Seq::empty(),
        },
    }
}

/// What recognised text is reported as.
pub open spec fn text_reports(text: Seq<char>) -> Seq<crate::providers::stt::event::SttView> {
    let t = crate::text::trimmed(text);
    crate::providers::stt::event::with_first(t.len() > 0).push(
        crate::providers::stt::event::SttView::Transcript(t),
    )
}

/// Reports recognised text.
pub fn report_text(text: &str) -> (events: Vec<SttEvent>)
    ensures
        crate::providers::stt::event::stt_views(events@) == text_reports(text@),
{
    let mut events: Vec<SttEvent> = Vec::new();
    let t = trim(text);
    if !t.as_str().is_empty() {
        events.push(SttEvent::FirstTextReceived);
    }
    events.push(SttEvent::Transcript(t));
    assert(crate::providers::stt::event::stt_views(events@) =~= text_reports(text@));
    events
}

/// Takes the outcome of an upload.
pub fn on_outcome(o: &UploadOutcome) -> (events: Vec<SttEvent>)
    ensures
        crate::providers::stt::event::stt_views(events@) == outcome_reports(*o),
{
    let mut events: Vec<SttEvent> = Vec::new();
    match o {
        UploadOutcome::Failed => {
            events.push(SttEvent::Transcript(String::new()));
        },
        UploadOutcome::Body(body) => {
            if let Some(v) = json::parse(body.as_str()) {
                return report_text(json::get_string_or_empty(&v, "text").as_str());
            }
        },
    }
    assert(crate::providers::stt::event::stt_views(events@) =~= outcome_reports(*o));
    events
}

/// The end of an utterance is always answered: at once where nothing was said, and by exactly one
/// transcript where the upload failed or its body could be read.
pub proof fn law_upload_is_answered(o: UploadOutcome)
    requires
        o is Failed || (o matches UploadOutcome::Body(b) && json::parsed(b@) is Some),
    ensures
        outcome_reports(o).len() > 0,
        outcome_reports(o).last() is Transcript,
        forall|i: int|
            0 <= i < outcome_reports(o).len() - 1 ==> !(#[trigger] outcome_reports(
                o,
            )[i] is Transcript),
{
}

/// Recognised text is reported as it is, without space around it, after the report that there is
/// text where there is.
pub proof fn law_text_is_reported(text: Seq<char>)
    ensures
        text_reports(text).last()
            == crate::providers::stt::event::SttView::Transcript(crate::text::trimmed(text)),
        text_reports(text).len() == if crate::text::trimmed(text).len() > 0 {
            2int
        } else {
            1int
        },
        crate::text::trimmed(text).len() > 0 ==> text_reports(text)[0] is FirstTextReceived,
{
}

/// A failed upload is reported as an utterance in which nothing was said.
pub proof fn law_failed_upload_is_an_empty_transcript()
    ensures
        outcome_reports(UploadOutcome::Failed).len() == 1,
        outcome_reports(UploadOutcome::Failed)[0]
            == crate::providers::stt::event::SttView::Transcript(Seq::empty()),
{
}

/// Where someone listens, all audio of an utterance is uploaded, in order, as a WAV file of 16 kHz
/// mono; an utterance without audio is answered at once, and without a listener nothing happens.
pub proof fn law_whole_utterance_is_uploaded(
    step: FinalizeStep,
    connected: bool,
    pcm: Seq<u8>,
    url: Seq<char>,
    headers: Seq<(Seq<char>, Seq<char>)>,
    fields: Seq<(Seq<char>, Seq<char>)>,
)
    requires
        is_finalize_step(step, connected, pcm, url, headers, fields),
    ensures
        step is Upload <==> connected && pcm.len() > 0,
        step is Discard <==> !connected,
        step matches FinalizeStep::Report(e)
            ==> e@ == crate::providers::stt::event::SttView::Transcript(Seq::empty()),
        step matches FinalizeStep::Upload(u) ==> {
            &&& u.wav@.len() == 44 + pcm.len()
            &&& u.wav@.skip(44) == pcm
            &&& u.url@ == url
            &&& crate::providers::request::header_views(u.headers@) == headers
            &&& field_views(u.fields@) == fields
        },
{
    if step is Upload {
        let u = step->Upload_0;
        assert(u.wav@.skip(44) =~= pcm);
    }
}

} // verus!
