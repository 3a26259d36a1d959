//! OpenAI Whisper recognition by upload.
use crate::providers::request::{one_header, text_or};
use crate::providers::stt::segmented::{finalize_step, FinalizeStep, FormField};
use crate::text::concat;
use vstd::prelude::*;

verus! {

/// OpenAI Whisper recognition.
#[derive(Debug)]
pub struct OpenAiWhisperSttProvider {
    pub model: String,
    /// The language without its region.
    pub language: String,
    /// Whether someone listens for the transcripts.
    pub connected: bool,
    /// The audio of the current utterance.
    pub pcm: Vec<u8>,
}

impl OpenAiWhisperSttProvider {
    /// The fields of an upload.
    pub open spec fn fields(self) -> Seq<(Seq<char>, Seq<char>)> {
        let named = seq![("model"@, self.model@), ("response_format"@, "json"@)];
        if self.language@.len() > 0 {
            named.push(("language"@, self.language@))
        } else {
            named
        }
    }

    /// A provider for a model and language.
    pub fn new(model: &str, language: &str) -> (p: Self)
        ensures
            p.model@ == crate::providers::request::nonempty_or(model@, "gpt-4o-transcribe"@),
            p.language@ == language@,
            !p.connected,
            p.pcm@ == Seq::<u8>::empty(),
    {
        OpenAiWhisperSttProvider {
            model: text_or(model, "gpt-4o-transcribe"),
            language: language.to_owned(),
            connected: false,
            pcm: Vec::new(),
        }
    }

    /// The name of the provider.
    pub fn provider_name(&self) -> (n: &'static str)
        ensures
            n@ == "openai-whisper"@,
    {
        "openai-whisper"
    }

    /// Makes the provider ready. No connection is needed.
    pub fn connect(&mut self)
        ensures
            *final(self) == (OpenAiWhisperSttProvider { connected: true, ..*old(self) }),
    {
        self.connected = true;
    }

    /// Adds audio (16 kHz PCM16) to the current utterance.
    pub fn feed_audio(&mut self, audio: &[u8])
        ensures
            final(self).pcm@ == old(self).pcm@ + audio@,
            *final(self) == (OpenAiWhisperSttProvider { pcm: final(self).pcm, ..*old(self) }),
    {
        self.pcm.extend_from_slice(audio);
        assert(self.pcm@ =~= old(self).pcm@ + audio@);
    }

    /// Ends the utterance: its audio is taken and, where there is any, uploaded.
    pub fn finalize(&mut self, api_key: &str) -> (step: FinalizeStep)
        requires
            crate::wav::wav_bytes_fit(old(self).pcm@.len()),
        ensures
            final(self).pcm@ == Seq::<u8>::empty(),
            *final(self) == (OpenAiWhisperSttProvider { pcm: final(self).pcm, ..*old(self) }),
            crate::providers::stt::segmented::is_finalize_step(
                step,
                old(self).connected,
                old(self).pcm@,
                "https://api.openai.com/v1/audio/transcriptions"@,
                seq![("Authorization"@, "Bearer "@ + api_key@)],
                old(self).fields(),
            ),
    {
        let mut pcm: Vec<u8> = Vec::new();
        std::mem::swap(&mut pcm, &mut self.pcm);
        let mut fields: Vec<FormField> = Vec::new();
        fields.push(FormField { name: "model", value: self.model.clone() });
        fields.push(FormField { name: "response_format", value: "json".to_owned() });
        if !self.language.as_str().is_empty() {
            fields.push(FormField { name: "language", value: self.language.clone() });
        }
        assert(crate::providers::stt::segmented::field_views(fields@) =~= old(self).fields());
        finalize_step(
            self.connected,
            pcm.as_slice(),
            "https://api.openai.com/v1/audio/transcriptions",
            one_header("Authorization", concat("Bearer ", api_key)),
            fields,
        )
    }

    /// Drops the audio of the current utterance. Tells how many bytes were dropped.
    pub fn close(&mut self) -> (dropped: usize)
        ensures
            dropped == old(self).pcm@.len(),
            final(self).pcm@ == Seq::<u8>::empty(),
            *final(self) == (OpenAiWhisperSttProvider { pcm: final(self).pcm, ..*old(self) }),
    {
        let dropped: usize = self.pcm.len();
        self.pcm = Vec::new();
        dropped
    }
}

/// An upload names its model and the form of the answer, and its language where there is one.
pub proof fn law_fields_name_model_and_language(p: OpenAiWhisperSttProvider)
    ensures
        p.fields()[0] == ("model"@, p.model@),
        p.fields()[1] == ("response_format"@, "json"@),
        p.language@.len() == 0 ==> p.fields().len() == 2,
        p.language@.len() > 0 ==> p.fields().len() == 3 && p.fields()[2] == (
            "language"@,
            p.language@,
        ),
{
}

} // verus!
