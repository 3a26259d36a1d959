//! ElevenLabs recognition by upload.
use crate::providers::request::{one_header, text_or};
use crate::providers::stt::segmented::{finalize_step, FinalizeStep, FormField};
use crate::text::same;
use vstd::prelude::*;

verus! {

/// ISO 639-1 codes and the ISO 639-3 codes that stand for them.
pub const LANGUAGE_CODES: [(&'static str, &'static str); 62] = [
    ("en", "eng"),
    ("zh", "zho"),
    ("es", "spa"),
    ("hi", "hin"),
    ("ar", "ara"),
    ("pt", "por"),
    ("bn", "ben"),
    ("ru", "rus"),
    ("ja", "jpn"),
    ("de", "deu"),
    ("fr", "fra"),
    ("it", "ita"),
    ("ko", "kor"),
    ("nl", "nld"),
    ("pl", "pol"),
    ("tr", "tur"),
    ("vi", "vie"),
    ("th", "tha"),
    ("sv", "swe"),
    ("da", "dan"),
    ("fi", "fin"),
    ("no", "nor"),
    ("el", "ell"),
    ("cs", "ces"),
    ("ro", "ron"),
    ("hu", "hun"),
    ("uk", "ukr"),
    ("id", "ind"),
    ("ms", "msa"),
    ("he", "heb"),
    ("fa", "fas"),
    ("ta", "tam"),
    ("ur", "urd"),
    ("sw", "swa"),
    ("af", "afr"),
    ("hr", "hrv"),
    ("bg", "bul"),
    ("sk", "slk"),
    ("sl", "slv"),
    ("sr", "srp"),
    ("ca", "cat"),
    ("ga", "gle"),
    ("cy", "cym"),
    ("et", "est"),
    ("lv", "lav"),
    ("lt", "lit"),
    ("mt", "mlt"),
    ("ka", "kat"),
    ("hy", "hye"),
    ("pa", "pan"),
    ("gu", "guj"),
    ("kn", "kan"),
    ("ml", "mal"),
    ("te", "tel"),
    ("mr", "mar"),
    ("ne", "nep"),
    ("km", "khm"),
    ("lo", "lao"),
    ("my", "mya"),
    ("mn", "mon"),
    ("am", "amh"),
    ("sd", "snd"),
];

/// The code in the table for a language, from row `from` on.
pub open spec fn code_from(lang: Seq<char>, from: int) -> Option<Seq<char>>
    decreases 62 - from,
{
    if from < 0 || from >= 62 {
        None
    } else if LANGUAGE_CODES@[from].0@ == lang {
        Some(LANGUAGE_CODES@[from].1@)
    } else {
        code_from(lang, from + 1)
    }
}

/// The code that ElevenLabs uses for a language; a code that is not in the table is used as it is.
pub open spec fn elevenlabs_code(lang: Seq<char>) -> Seq<char> {
    match code_from(lang, 0) {
        Some(c) => c,
        None => lang,
    }
}

/// The code that ElevenLabs uses for a language.
///
/// A three-letter or unknown code is passed through, to be judged by the server.
pub fn to_elevenlabs_language(lang: &str) -> (code: String)
    ensures
        code@ == elevenlabs_code(lang@),
{
    for i in 0..62usize
        invariant
            code_from(lang@, 0) == code_from(lang@, i as int),
    {
        if same(LANGUAGE_CODES[i].0, lang) {
            return LANGUAGE_CODES[i].1.to_owned();
        }
    }
    lang.to_owned()
}

/// ElevenLabs recognition.
#[derive(Debug)]
pub struct ElevenLabsSttProvider {
    pub model: String,
    /// The ISO 639-3 code of the language.
    pub language: String,
    /// Whether someone listens for the transcripts.
    pub connected: bool,
    /// The audio of the current utterance.
    pub pcm: Vec<u8>,
}

impl ElevenLabsSttProvider {
    /// The fields of an upload.
    pub open spec fn fields(self) -> Seq<(Seq<char>, Seq<char>)> {
        let named = seq![("model_id"@, self.model@)];
        if self.language@.len() > 0 {
            named.push(("language_code"@, self.language@))
        } else {
            named
        }
    }

    /// A provider for a model and language.
    pub fn new(model: &str, language: &str) -> (p: Self)
        ensures
            p.model@ == crate::providers::request::nonempty_or(model@, "scribe_v2"@),
            p.language@ == elevenlabs_code(language@),
            !p.connected,
            p.pcm@ == Seq::<u8>::empty(),
    {
        ElevenLabsSttProvider {
            model: text_or(model, "scribe_v2"),
            language: to_elevenlabs_language(language),
            connected: false,
            pcm: Vec::new(),
        }
    }

    /// The name of the provider.
    pub fn provider_name(&self) -> (n: &'static str)
        ensures
            n@ == "elevenlabs"@,
    {
        "elevenlabs"
    }

    /// Makes the provider ready. No connection is needed.
    pub fn connect(&mut self)
        ensures
            *final(self) == (ElevenLabsSttProvider { connected: true, ..*old(self) }),
    {
        self.connected = true;
    }

    /// Adds audio (16 kHz PCM16) to the current utterance.
    pub fn feed_audio(&mut self, audio: &[u8])
        ensures
            final(self).pcm@ == old(self).pcm@ + audio@,
            *final(self) == (ElevenLabsSttProvider { pcm: final(self).pcm, ..*old(self) }),
    {
        self.pcm.extend_from_slice(audio);
        assert(self.pcm@ =~= old(self).pcm@ + audio@);
    }

    /// Ends the utterance: its audio is taken and, where there is any, uploaded.
    pub fn finalize(&mut self, api_key: &str) -> (step: FinalizeStep)
        requires
            crate::wav::wav_bytes_fit(old(self).pcm@.len()),
        ensures
            final(self).pcm@ == Seq::<u8>::empty(),
            *final(self) == (ElevenLabsSttProvider { pcm: final(self).pcm, ..*old(self) }),
            crate::providers::stt::segmented::is_finalize_step(
                step,
                old(self).connected,
                old(self).pcm@,
                "https://api.elevenlabs.io/v1/speech-to-text"@,
                seq![("xi-api-key"@, api_key@)],
                old(self).fields(),
            ),
    {
        let mut pcm: Vec<u8> = Vec::new();
        std::mem::swap(&mut pcm, &mut self.pcm);
        let mut fields: Vec<FormField> = Vec::new();
        fields.push(FormField { name: "model_id", value: self.model.clone() });
        if !self.language.as_str().is_empty() {
            fields.push(FormField { name: "language_code", value: self.language.clone() });
        }
        assert(crate::providers::stt::segmented::field_views(fields@) =~= old(self).fields());
        finalize_step(
            self.connected,
            pcm.as_slice(),
            "https://api.elevenlabs.io/v1/speech-to-text",
            one_header("xi-api-key", api_key.to_owned()),
            fields,
        )
    }

    /// Drops the audio of the current utterance. Tells how many bytes were dropped.
    pub fn close(&mut self) -> (dropped: usize)
        ensures
            dropped == old(self).pcm@.len(),
            final(self).pcm@ == Seq::<u8>::empty(),
            *final(self) == (ElevenLabsSttProvider { pcm: final(self).pcm, ..*old(self) }),
    {
        let dropped: usize = self.pcm.len();
        self.pcm = Vec::new();
        dropped
    }
}

proof fn lemma_code_from(lang: Seq<char>, from: int)
    requires
        0 <= from <= 62,
    ensures
        code_from(lang, from) matches Some(c) ==> exists|k: int|
            from <= k < 62 && (#[trigger] LANGUAGE_CODES@[k]).0@ == lang && LANGUAGE_CODES@[k].1@
                == c && forall|j: int|
                from <= j < k ==> (#[trigger] LANGUAGE_CODES@[j]).0@ != lang,
        code_from(lang, from) is None ==> forall|j: int|
            from <= j < 62 ==> (#[trigger] LANGUAGE_CODES@[j]).0@ != lang,
    decreases 62 - from,
{
    if from < 62 {
        lemma_code_from(lang, from + 1);
        if LANGUAGE_CODES@[from].0@ != lang && code_from(lang, from + 1) is Some {
            let k = choose|k: int|
                from + 1 <= k < 62 && (#[trigger] LANGUAGE_CODES@[k]).0@ == lang
                    && LANGUAGE_CODES@[k].1@ == code_from(lang, from + 1)->0 && forall|j: int|
                    from + 1 <= j < k ==> (#[trigger] LANGUAGE_CODES@[j]).0@ != lang;
            assert(LANGUAGE_CODES@[k].0@ == lang);
        }
    }
}

/// The code of a language is that of a row of the table for it; a language without a row is its own
/// code.
pub proof fn law_codes_stand_in_the_table(lang: Seq<char>)
    ensures
        (exists|k: int|
            0 <= k < 62 && (#[trigger] LANGUAGE_CODES@[k]).0@ == lang && LANGUAGE_CODES@[k].1@
                == elevenlabs_code(lang)) || (elevenlabs_code(lang) == lang && forall|k: int|
            0 <= k < 62 ==> (#[trigger] LANGUAGE_CODES@[k]).0@ != lang),
{
    lemma_code_from(lang, 0);
}

/// An upload names its model, and its language where there is one.
pub proof fn law_fields_name_model_and_language(p: ElevenLabsSttProvider)
    ensures
        p.fields()[0] == ("model_id"@, p.model@),
        p.language@.len() == 0 ==> p.fields().len() == 1,
        p.language@.len() > 0 ==> p.fields().len() == 2 && p.fields()[1] == (
            "language_code"@,
            p.language@,
        ),
{
}

} // verus!
