//! Language and model configuration: which model speaks or hears which language, and with which
//! voice.
use crate::language_catalog::{
    ARABIC_ONLY, AURA_LANGUAGES, AURA_VOICES, CARTESIA_VOICES, CORE_LANGUAGES,
    ELEVENLABS_MULTILINGUAL_MODELS, ELEVENLABS_VOICES, ENGLISH_ONLY, INK_LANGUAGES,
    NOVA_2_LANGUAGES, NOVA_3_LANGUAGES, OPENAI_CLASSIC_VOICES, OPENAI_VOICES,
    ORPHEUS_ARABIC_VOICES, ORPHEUS_ENGLISH_VOICES, SUPPORTED_LANGUAGES,
};
use crate::text::same;
use vstd::prelude::*;

verus! {

/// A language and what the providers call it.
#[derive(Clone, Copy, Debug)]
pub struct LanguageOption {
    /// Canonical code: ISO 639-1, possibly with a region.
    pub code: &'static str,
    /// Label for people.
    pub label: &'static str,
    /// ElevenLabs `language_code` parameter.
    pub elevenlabs_code: &'static str,
    /// Deepgram `language` parameter.
    pub deepgram_code: &'static str,
    /// Cartesia `language` field.
    pub cartesia_code: &'static str,
}

/// A curated voice. Where any voice of a model speaks any language, it is listed under `"en"`.
#[derive(Clone, Copy, Debug)]
pub struct LanguageVoice {
    pub language_code: &'static str,
    /// Identifier that the provider knows the voice by.
    pub voice_id: &'static str,
    pub voice_label: &'static str,
}

/// A synthesis model: its languages and default voices.
#[derive(Clone, Copy, Debug)]
pub struct TtsModelSpec {
    pub provider: &'static str,
    pub model_id: &'static str,
    pub label: &'static str,
    pub supported_languages: &'static [&'static str],
    /// Voices: language, identifier, label.
    pub language_voices: &'static [(&'static str, &'static str, &'static str)],
}

/// A recognition model and its languages.
#[derive(Clone, Copy, Debug)]
pub struct SttModelSpec {
    pub provider: &'static str,
    pub model_id: &'static str,
    pub label: &'static str,
    pub supported_languages: &'static [&'static str],
}

/// A voice as a value: language, identifier, label.
pub type VoiceView = (Seq<char>, Seq<char>, Seq<char>);

/// A synthesis model as a value.
pub struct TtsView {
    pub provider: Seq<char>,
    pub model_id: Seq<char>,
    pub label: Seq<char>,
    pub languages: Seq<Seq<char>>,
    pub voices: Seq<VoiceView>,
}

/// A recognition model as a value.
pub struct SttView {
    pub provider: Seq<char>,
    pub model_id: Seq<char>,
    pub label: Seq<char>,
    pub languages: Seq<Seq<char>>,
}

/// Codes as values.
pub open spec fn code_views(codes: Seq<&'static str>) -> Seq<Seq<char>> {
    codes.map_values(|c: &'static str| c@)
}

/// Voices as values.
pub open spec fn voice_views(voices: Seq<(&'static str, &'static str, &'static str)>) -> Seq<
    VoiceView,
> {
    voices.map_values(|v: (&'static str, &'static str, &'static str)| (v.0@, v.1@, v.2@))
}

impl View for TtsModelSpec {
    type V = TtsView;

    open spec fn view(&self) -> TtsView {
        TtsView {
            provider: self.provider@,
            model_id: self.model_id@,
            label: self.label@,
            languages: code_views(self.supported_languages@),
            voices: voice_views(self.language_voices@),
        }
    }
}

impl View for SttModelSpec {
    type V = SttView;

    open spec fn view(&self) -> SttView {
        SttView {
            provider: self.provider@,
            model_id: self.model_id@,
            label: self.label@,
            languages: code_views(self.supported_languages@),
        }
    }
}

/// The code without its region: what comes before the first hyphen.
pub open spec fn base_code(code: Seq<char>) -> Seq<char> {
    crate::text::before_char(code, '-')
}

/// Strips a region suffix: `"en-US"` becomes `"en"`.
pub fn normalize_to_base_code(code: &str) -> (base: &str)
    ensures
        base@ == base_code(code@),
{
    let len: usize = code.unicode_len();
    proof {
        crate::text::lemma_first_index(code@, '-');
    }
    let mut at: usize = 0;
    while at < len && code.get_char(at) != '-'
        invariant
            len == code@.len(),
            at <= len,
            forall|k: int| 0 <= k < at ==> code@[k] != '-',
        decreases len - at,
    {
        at = at + 1;
    }
    let base = code.substring_char(0, at);
    assert(base@ =~= base_code(code@)) by {
        if at < len {
            assert(code@.contains(code@[at as int]));
        } else {
            assert(code@.subrange(0, at as int) =~= code@);
        }
    }
    base
}

/// Whether one of `codes` is `code`.
pub open spec fn lists(codes: Seq<Seq<char>>, code: Seq<char>) -> bool {
    codes.contains(code)
}

fn lists_code(codes: &'static [&'static str], code: &str) -> (r: bool)
    ensures
        r == lists(code_views(codes@), code@),
{
    for i in 0..codes.len()
        invariant
            forall|k: int| 0 <= k < i ==> code_views(codes@)[k] != code@,
    {
        if same(codes[i], code) {
            assert(code_views(codes@)[i as int] == code@);
            return true;
        }
    }
    false
}

/// The voice of a model for a language: the first one of that language, else the first of all.
pub open spec fn voice_for(voices: Seq<VoiceView>, base: Seq<char>) -> Option<Seq<char>> {
    match first_voice(voices, base) {
        Some(id) => Some(id),
        None => if voices.len() > 0 {
            Some(voices[0].1)
        } else {
            None
        },
    }
}

/// The first voice of a language.
pub open spec fn first_voice(voices: Seq<VoiceView>, base: Seq<char>) -> Option<Seq<char>>
    decreases voices.len(),
{
    if voices.len() == 0 {
        None
    } else if voices[0].0 == base {
        Some(voices[0].1)
    } else {
        first_voice(voices.drop_first(), base)
    }
}

/// Whether a model with these languages can be used for `lang`. English and no language at all
/// always can.
pub open spec fn can_use(languages: Seq<Seq<char>>, lang: Seq<char>) -> bool {
    lang.len() == 0 || lang == "en"@ || lists(languages, base_code(lang))
}

impl TtsModelSpec {
    /// The recommended voice for `lang`: the first one of that language, or the first of all where
    /// the model has none of its own for it. None where the model has no voices.
    pub fn default_voice_for_language(&self, lang: &str) -> (id: Option<&'static str>)
        ensures
            id is Some <==> voice_for(self@.voices, base_code(lang@)) is Some,
            id matches Some(v) ==> voice_for(self@.voices, base_code(lang@)) == Some(v@),
    {
        let base = normalize_to_base_code(lang);
        let ghost voices = self@.voices;
        assert(voices.skip(0) =~= voices);
        for i in 0..self.language_voices.len()
            invariant
                voices == self@.voices,
                base@ == base_code(lang@),
                first_voice(voices, base@) == first_voice(voices.skip(i as int), base@),
        {
            let v = self.language_voices[i];
            assert(voices.skip(i as int)[0] == (v.0@, v.1@, v.2@));
            if same(v.0, base) {
                return Some(v.1);
            }
            assert(voices.skip(i as int).drop_first() =~= voices.skip(i as int + 1));
        }
        if self.language_voices.len() > 0 {
            assert(voices[0] == (
                self.language_voices@[0].0@,
                self.language_voices@[0].1@,
                self.language_voices@[0].2@,
            ));
            Some(self.language_voices[0].1)
        } else {
            None
        }
    }

    /// The voices of the model.
    pub fn voices(&self) -> (v: Vec<LanguageVoice>)
        ensures
            v@ == self.language_voices@.map_values(
                |x: (&'static str, &'static str, &'static str)|
                    LanguageVoice { language_code: x.0, voice_id: x.1, voice_label: x.2 },
            ),
    {
        let mut v: Vec<LanguageVoice> = Vec::new();
        for i in 0..self.language_voices.len()
            invariant
                v@ == self.language_voices@.take(i as int).map_values(
                    |x: (&'static str, &'static str, &'static str)|
                        LanguageVoice { language_code: x.0, voice_id: x.1, voice_label: x.2 },
                ),
        {
            let x = self.language_voices[i];
            v.push(LanguageVoice { language_code: x.0, voice_id: x.1, voice_label: x.2 });
            assert(v@ =~= self.language_voices@.take(i as int + 1).map_values(
                |x: (&'static str, &'static str, &'static str)|
                    LanguageVoice { language_code: x.0, voice_id: x.1, voice_label: x.2 },
            ));
        }
        assert(self.language_voices@.take(self.language_voices@.len() as int)
            =~= self.language_voices@);
        v
    }

    /// Whether the model can speak `lang`.
    pub fn supports_language(&self, lang: &str) -> (r: bool)
        ensures
            r == can_use(self@.languages, lang@),
    {
        if lang.is_empty() || same(lang, "en") {
            return true;
        }
        lists_code(self.supported_languages, normalize_to_base_code(lang))
    }
}

impl SttModelSpec {
    /// Whether the model can hear `lang`.
    pub fn supports_language(&self, lang: &str) -> (r: bool)
        ensures
            r == can_use(self@.languages, lang@),
    {
        if lang.is_empty() || same(lang, "en") {
            return true;
        }
        lists_code(self.supported_languages, normalize_to_base_code(lang))
    }
}

/// The supported languages.
pub open spec fn language_table() -> Seq<LanguageOption> {
    SUPPORTED_LANGUAGES@.map_values(
        |l: (&'static str, &'static str, &'static str, &'static str, &'static str)|
            LanguageOption {
                code: l.0,
                label: l.1,
                elevenlabs_code: l.2,
                deepgram_code: l.3,
                cartesia_code: l.4,
            },
    )
}

/// The supported languages.
pub fn supported_languages() -> (v: Vec<LanguageOption>)
    ensures
        v@ == language_table(),
{
    let mut v: Vec<LanguageOption> = Vec::new();
    for i in 0..17usize
        invariant
            v@ == language_table().take(i as int),
    {
        let l = SUPPORTED_LANGUAGES[i];
        v.push(
            LanguageOption {
                code: l.0,
                label: l.1,
                elevenlabs_code: l.2,
                deepgram_code: l.3,
                cartesia_code: l.4,
            },
        );
        assert(v@ =~= language_table().take(i as int + 1));
    }
    assert(language_table().take(17) =~= language_table());
    v
}

/// The first language with the given code.
pub open spec fn language_with(table: Seq<LanguageOption>, code: Seq<char>) -> Option<
    LanguageOption,
>
    decreases table.len(),
{
    if table.len() == 0 {
        None
    } else if table[0].code@ == code {
        Some(table[0])
    } else {
        language_with(table.drop_first(), code)
    }
}

fn find_language(code: &str) -> (l: Option<LanguageOption>)
    ensures
        l == language_with(language_table(), code@),
{
    let table = supported_languages();
    assert(table@.skip(0) =~= table@);
    for i in 0..table.len()
        invariant
            table@ == language_table(),
            language_with(table@, code@) == language_with(table@.skip(i as int), code@),
    {
        if same(table[i].code, code) {
            return Some(table[i]);
        }
        assert(table@.skip(i as int).drop_first() =~= table@.skip(i as int + 1));
    }
    None
}

/// The ElevenLabs code of a language; empty where it is not supported.
pub open spec fn elevenlabs_code_of(iso_code: Seq<char>) -> Seq<char> {
    match language_with(language_table(), base_code(iso_code)) {
        Some(l) => l.elevenlabs_code@,
        None => Seq::empty(),
    }
}

/// The Cartesia code of a language; empty where it is not supported.
pub open spec fn cartesia_code_of(iso_code: Seq<char>) -> Seq<char> {
    match language_with(language_table(), base_code(iso_code)) {
        Some(l) => l.cartesia_code@,
        None => Seq::empty(),
    }
}

/// The ElevenLabs `language_code` parameter for a language; empty for "leave the parameter out".
pub fn elevenlabs_language_code(iso_code: &str) -> (c: &'static str)
    ensures
        c@ == elevenlabs_code_of(iso_code@),
{
    match find_language(normalize_to_base_code(iso_code)) {
        Some(l) => l.elevenlabs_code,
        None => {
            proof {
                reveal_strlit("");
                assert(""@ =~= Seq::<char>::empty());
            }
            ""
        },
    }
}

/// The Cartesia `language` field for a language; empty for "leave the field out".
pub fn cartesia_language_code(iso_code: &str) -> (c: &'static str)
    ensures
        c@ == cartesia_code_of(iso_code@),
{
    match find_language(normalize_to_base_code(iso_code)) {
        Some(l) => l.cartesia_code,
        None => {
            proof {
                reveal_strlit("");
                assert(""@ =~= Seq::<char>::empty());
            }
            ""
        },
    }
}

/// Whether an ElevenLabs model takes the language as a parameter.
pub open spec fn is_multilingual(model: Seq<char>) -> bool {
    lists(code_views(ELEVENLABS_MULTILINGUAL_MODELS@), model)
}

/// Whether an ElevenLabs model takes the language as a parameter.
pub fn is_elevenlabs_multilingual(model: &str) -> (r: bool)
    ensures
        r == is_multilingual(model@),
{
    for i in 0..2usize
        invariant
            forall|k: int|
                0 <= k < i ==> code_views(ELEVENLABS_MULTILINGUAL_MODELS@)[k] != model@,
    {
        if same(ELEVENLABS_MULTILINGUAL_MODELS[i], model) {
            assert(code_views(ELEVENLABS_MULTILINGUAL_MODELS@)[i as int] == model@);
            return true;
        }
    }
    false
}

/// A synthesis model with the given name, languages and voices.
pub open spec fn tts_row(
    provider: Seq<char>,
    model_id: Seq<char>,
    label: Seq<char>,
    languages: Seq<&'static str>,
    voices: Seq<(&'static str, &'static str, &'static str)>,
) -> TtsView {
    TtsView {
        provider,
        model_id,
        label,
        languages: code_views(languages),
        voices: voice_views(voices),
    }
}

/// A recognition model with the given name and languages.
pub open spec fn stt_row(
    provider: Seq<char>,
    model_id: Seq<char>,
    label: Seq<char>,
    languages: Seq<&'static str>,
) -> SttView {
    SttView { provider, model_id, label, languages: code_views(languages) }
}

/// The synthesis models.
pub open spec fn tts_table() -> Seq<TtsView> {
    seq![
        tts_row("cartesia-ws"@, "sonic-2"@, "Cartesia Sonic 2"@, CORE_LANGUAGES@, CARTESIA_VOICES@),
        tts_row("cartesia-ws"@, "sonic-3"@, "Cartesia Sonic 3"@, CORE_LANGUAGES@, CARTESIA_VOICES@),
        tts_row("cartesia"@, "sonic-2"@, "Cartesia Sonic 2"@, CORE_LANGUAGES@, CARTESIA_VOICES@),
        tts_row("cartesia"@, "sonic-3"@, "Cartesia Sonic 3"@, CORE_LANGUAGES@, CARTESIA_VOICES@),
        tts_row(
            "elevenlabs-ws"@,
            "eleven_flash_v2_5"@,
            "ElevenLabs Flash v2.5"@,
            CORE_LANGUAGES@,
            ELEVENLABS_VOICES@,
        ),
        tts_row(
            "elevenlabs-ws"@,
            "eleven_turbo_v2_5"@,
            "ElevenLabs Turbo v2.5"@,
            CORE_LANGUAGES@,
            ELEVENLABS_VOICES@,
        ),
        tts_row(
            "elevenlabs"@,
            "eleven_flash_v2_5"@,
            "ElevenLabs Flash v2.5"@,
            CORE_LANGUAGES@,
            ELEVENLABS_VOICES@,
        ),
        tts_row(
            "elevenlabs"@,
            "eleven_turbo_v2_5"@,
            "ElevenLabs Turbo v2.5"@,
            CORE_LANGUAGES@,
            ELEVENLABS_VOICES@,
        ),
        tts_row("deepgram"@, "aura-2"@, "Deepgram Aura 2"@, AURA_LANGUAGES@, AURA_VOICES@),
        tts_row("deepgram-ws"@, "aura-2"@, "Deepgram Aura 2"@, AURA_LANGUAGES@, AURA_VOICES@),
        tts_row("openai"@, "gpt-4o-mini-tts"@, "GPT-4o Mini TTS"@, CORE_LANGUAGES@, OPENAI_VOICES@),
        tts_row("openai"@, "tts-1"@, "TTS-1"@, CORE_LANGUAGES@, OPENAI_CLASSIC_VOICES@),
        tts_row("openai"@, "tts-1-hd"@, "TTS-1 HD"@, CORE_LANGUAGES@, OPENAI_CLASSIC_VOICES@),
        tts_row(
            "groq"@,
            "canopylabs/orpheus-v1-english"@,
            "Orpheus v1 English"@,
            ENGLISH_ONLY@,
            ORPHEUS_ENGLISH_VOICES@,
        ),
        tts_row(
            "groq"@,
            "canopylabs/orpheus-arabic-saudi"@,
            "Orpheus Arabic (Saudi)"@,
            ARABIC_ONLY@,
            ORPHEUS_ARABIC_VOICES@,
        ),
    ]
}

/// The recognition models.
pub open spec fn stt_table() -> Seq<SttView> {
    seq![
        stt_row("faster-whisper"@, "large-v3"@, "Whisper Large v3"@, CORE_LANGUAGES@),
        stt_row("faster-whisper"@, "large-v3-turbo"@, "Whisper Large v3 Turbo"@, CORE_LANGUAGES@),
        stt_row("faster-whisper"@, "medium"@, "Whisper Medium"@, CORE_LANGUAGES@),
        stt_row("deepgram"@, "nova-3-general"@, "Nova 3 General"@, NOVA_3_LANGUAGES@),
        stt_row("deepgram"@, "nova-2-general"@, "Nova 2 General"@, NOVA_2_LANGUAGES@),
        stt_row("deepgram"@, "nova-2-phonecall"@, "Nova 2 Phone-call"@, ENGLISH_ONLY@),
        stt_row("cartesia"@, "ink-whisper"@, "Ink Whisper"@, INK_LANGUAGES@),
        stt_row("elevenlabs"@, "scribe_v1"@, "Scribe v1"@, CORE_LANGUAGES@),
        stt_row("elevenlabs"@, "scribe_v2"@, "Scribe v2"@, CORE_LANGUAGES@),
        stt_row("groq"@, "whisper-large-v3-turbo"@, "Whisper Large v3 Turbo"@, CORE_LANGUAGES@),
        stt_row("groq"@, "whisper-large-v3"@, "Whisper Large v3"@, CORE_LANGUAGES@),
        stt_row("openai-whisper"@, "whisper-1"@, "Whisper 1"@, CORE_LANGUAGES@),
        stt_row("openai-realtime"@, "gpt-4o-transcribe"@, "GPT-4o Transcribe"@, CORE_LANGUAGES@),
        stt_row(
            "openai-realtime"@,
            "gpt-4o-mini-transcribe"@,
            "GPT-4o Mini Transcribe"@,
            CORE_LANGUAGES@,
        ),
    ]
}

/// Models as values.
pub open spec fn tts_views(models: Seq<TtsModelSpec>) -> Seq<TtsView> {
    models.map_values(|m: TtsModelSpec| m@)
}

/// Models as values.
pub open spec fn stt_views(models: Seq<SttModelSpec>) -> Seq<SttView> {
    models.map_values(|m: SttModelSpec| m@)
}

fn tts_model(
    provider: &'static str,
    model_id: &'static str,
    label: &'static str,
    supported_languages: &'static [&'static str],
    language_voices: &'static [(&'static str, &'static str, &'static str)],
) -> (m: TtsModelSpec)
    ensures
        m@ == tts_row(provider@, model_id@, label@, supported_languages@, language_voices@),
{
    TtsModelSpec { provider, model_id, label, supported_languages, language_voices }
}

fn stt_model(
    provider: &'static str,
    model_id: &'static str,
    label: &'static str,
    supported_languages: &'static [&'static str],
) -> (m: SttModelSpec)
    ensures
        m@ == stt_row(provider@, model_id@, label@, supported_languages@),
{
    SttModelSpec { provider, model_id, label, supported_languages }
}

/// The synthesis models.
pub fn tts_model_catalog() -> (v: Vec<TtsModelSpec>)
    ensures
        tts_views(v@) == tts_table(),
{
    let mut v: Vec<TtsModelSpec> = Vec::new();
    v.push(
        tts_model(
            "cartesia-ws",
            "sonic-2",
            "Cartesia Sonic 2",
            &CORE_LANGUAGES,
            &CARTESIA_VOICES,
        ),
    );
    v.push(
        tts_model(
            "cartesia-ws",
            "sonic-3",
            "Cartesia Sonic 3",
            &CORE_LANGUAGES,
            &CARTESIA_VOICES,
        ),
    );
    v.push(tts_model("cartesia", "sonic-2", "Cartesia Sonic 2", &CORE_LANGUAGES, &CARTESIA_VOICES));
    v.push(tts_model("cartesia", "sonic-3", "Cartesia Sonic 3", &CORE_LANGUAGES, &CARTESIA_VOICES));
    v.push(
        tts_model(
            "elevenlabs-ws",
            "eleven_flash_v2_5",
            "ElevenLabs Flash v2.5",
            &CORE_LANGUAGES,
            &ELEVENLABS_VOICES,
        ),
    );
    v.push(
        tts_model(
            "elevenlabs-ws",
            "eleven_turbo_v2_5",
            "ElevenLabs Turbo v2.5",
            &CORE_LANGUAGES,
            &ELEVENLABS_VOICES,
        ),
    );
    v.push(
        tts_model(
            "elevenlabs",
            "eleven_flash_v2_5",
            "ElevenLabs Flash v2.5",
            &CORE_LANGUAGES,
            &ELEVENLABS_VOICES,
        ),
    );
    v.push(
        tts_model(
            "elevenlabs",
            "eleven_turbo_v2_5",
            "ElevenLabs Turbo v2.5",
            &CORE_LANGUAGES,
            &ELEVENLABS_VOICES,
        ),
    );
    v.push(tts_model("deepgram", "aura-2", "Deepgram Aura 2", &AURA_LANGUAGES, &AURA_VOICES));
    v.push(tts_model("deepgram-ws", "aura-2", "Deepgram Aura 2", &AURA_LANGUAGES, &AURA_VOICES));
    v.push(
        tts_model(
            "openai",
            "gpt-4o-mini-tts",
            "GPT-4o Mini TTS",
            &CORE_LANGUAGES,
            &OPENAI_VOICES,
        ),
    );
    v.push(tts_model("openai", "tts-1", "TTS-1", &CORE_LANGUAGES, &OPENAI_CLASSIC_VOICES));
    v.push(tts_model("openai", "tts-1-hd", "TTS-1 HD", &CORE_LANGUAGES, &OPENAI_CLASSIC_VOICES));
    v.push(
        tts_model(
            "groq",
            "canopylabs/orpheus-v1-english",
            "Orpheus v1 English",
            &ENGLISH_ONLY,
            &ORPHEUS_ENGLISH_VOICES,
        ),
    );
    v.push(
        tts_model(
            "groq",
            "canopylabs/orpheus-arabic-saudi",
            "Orpheus Arabic (Saudi)",
            &ARABIC_ONLY,
            &ORPHEUS_ARABIC_VOICES,
        ),
    );
    assert(tts_views(v@) =~= tts_table());
    v
}

/// The recognition models.
pub fn stt_model_catalog() -> (v: Vec<SttModelSpec>)
    ensures
        stt_views(v@) == stt_table(),
{
    let mut v: Vec<SttModelSpec> = Vec::new();
    v.push(stt_model("faster-whisper", "large-v3", "Whisper Large v3", &CORE_LANGUAGES));
    v.push(
        stt_model(
            "faster-whisper",
            "large-v3-turbo",
            "Whisper Large v3 Turbo",
            &CORE_LANGUAGES,
        ),
    );
    v.push(stt_model("faster-whisper", "medium", "Whisper Medium", &CORE_LANGUAGES));
    v.push(stt_model("deepgram", "nova-3-general", "Nova 3 General", &NOVA_3_LANGUAGES));
    v.push(stt_model("deepgram", "nova-2-general", "Nova 2 General", &NOVA_2_LANGUAGES));
    v.push(stt_model("deepgram", "nova-2-phonecall", "Nova 2 Phone-call", &ENGLISH_ONLY));
    v.push(stt_model("cartesia", "ink-whisper", "Ink Whisper", &INK_LANGUAGES));
    v.push(stt_model("elevenlabs", "scribe_v1", "Scribe v1", &CORE_LANGUAGES));
    v.push(stt_model("elevenlabs", "scribe_v2", "Scribe v2", &CORE_LANGUAGES));
    v.push(stt_model("groq", "whisper-large-v3-turbo", "Whisper Large v3 Turbo", &CORE_LANGUAGES));
    v.push(stt_model("groq", "whisper-large-v3", "Whisper Large v3", &CORE_LANGUAGES));
    v.push(stt_model("openai-whisper", "whisper-1", "Whisper 1", &CORE_LANGUAGES));
    v.push(stt_model("openai-realtime", "gpt-4o-transcribe", "GPT-4o Transcribe", &CORE_LANGUAGES));
    v.push(
        stt_model(
            "openai-realtime",
            "gpt-4o-mini-transcribe",
            "GPT-4o Mini Transcribe",
            &CORE_LANGUAGES,
        ),
    );
    assert(stt_views(v@) =~= stt_table());
    v
}

/// The first synthesis model with the given names.
pub open spec fn tts_with(table: Seq<TtsView>, provider: Seq<char>, model_id: Seq<char>) -> Option<
    TtsView,
>
    decreases table.len(),
{
    if table.len() == 0 {
        None
    } else if table[0].provider == provider && table[0].model_id == model_id {
        Some(table[0])
    } else {
        tts_with(table.drop_first(), provider, model_id)
    }
}

/// The first recognition model with the given names.
pub open spec fn stt_with(table: Seq<SttView>, provider: Seq<char>, model_id: Seq<char>) -> Option<
    SttView,
>
    decreases table.len(),
{
    if table.len() == 0 {
        None
    } else if table[0].provider == provider && table[0].model_id == model_id {
        Some(table[0])
    } else {
        stt_with(table.drop_first(), provider, model_id)
    }
}

/// Finds a synthesis model by provider and model.
pub fn tts_model_lookup(provider: &str, model_id: &str) -> (m: Option<TtsModelSpec>)
    ensures
        m is Some <==> tts_with(tts_table(), provider@, model_id@) is Some,
        m matches Some(x) ==> tts_with(tts_table(), provider@, model_id@) == Some(x@),
{
    let all = tts_model_catalog();
    let ghost table = tts_table();
    assert(table.skip(0) =~= table);
    for i in 0..all.len()
        invariant
            tts_views(all@) == table,
            table == tts_table(),
            tts_with(table, provider@, model_id@) == tts_with(
                table.skip(i as int),
                provider@,
                model_id@,
            ),
    {
        assert(table.skip(i as int)[0] == all@[i as int]@) by {
            assert(tts_views(all@)[i as int] == all@[i as int]@);
        }
        if same(all[i].provider, provider) && same(all[i].model_id, model_id) {
            return Some(all[i]);
        }
        assert(table.skip(i as int).drop_first() =~= table.skip(i as int + 1));
    }
    None
}

/// Finds a recognition model by provider and model.
pub fn stt_model_lookup(provider: &str, model_id: &str) -> (m: Option<SttModelSpec>)
    ensures
        m is Some <==> stt_with(stt_table(), provider@, model_id@) is Some,
        m matches Some(x) ==> stt_with(stt_table(), provider@, model_id@) == Some(x@),
{
    let all = stt_model_catalog();
    let ghost table = stt_table();
    assert(table.skip(0) =~= table);
    for i in 0..all.len()
        invariant
            stt_views(all@) == table,
            table == stt_table(),
            stt_with(table, provider@, model_id@) == stt_with(
                table.skip(i as int),
                provider@,
                model_id@,
            ),
    {
        assert(table.skip(i as int)[0] == all@[i as int]@) by {
            assert(stt_views(all@)[i as int] == all@[i as int]@);
        }
        if same(all[i].provider, provider) && same(all[i].model_id, model_id) {
            return Some(all[i]);
        }
        assert(table.skip(i as int).drop_first() =~= table.skip(i as int + 1));
    }
    None
}

/// Whether a synthesis model can speak `lang`. A model that is not in the catalog is trusted with
/// English only.
pub fn tts_model_supports_language(provider: &str, model_id: &str, lang: &str) -> (r: bool)
    ensures
        r == (lang@.len() == 0 || lang@ == "en"@ || (tts_with(tts_table(), provider@, model_id@)
            matches Some(m) && can_use(m.languages, lang@))),
{
    if lang.is_empty() || same(lang, "en") {
        return true;
    }
    match tts_model_lookup(provider, model_id) {
        Some(m) => m.supports_language(lang),
        None => false,
    }
}

/// Whether a recognition model can hear `lang`. A model that is not in the catalog is trusted with
/// English only.
pub fn stt_model_supports_language(provider: &str, model_id: &str, lang: &str) -> (r: bool)
    ensures
        r == (lang@.len() == 0 || lang@ == "en"@ || (stt_with(stt_table(), provider@, model_id@)
            matches Some(m) && can_use(m.languages, lang@))),
{
    if lang.is_empty() || same(lang, "en") {
        return true;
    }
    match stt_model_lookup(provider, model_id) {
        Some(m) => m.supports_language(lang),
        None => false,
    }
}

/// The models that list a language, in order.
pub open spec fn models_listing(table: Seq<TtsView>, code: Seq<char>) -> Seq<TtsView>
    decreases table.len(),
{
    if table.len() == 0 {
        Seq::empty()
    } else {
        let rest = models_listing(table.drop_last(), code);
        if lists(table.last().languages, code) {
            rest.push(table.last())
        } else {
            rest
        }
    }
}

/// The code under which models list a language: its base code where that is supported, else
/// nothing.
pub open spec fn listed_code(lang: Seq<char>) -> Seq<char> {
    match language_with(language_table(), base_code(lang)) {
        Some(l) => l.code@,
        None => ""@,
    }
}

/// The synthesis models, of any provider, that speak `lang`.
pub fn tts_models_for_language(lang: &str) -> (v: Vec<TtsModelSpec>)
    ensures
        tts_views(v@) == models_listing(tts_table(), listed_code(lang@)),
{
    let code: &'static str = match find_language(normalize_to_base_code(lang)) {
        Some(l) => l.code,
        None => "",
    };
    let all = tts_model_catalog();
    let ghost table = tts_table();
    let mut v: Vec<TtsModelSpec> = Vec::new();
    for i in 0..all.len()
        invariant
            tts_views(all@) == table,
            tts_views(v@) == models_listing(table.take(i as int), code@),
    {
        let ghost before = v@;
        assert(table.take(i as int + 1).drop_last() =~= table.take(i as int));
        assert(table.take(i as int + 1).last() == all@[i as int]@) by {
            assert(tts_views(all@)[i as int] == all@[i as int]@);
        }
        if lists_code(all[i].supported_languages, code) {
            v.push(all[i]);
            assert(tts_views(v@) =~= tts_views(before).push(all@[i as int]@));
        }
    }
    assert(table.take(table.len() as int) =~= table);
    v
}

/// `code` is one of the supported languages.
pub open spec fn is_supported_code(code: Seq<char>) -> bool {
    exists|i: int| 0 <= i < 17 && (#[trigger] SUPPORTED_LANGUAGES@[i]).0@ == code
}

/// A voice has an id and is of a supported language.
pub open spec fn is_usable_voice(v: VoiceView) -> bool {
    is_supported_code(v.0) && v.1.len() > 0
}

/// A model lists supported languages only and has voices, all of them usable.
pub open spec fn is_sound(m: TtsView) -> bool {
    &&& forall|i: int| 0 <= i < m.languages.len() ==> is_supported_code(#[trigger] m.languages[i])
    &&& forall|i: int| 0 <= i < m.voices.len() ==> is_usable_voice(#[trigger] m.voices[i])
    &&& m.voices.len() > 0
}

proof fn lemma_arabic_only_codes()
    ensures
        forall|i: int|
            0 <= i < 1 ==> is_supported_code(#[trigger] code_views(ARABIC_ONLY@)[i]),
{
    assert(SUPPORTED_LANGUAGES@[11].0@ == ARABIC_ONLY@[0]@);
    assert forall|i: int| 0 <= i < 1 implies is_supported_code(
        #[trigger] code_views(ARABIC_ONLY@)[i],
    ) by {
        assert(code_views(ARABIC_ONLY@)[i] == ARABIC_ONLY@[i]@);
    }
}

proof fn lemma_aura_languages_codes()
    ensures
        forall|i: int|
            0 <= i < 7 ==> is_supported_code(#[trigger] code_views(AURA_LANGUAGES@)[i]),
{
    assert(SUPPORTED_LANGUAGES@[0].0@ == AURA_LANGUAGES@[0]@);
    assert(SUPPORTED_LANGUAGES@[1].0@ == AURA_LANGUAGES@[1]@);
    assert(SUPPORTED_LANGUAGES@[3].0@ == AURA_LANGUAGES@[2]@);
    assert(SUPPORTED_LANGUAGES@[2].0@ == AURA_LANGUAGES@[3]@);
    assert(SUPPORTED_LANGUAGES@[13].0@ == AURA_LANGUAGES@[4]@);
    assert(SUPPORTED_LANGUAGES@[5].0@ == AURA_LANGUAGES@[5]@);
    assert(SUPPORTED_LANGUAGES@[6].0@ == AURA_LANGUAGES@[6]@);
    assert forall|i: int| 0 <= i < 7 implies is_supported_code(
        #[trigger] code_views(AURA_LANGUAGES@)[i],
    ) by {
        assert(code_views(AURA_LANGUAGES@)[i] == AURA_LANGUAGES@[i]@);
    }
}

proof fn lemma_core_languages_codes()
    ensures
        forall|i: int|
            0 <= i < 15 ==> is_supported_code(#[trigger] code_views(CORE_LANGUAGES@)[i]),
{
    assert(SUPPORTED_LANGUAGES@[0].0@ == CORE_LANGUAGES@[0]@);
    assert(SUPPORTED_LANGUAGES@[1].0@ == CORE_LANGUAGES@[1]@);
    assert(SUPPORTED_LANGUAGES@[2].0@ == CORE_LANGUAGES@[2]@);
    assert(SUPPORTED_LANGUAGES@[3].0@ == CORE_LANGUAGES@[3]@);
    assert(SUPPORTED_LANGUAGES@[4].0@ == CORE_LANGUAGES@[4]@);
    assert(SUPPORTED_LANGUAGES@[5].0@ == CORE_LANGUAGES@[5]@);
    assert(SUPPORTED_LANGUAGES@[6].0@ == CORE_LANGUAGES@[6]@);
    assert(SUPPORTED_LANGUAGES@[7].0@ == CORE_LANGUAGES@[7]@);
    assert(SUPPORTED_LANGUAGES@[8].0@ == CORE_LANGUAGES@[8]@);
    assert(SUPPORTED_LANGUAGES@[11].0@ == CORE_LANGUAGES@[9]@);
    assert(SUPPORTED_LANGUAGES@[12].0@ == CORE_LANGUAGES@[10]@);
    assert(SUPPORTED_LANGUAGES@[13].0@ == CORE_LANGUAGES@[11]@);
    assert(SUPPORTED_LANGUAGES@[14].0@ == CORE_LANGUAGES@[12]@);
    assert(SUPPORTED_LANGUAGES@[15].0@ == CORE_LANGUAGES@[13]@);
    assert(SUPPORTED_LANGUAGES@[16].0@ == CORE_LANGUAGES@[14]@);
    assert forall|i: int| 0 <= i < 15 implies is_supported_code(
        #[trigger] code_views(CORE_LANGUAGES@)[i],
    ) by {
        assert(code_views(CORE_LANGUAGES@)[i] == CORE_LANGUAGES@[i]@);
    }
}

proof fn lemma_english_only_codes()
    ensures
        forall|i: int|
            0 <= i < 1 ==> is_supported_code(#[trigger] code_views(ENGLISH_ONLY@)[i]),
{
    assert(SUPPORTED_LANGUAGES@[0].0@ == ENGLISH_ONLY@[0]@);
    assert forall|i: int| 0 <= i < 1 implies is_supported_code(
        #[trigger] code_views(ENGLISH_ONLY@)[i],
    ) by {
        assert(code_views(ENGLISH_ONLY@)[i] == ENGLISH_ONLY@[i]@);
    }
}

proof fn lemma_aura_voices_usable()
    ensures
        forall|i: int|
            0 <= i < 17 ==> is_usable_voice(#[trigger] voice_views(AURA_VOICES@)[i]),
{
    reveal_strlit("aura-2-thalia-en");
    reveal_strlit("aura-2-zeus-en");
    reveal_strlit("aura-2-luna-en");
    reveal_strlit("aura-2-apollo-en");
    reveal_strlit("aura-2-celeste-es");
    reveal_strlit("aura-2-nestor-es");
    reveal_strlit("aura-2-estrella-es");
    reveal_strlit("aura-2-julius-de");
    reveal_strlit("aura-2-viktoria-de");
    reveal_strlit("aura-2-agathe-fr");
    reveal_strlit("aura-2-hector-fr");
    reveal_strlit("aura-2-rhea-nl");
    reveal_strlit("aura-2-sander-nl");
    reveal_strlit("aura-2-livia-it");
    reveal_strlit("aura-2-dionisio-it");
    reveal_strlit("aura-2-fujin-ja");
    reveal_strlit("aura-2-izanami-ja");
    assert(SUPPORTED_LANGUAGES@[0].0@ == AURA_VOICES@[0].0@);
    assert(SUPPORTED_LANGUAGES@[0].0@ == AURA_VOICES@[1].0@);
    assert(SUPPORTED_LANGUAGES@[0].0@ == AURA_VOICES@[2].0@);
    assert(SUPPORTED_LANGUAGES@[0].0@ == AURA_VOICES@[3].0@);
    assert(SUPPORTED_LANGUAGES@[1].0@ == AURA_VOICES@[4].0@);
    assert(SUPPORTED_LANGUAGES@[1].0@ == AURA_VOICES@[5].0@);
    assert(SUPPORTED_LANGUAGES@[1].0@ == AURA_VOICES@[6].0@);
    assert(SUPPORTED_LANGUAGES@[3].0@ == AURA_VOICES@[7].0@);
    assert(SUPPORTED_LANGUAGES@[3].0@ == AURA_VOICES@[8].0@);
    assert(SUPPORTED_LANGUAGES@[2].0@ == AURA_VOICES@[9].0@);
    assert(SUPPORTED_LANGUAGES@[2].0@ == AURA_VOICES@[10].0@);
    assert(SUPPORTED_LANGUAGES@[13].0@ == AURA_VOICES@[11].0@);
    assert(SUPPORTED_LANGUAGES@[13].0@ == AURA_VOICES@[12].0@);
    assert(SUPPORTED_LANGUAGES@[5].0@ == AURA_VOICES@[13].0@);
    assert(SUPPORTED_LANGUAGES@[5].0@ == AURA_VOICES@[14].0@);
    assert(SUPPORTED_LANGUAGES@[6].0@ == AURA_VOICES@[15].0@);
    assert(SUPPORTED_LANGUAGES@[6].0@ == AURA_VOICES@[16].0@);
    assert forall|i: int| 0 <= i < 17 implies is_usable_voice(
        #[trigger] voice_views(AURA_VOICES@)[i],
    ) by {
        assert(voice_views(AURA_VOICES@)[i].0 == AURA_VOICES@[i].0@);
        assert(voice_views(AURA_VOICES@)[i].1 == AURA_VOICES@[i].1@);
    }
}

proof fn lemma_cartesia_voices_usable()
    ensures
        forall|i: int|
            0 <= i < 1 ==> is_usable_voice(#[trigger] voice_views(CARTESIA_VOICES@)[i]),
{
    reveal_strlit("694f9389-aac1-45b6-b726-9d9369183238");
    assert(SUPPORTED_LANGUAGES@[0].0@ == CARTESIA_VOICES@[0].0@);
    assert forall|i: int| 0 <= i < 1 implies is_usable_voice(
        #[trigger] voice_views(CARTESIA_VOICES@)[i],
    ) by {
        assert(voice_views(CARTESIA_VOICES@)[i].0 == CARTESIA_VOICES@[i].0@);
        assert(voice_views(CARTESIA_VOICES@)[i].1 == CARTESIA_VOICES@[i].1@);
    }
}

proof fn lemma_elevenlabs_voices_usable()
    ensures
        forall|i: int|
            0 <= i < 1 ==> is_usable_voice(#[trigger] voice_views(ELEVENLABS_VOICES@)[i]),
{
    reveal_strlit("21m00Tcm4TlvDq8ikWAM");
    assert(SUPPORTED_LANGUAGES@[0].0@ == ELEVENLABS_VOICES@[0].0@);
    assert forall|i: int| 0 <= i < 1 implies is_usable_voice(
        #[trigger] voice_views(ELEVENLABS_VOICES@)[i],
    ) by {
        assert(voice_views(ELEVENLABS_VOICES@)[i].0 == ELEVENLABS_VOICES@[i].0@);
        assert(voice_views(ELEVENLABS_VOICES@)[i].1 == ELEVENLABS_VOICES@[i].1@);
    }
}

proof fn lemma_openai_classic_voices_usable()
    ensures
        forall|i: int|
            0 <= i < 9 ==> is_usable_voice(#[trigger] voice_views(OPENAI_CLASSIC_VOICES@)[i]),
{
    reveal_strlit("alloy");
    reveal_strlit("ash");
    reveal_strlit("coral");
    reveal_strlit("echo");
    reveal_strlit("fable");
    reveal_strlit("nova");
    reveal_strlit("onyx");
    reveal_strlit("sage");
    reveal_strlit("shimmer");
    assert(SUPPORTED_LANGUAGES@[0].0@ == OPENAI_CLASSIC_VOICES@[0].0@);
    assert(SUPPORTED_LANGUAGES@[0].0@ == OPENAI_CLASSIC_VOICES@[1].0@);
    assert(SUPPORTED_LANGUAGES@[0].0@ == OPENAI_CLASSIC_VOICES@[2].0@);
    assert(SUPPORTED_LANGUAGES@[0].0@ == OPENAI_CLASSIC_VOICES@[3].0@);
    assert(SUPPORTED_LANGUAGES@[0].0@ == OPENAI_CLASSIC_VOICES@[4].0@);
    assert(SUPPORTED_LANGUAGES@[0].0@ == OPENAI_CLASSIC_VOICES@[5].0@);
    assert(SUPPORTED_LANGUAGES@[0].0@ == OPENAI_CLASSIC_VOICES@[6].0@);
    assert(SUPPORTED_LANGUAGES@[0].0@ == OPENAI_CLASSIC_VOICES@[7].0@);
    assert(SUPPORTED_LANGUAGES@[0].0@ == OPENAI_CLASSIC_VOICES@[8].0@);
    assert forall|i: int| 0 <= i < 9 implies is_usable_voice(
        #[trigger] voice_views(OPENAI_CLASSIC_VOICES@)[i],
    ) by {
        assert(voice_views(OPENAI_CLASSIC_VOICES@)[i].0 == OPENAI_CLASSIC_VOICES@[i].0@);
        assert(voice_views(OPENAI_CLASSIC_VOICES@)[i].1 == OPENAI_CLASSIC_VOICES@[i].1@);
    }
}

proof fn lemma_openai_voices_usable()
    ensures
        forall|i: int|
            0 <= i < 13 ==> is_usable_voice(#[trigger] voice_views(OPENAI_VOICES@)[i]),
{
    reveal_strlit("alloy");
    reveal_strlit("ash");
    reveal_strlit("ballad");
    reveal_strlit("cedar");
    reveal_strlit("coral");
    reveal_strlit("echo");
    reveal_strlit("fable");
    reveal_strlit("marin");
    reveal_strlit("nova");
    reveal_strlit("onyx");
    reveal_strlit("sage");
    reveal_strlit("shimmer");
    reveal_strlit("verse");
    assert(SUPPORTED_LANGUAGES@[0].0@ == OPENAI_VOICES@[0].0@);
    assert(SUPPORTED_LANGUAGES@[0].0@ == OPENAI_VOICES@[1].0@);
    assert(SUPPORTED_LANGUAGES@[0].0@ == OPENAI_VOICES@[2].0@);
    assert(SUPPORTED_LANGUAGES@[0].0@ == OPENAI_VOICES@[3].0@);
    assert(SUPPORTED_LANGUAGES@[0].0@ == OPENAI_VOICES@[4].0@);
    assert(SUPPORTED_LANGUAGES@[0].0@ == OPENAI_VOICES@[5].0@);
    assert(SUPPORTED_LANGUAGES@[0].0@ == OPENAI_VOICES@[6].0@);
    assert(SUPPORTED_LANGUAGES@[0].0@ == OPENAI_VOICES@[7].0@);
    assert(SUPPORTED_LANGUAGES@[0].0@ == OPENAI_VOICES@[8].0@);
    assert(SUPPORTED_LANGUAGES@[0].0@ == OPENAI_VOICES@[9].0@);
    assert(SUPPORTED_LANGUAGES@[0].0@ == OPENAI_VOICES@[10].0@);
    assert(SUPPORTED_LANGUAGES@[0].0@ == OPENAI_VOICES@[11].0@);
    assert(SUPPORTED_LANGUAGES@[0].0@ == OPENAI_VOICES@[12].0@);
    assert forall|i: int| 0 <= i < 13 implies is_usable_voice(
        #[trigger] voice_views(OPENAI_VOICES@)[i],
    ) by {
        assert(voice_views(OPENAI_VOICES@)[i].0 == OPENAI_VOICES@[i].0@);
        assert(voice_views(OPENAI_VOICES@)[i].1 == OPENAI_VOICES@[i].1@);
    }
}

proof fn lemma_orpheus_arabic_voices_usable()
    ensures
        forall|i: int|
            0 <= i < 4 ==> is_usable_voice(#[trigger] voice_views(ORPHEUS_ARABIC_VOICES@)[i]),
{
    reveal_strlit("fahad");
    reveal_strlit("sultan");
    reveal_strlit("lulwa");
    reveal_strlit("noura");
    assert(SUPPORTED_LANGUAGES@[11].0@ == ORPHEUS_ARABIC_VOICES@[0].0@);
    assert(SUPPORTED_LANGUAGES@[11].0@ == ORPHEUS_ARABIC_VOICES@[1].0@);
    assert(SUPPORTED_LANGUAGES@[11].0@ == ORPHEUS_ARABIC_VOICES@[2].0@);
    assert(SUPPORTED_LANGUAGES@[11].0@ == ORPHEUS_ARABIC_VOICES@[3].0@);
    assert forall|i: int| 0 <= i < 4 implies is_usable_voice(
        #[trigger] voice_views(ORPHEUS_ARABIC_VOICES@)[i],
    ) by {
        assert(voice_views(ORPHEUS_ARABIC_VOICES@)[i].0 == ORPHEUS_ARABIC_VOICES@[i].0@);
        assert(voice_views(ORPHEUS_ARABIC_VOICES@)[i].1 == ORPHEUS_ARABIC_VOICES@[i].1@);
    }
}

proof fn lemma_orpheus_english_voices_usable()
    ensures
        forall|i: int|
            0 <= i < 6 ==> is_usable_voice(#[trigger] voice_views(ORPHEUS_ENGLISH_VOICES@)[i]),
{
    reveal_strlit("autumn");
    reveal_strlit("diana");
    reveal_strlit("hannah");
    reveal_strlit("austin");
    reveal_strlit("daniel");
    reveal_strlit("troy");
    assert(SUPPORTED_LANGUAGES@[0].0@ == ORPHEUS_ENGLISH_VOICES@[0].0@);
    assert(SUPPORTED_LANGUAGES@[0].0@ == ORPHEUS_ENGLISH_VOICES@[1].0@);
    assert(SUPPORTED_LANGUAGES@[0].0@ == ORPHEUS_ENGLISH_VOICES@[2].0@);
    assert(SUPPORTED_LANGUAGES@[0].0@ == ORPHEUS_ENGLISH_VOICES@[3].0@);
    assert(SUPPORTED_LANGUAGES@[0].0@ == ORPHEUS_ENGLISH_VOICES@[4].0@);
    assert(SUPPORTED_LANGUAGES@[0].0@ == ORPHEUS_ENGLISH_VOICES@[5].0@);
    assert forall|i: int| 0 <= i < 6 implies is_usable_voice(
        #[trigger] voice_views(ORPHEUS_ENGLISH_VOICES@)[i],
    ) by {
        assert(voice_views(ORPHEUS_ENGLISH_VOICES@)[i].0 == ORPHEUS_ENGLISH_VOICES@[i].0@);
        assert(voice_views(ORPHEUS_ENGLISH_VOICES@)[i].1 == ORPHEUS_ENGLISH_VOICES@[i].1@);
    }
}

/// The catalog is sound: every language and every voice language of every model is a supported one,
/// every voice has an id, and every model has a voice.
pub proof fn law_catalog_is_sound(i: int)
    requires
        0 <= i < tts_table().len(),
    ensures
        is_sound(tts_table()[i]),
{
    lemma_arabic_only_codes();
    lemma_aura_languages_codes();
    lemma_core_languages_codes();
    lemma_english_only_codes();
    lemma_aura_voices_usable();
    lemma_cartesia_voices_usable();
    lemma_elevenlabs_voices_usable();
    lemma_openai_classic_voices_usable();
    lemma_openai_voices_usable();
    lemma_orpheus_arabic_voices_usable();
    lemma_orpheus_english_voices_usable();
}

/// Every supported language has a code for each provider.
pub proof fn law_languages_have_codes(i: int)
    requires
        0 <= i < language_table().len(),
    ensures
        language_table()[i].code@.len() > 0,
        language_table()[i].label@.len() > 0,
        language_table()[i].elevenlabs_code@.len() > 0,
        language_table()[i].deepgram_code@.len() > 0,
        language_table()[i].cartesia_code@.len() > 0,
{
    reveal_strlit("Arabic");
    reveal_strlit("Chinese (Cantonese, Traditional)");
    reveal_strlit("Chinese (Mandarin, Simplified)");
    reveal_strlit("Chinese (Mandarin, Traditional)");
    reveal_strlit("Dutch");
    reveal_strlit("English");
    reveal_strlit("French");
    reveal_strlit("German");
    reveal_strlit("Hindi");
    reveal_strlit("Italian");
    reveal_strlit("Japanese");
    reveal_strlit("Korean");
    reveal_strlit("Polish");
    reveal_strlit("Portuguese");
    reveal_strlit("Russian");
    reveal_strlit("Spanish");
    reveal_strlit("Swedish");
    reveal_strlit("ar");
    reveal_strlit("de");
    reveal_strlit("en");
    reveal_strlit("es");
    reveal_strlit("fr");
    reveal_strlit("hi");
    reveal_strlit("it");
    reveal_strlit("ja");
    reveal_strlit("ko");
    reveal_strlit("nl");
    reveal_strlit("pl");
    reveal_strlit("pt");
    reveal_strlit("ru");
    reveal_strlit("sv");
    reveal_strlit("zh");
    reveal_strlit("zh-HK");
    reveal_strlit("zh-TW");
}

/// A region never matters to a lookup of a language: a code and the same code with a region have
/// the same provider codes and are in the same lists.
pub proof fn law_region_is_ignored(code: Seq<char>, region: Seq<char>)
    requires
        !code.contains('-'),
    ensures
        base_code(code) == code,
        base_code(code + "-"@ + region) == code,
        elevenlabs_code_of(code + "-"@ + region) == elevenlabs_code_of(code),
        cartesia_code_of(code + "-"@ + region) == cartesia_code_of(code),
        listed_code(code + "-"@ + region) == listed_code(code),
        code.len() > 0 && code != "en"@ ==> forall|languages: Seq<Seq<char>>|
            #![trigger can_use(languages, code)]
            can_use(languages, code + "-"@ + region) == can_use(languages, code),
{
    reveal_strlit("-");
    reveal_strlit("en");
    let full = code + "-"@ + region;
    crate::text::lemma_first_index(code, '-');
    crate::text::lemma_first_index(full, '-');
    assert(full[code.len() as int] == '-');
    assert(full.contains('-'));
    let i = crate::text::first_index(full, '-')->0;
    assert(i == code.len()) by {
        if i < code.len() {
            assert(code[i] == full[i]);
            assert(code.contains('-'));
        }
    }
    assert(full.take(i) =~= code);
    assert(!("en"@.contains('-')));
}

/// Stripping a region twice is stripping it once.
pub proof fn law_base_code_idempotent(code: Seq<char>)
    ensures
        base_code(base_code(code)) == base_code(code),
{
    let base = base_code(code);
    crate::text::lemma_first_index(code, '-');
    crate::text::lemma_first_index(base, '-');
    assert(!base.contains('-')) by {
        if base.contains('-') {
            let k = base.index_of('-');
            assert(base[k] == code[k]);
            assert(code.contains('-'));
        }
    }
}

/// A model of the catalog always has a recommended voice, whatever the language.
pub proof fn law_every_model_has_a_voice(i: int, lang: Seq<char>)
    requires
        0 <= i < tts_table().len(),
    ensures
        voice_for(tts_table()[i].voices, base_code(lang)) is Some,
{
    law_catalog_is_sound(i);
}

/// Whatever model is suggested for a language speaks it.
pub proof fn law_suggested_models_speak(table: Seq<TtsView>, code: Seq<char>)
    ensures
        forall|i: int|
            0 <= i < models_listing(table, code).len() ==> lists(
                (#[trigger] models_listing(table, code)[i]).languages,
                code,
            ),
    decreases table.len(),
{
    if table.len() > 0 {
        law_suggested_models_speak(table.drop_last(), code);
        let rest = models_listing(table.drop_last(), code);
        assert forall|i: int| 0 <= i < models_listing(table, code).len() implies lists(
            (#[trigger] models_listing(table, code)[i]).languages,
            code,
        ) by {
            if i < rest.len() {
                assert(models_listing(table, code)[i] == rest[i]);
            }
        }
    }
}

/// Looking a synthesis model up by its names finds a row of the table with these names, before which
/// there is none; where there is no such row, nothing is found.
pub proof fn law_tts_lookup_finds_the_first_row(
    table: Seq<TtsView>,
    provider: Seq<char>,
    model_id: Seq<char>,
)
    ensures
        tts_with(table, provider, model_id) matches Some(m) ==> {
            &&& m.provider == provider
            &&& m.model_id == model_id
            &&& exists|k: int|
                0 <= k < table.len() && #[trigger] table[k] == m && forall|j: int|
                    0 <= j < k ==> (#[trigger] table[j]).provider != provider || table[j].model_id
                        != model_id
        },
        tts_with(table, provider, model_id) is None ==> forall|j: int|
            0 <= j < table.len() ==> (#[trigger] table[j]).provider != provider || table[j].model_id
                != model_id,
    decreases table.len(),
{
    if table.len() > 0 {
        let rest = table.drop_first();
        law_tts_lookup_finds_the_first_row(rest, provider, model_id);
        if table[0].provider == provider && table[0].model_id == model_id {
            assert(table[0] == tts_with(table, provider, model_id)->0);
        } else if tts_with(rest, provider, model_id) is Some {
            let m = tts_with(rest, provider, model_id)->0;
            let k = choose|k: int|
                0 <= k < rest.len() && #[trigger] rest[k] == m && forall|j: int|
                    0 <= j < k ==> (#[trigger] rest[j]).provider != provider || rest[j].model_id
                        != model_id;
            assert(table[k + 1] == m);
            assert forall|j: int| 0 <= j < k + 1 implies (#[trigger] table[j]).provider != provider
                || table[j].model_id != model_id by {
                if j > 0 {
                    assert(rest[j - 1] == table[j]);
                }
            }
        } else {
            assert forall|j: int| 0 <= j < table.len() implies (#[trigger] table[j]).provider
                != provider || table[j].model_id != model_id by {
                if j > 0 {
                    assert(rest[j - 1] == table[j]);
                }
            }
        }
    }
}

/// Looking a recognition model up by its names finds a row of the table with these names, before which
/// there is none; where there is no such row, nothing is found.
pub proof fn law_stt_lookup_finds_the_first_row(
    table: Seq<SttView>,
    provider: Seq<char>,
    model_id: Seq<char>,
)
    ensures
        stt_with(table, provider, model_id) matches Some(m) ==> {
            &&& m.provider == provider
            &&& m.model_id == model_id
            &&& exists|k: int|
                0 <= k < table.len() && #[trigger] table[k] == m && forall|j: int|
                    0 <= j < k ==> (#[trigger] table[j]).provider != provider || table[j].model_id
                        != model_id
        },
        stt_with(table, provider, model_id) is None ==> forall|j: int|
            0 <= j < table.len() ==> (#[trigger] table[j]).provider != provider || table[j].model_id
                != model_id,
    decreases table.len(),
{
    if table.len() > 0 {
        let rest = table.drop_first();
        law_stt_lookup_finds_the_first_row(rest, provider, model_id);
        if table[0].provider == provider && table[0].model_id == model_id {
            assert(table[0] == stt_with(table, provider, model_id)->0);
        } else if stt_with(rest, provider, model_id) is Some {
            let m = stt_with(rest, provider, model_id)->0;
            let k = choose|k: int|
                0 <= k < rest.len() && #[trigger] rest[k] == m && forall|j: int|
                    0 <= j < k ==> (#[trigger] rest[j]).provider != provider || rest[j].model_id
                        != model_id;
            assert(table[k + 1] == m);
            assert forall|j: int| 0 <= j < k + 1 implies (#[trigger] table[j]).provider != provider
                || table[j].model_id != model_id by {
                if j > 0 {
                    assert(rest[j - 1] == table[j]);
                }
            }
        } else {
            assert forall|j: int| 0 <= j < table.len() implies (#[trigger] table[j]).provider
                != provider || table[j].model_id != model_id by {
                if j > 0 {
                    assert(rest[j - 1] == table[j]);
                }
            }
        }
    }
}

proof fn lemma_first_voice(voices: Seq<VoiceView>, base: Seq<char>)
    ensures
        first_voice(voices, base) matches Some(id) ==> exists|k: int|
            0 <= k < voices.len() && (#[trigger] voices[k]).0 == base && voices[k].1 == id
                && forall|j: int| 0 <= j < k ==> (#[trigger] voices[j]).0 != base,
        first_voice(voices, base) is None ==> forall|j: int|
            0 <= j < voices.len() ==> (#[trigger] voices[j]).0 != base,
    decreases voices.len(),
{
    if voices.len() > 0 {
        let rest = voices.drop_first();
        lemma_first_voice(rest, base);
        if voices[0].0 == base {
            assert(voices[0].1 == first_voice(voices, base)->0);
        } else if first_voice(rest, base) is Some {
            let id = first_voice(rest, base)->0;
            let k = choose|k: int|
                0 <= k < rest.len() && (#[trigger] rest[k]).0 == base && rest[k].1 == id
                    && forall|j: int| 0 <= j < k ==> (#[trigger] rest[j]).0 != base;
            assert(voices[k + 1].0 == base);
            assert forall|j: int| 0 <= j < k + 1 implies (#[trigger] voices[j]).0 != base by {
                if j > 0 {
                    assert(rest[j - 1] == voices[j]);
                }
            }
        } else {
            assert forall|j: int| 0 <= j < voices.len() implies (#[trigger] voices[j]).0 != base by {
                if j > 0 {
                    assert(rest[j - 1] == voices[j]);
                }
            }
        }
    }
}

/// The voice for a language is the first one of that language, and the first of all only where the
/// model has none of that language.
pub proof fn law_voices_speak_their_language(voices: Seq<VoiceView>, base: Seq<char>)
    ensures
        voice_for(voices, base) is None <==> voices.len() == 0,
        voice_for(voices, base) matches Some(id) ==> (exists|k: int|
            0 <= k < voices.len() && (#[trigger] voices[k]).0 == base && voices[k].1 == id
                && forall|j: int| 0 <= j < k ==> (#[trigger] voices[j]).0 != base) || (id
            == voices[0].1 && forall|j: int|
            0 <= j < voices.len() ==> (#[trigger] voices[j]).0 != base),
{
    lemma_first_voice(voices, base);
}

proof fn lemma_language_with(table: Seq<LanguageOption>, code: Seq<char>)
    ensures
        language_with(table, code) matches Some(l) ==> l.code@ == code && table.contains(l),
        language_with(table, code) is None ==> forall|j: int|
            0 <= j < table.len() ==> (#[trigger] table[j]).code@ != code,
    decreases table.len(),
{
    if table.len() > 0 {
        let rest = table.drop_first();
        lemma_language_with(rest, code);
        if table[0].code@ == code {
            assert(table.contains(table[0]));
        } else if language_with(rest, code) is Some {
            let l = language_with(rest, code)->0;
            assert(table[rest.index_of(l) + 1] == l);
        } else {
            assert forall|j: int| 0 <= j < table.len() implies (#[trigger] table[j]).code@ != code by {
                if j > 0 {
                    assert(rest[j - 1] == table[j]);
                }
            }
        }
    }
}

/// The codes of a language, with or without a region, stand together in one row of the table of
/// languages; a language that has no row has no codes.
pub proof fn law_codes_stand_in_one_row(lang: Seq<char>)
    ensures
        (exists|k: int|
            {
                let base = crate::text::before_char(lang, '-');
                &&& 0 <= k < 17
                &&& (#[trigger] SUPPORTED_LANGUAGES@[k]).0@ == base
                &&& elevenlabs_code_of(lang) == SUPPORTED_LANGUAGES@[k].2@
                &&& cartesia_code_of(lang) == SUPPORTED_LANGUAGES@[k].4@
                &&& listed_code(lang) == base
            }) || {
            &&& elevenlabs_code_of(lang).len() == 0
            &&& cartesia_code_of(lang).len() == 0
            &&& listed_code(lang).len() == 0
            &&& forall|k: int|
                0 <= k < 17 ==> (#[trigger] SUPPORTED_LANGUAGES@[k]).0@
                    != crate::text::before_char(lang, '-')
        },
{
    reveal_strlit("");
    let base = base_code(lang);
    lemma_language_with(language_table(), base);
    if language_with(language_table(), base) is Some {
        let l = language_with(language_table(), base)->0;
        let k = language_table().index_of(l);
        assert(language_table()[k] == l);
        assert(SUPPORTED_LANGUAGES@[k].0@ == base);
    } else {
        assert forall|k: int| 0 <= k < 17 implies (#[trigger] SUPPORTED_LANGUAGES@[k]).0@
            != base by {
            assert(language_table()[k].code@ == SUPPORTED_LANGUAGES@[k].0@);
        }
    }
}

/// The base code holds no hyphen, and a hyphen follows it or nothing does.
pub proof fn law_base_code_ends_at_the_hyphen(code: Seq<char>)
    ensures
        base_code(code).is_prefix_of(code),
        !base_code(code).contains('-'),
        base_code(code).len() < code.len() ==> code[base_code(code).len() as int] == '-',
{
    crate::text::law_before_the_first(code, '-');
}

/// The models suggested for a language are those of the table that list it, all of them and in its
/// order.
pub proof fn law_all_models_that_speak_are_suggested(table: Seq<TtsView>, code: Seq<char>)
    ensures
        models_listing(table, code) == table.filter(|m: TtsView| m.languages.contains(code)),
    decreases table.len(),
{
    reveal(Seq::filter);
    if table.len() > 0 {
        law_all_models_that_speak_are_suggested(table.drop_last(), code);
    }
}

/// A model can be used for the languages that it lists, whatever their region, and always for English
/// and for no language at all.
pub proof fn law_listed_languages_can_be_used(languages: Seq<Seq<char>>, lang: Seq<char>, i: int)
    ensures
        0 <= i < languages.len() && languages[i] == crate::text::before_char(lang, '-')
            ==> can_use(languages, lang),
        lang.len() == 0 ==> can_use(languages, lang),
        lang == "en"@ ==> can_use(languages, lang),
        can_use(languages, lang) && lang.len() > 0 && lang != "en"@ ==> exists|k: int|
            0 <= k < languages.len() && #[trigger] languages[k] == crate::text::before_char(
                lang,
                '-',
            ),
{
}

} // verus!
