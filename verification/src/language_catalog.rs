//! The static catalog of languages, models and voices.
//!
//! This is the single source of truth for what a language, model or voice can do; none of it is
//! user data.
use vstd::prelude::*;

verus! {

/// Languages: code, label, and the codes that ElevenLabs, Deepgram and Cartesia use for it.
pub const SUPPORTED_LANGUAGES: [(
    &'static str,
    &'static str,
    &'static str,
    &'static str,
    &'static str,
); 17] = [
    ("en", "English", "en", "en", "en"),
    ("es", "Spanish", "es", "es", "es"),
    ("fr", "French", "fr", "fr", "fr"),
    ("de", "German", "de", "de", "de"),
    ("pt", "Portuguese", "pt", "pt", "pt"),
    ("it", "Italian", "it", "it", "it"),
    ("ja", "Japanese", "ja", "ja", "ja"),
    ("ko", "Korean", "ko", "ko", "ko"),
    ("zh", "Chinese (Mandarin, Simplified)", "zh", "zh", "zh"),
    ("zh-TW", "Chinese (Mandarin, Traditional)", "zh", "zh-TW", "zh"),
    ("zh-HK", "Chinese (Cantonese, Traditional)", "zh", "zh-HK", "zh"),
    ("ar", "Arabic", "ar", "ar", "ar"),
    ("hi", "Hindi", "hi", "hi", "hi"),
    ("nl", "Dutch", "nl", "nl", "nl"),
    ("ru", "Russian", "ru", "ru", "ru"),
    ("pl", "Polish", "pl", "pl", "pl"),
    ("sv", "Swedish", "sv", "sv", "sv"),
];

/// ElevenLabs models that take the language as a parameter. Older models speak the language of
/// their voice.
pub const ELEVENLABS_MULTILINGUAL_MODELS: [&'static str; 2] = [
    "eleven_flash_v2_5",
    "eleven_turbo_v2_5",
];

/// Languages of the multilingual models.
pub const CORE_LANGUAGES: [&'static str; 15] = [
    "en", "es", "fr", "de", "pt", "it", "ja", "ko", "zh", "ar", "hi", "nl", "ru", "pl", "sv",
];

/// Languages of the Aura voices.
pub const AURA_LANGUAGES: [&'static str; 7] = [
    "en", "es", "de", "fr", "nl", "it", "ja",
];

/// English alone.
pub const ENGLISH_ONLY: [&'static str; 1] = [
    "en",
];

/// Arabic alone.
pub const ARABIC_ONLY: [&'static str; 1] = [
    "ar",
];

/// Languages of Nova 3.
pub const NOVA_3_LANGUAGES: [&'static str; 49] = [
    "ar", "be", "bn", "bs", "bg", "ca", "zh", "hr", "cs", "da", "nl", "en", "et", "fi", "fr", "de",
    "el", "he", "hi", "hu", "id", "it", "ja", "kn", "ko", "lv", "lt", "mk", "ms", "mr", "no", "fa",
    "pl", "pt", "ro", "ru", "sr", "sk", "sl", "es", "sv", "tl", "ta", "te", "th", "tr", "uk", "ur",
    "vi",
];

/// Languages of Nova 2.
pub const NOVA_2_LANGUAGES: [&'static str; 33] = [
    "bg", "ca", "zh", "cs", "da", "nl", "en", "et", "fi", "fr", "de", "el", "hi", "hu", "id", "it",
    "ja", "ko", "lv", "lt", "ms", "no", "pl", "pt", "ro", "ru", "sk", "es", "sv", "th", "tr", "uk",
    "vi",
];

/// Languages of Ink Whisper.
pub const INK_LANGUAGES: [&'static str; 100] = [
    "en", "zh", "de", "es", "ru", "ko", "fr", "ja", "pt", "tr", "pl", "ca", "nl", "ar", "sv", "it",
    "id", "hi", "fi", "vi", "he", "uk", "el", "ms", "cs", "ro", "da", "hu", "ta", "no", "th", "ur",
    "hr", "bg", "lt", "la", "mi", "ml", "cy", "sk", "te", "fa", "lv", "bn", "sr", "az", "sl", "kn",
    "et", "mk", "br", "eu", "is", "hy", "ne", "mn", "bs", "kk", "sq", "sw", "gl", "mr", "pa", "si",
    "km", "sn", "yo", "so", "af", "oc", "ka", "be", "tg", "sd", "gu", "am", "yi", "lo", "uz", "fo",
    "ht", "ps", "tk", "nn", "mt", "sa", "lb", "my", "bo", "tl", "mg", "as", "tt", "haw", "ln",
    "ha", "ba", "jw", "su", "yue",
];

/// Voices of the Cartesia models; any voice speaks any language.
pub const CARTESIA_VOICES: [(&'static str, &'static str, &'static str); 1] = [
    ("en", "694f9389-aac1-45b6-b726-9d9369183238", "Barbershop Man"),
];

/// Voices of the ElevenLabs models; any voice speaks any language.
pub const ELEVENLABS_VOICES: [(&'static str, &'static str, &'static str); 1] = [
    ("en", "21m00Tcm4TlvDq8ikWAM", "Rachel"),
];

/// Voices of Aura; each speaks one language.
pub const AURA_VOICES: [(&'static str, &'static str, &'static str); 17] = [
    ("en", "aura-2-thalia-en", "Thalia (F)"),
    ("en", "aura-2-zeus-en", "Zeus (M)"),
    ("en", "aura-2-luna-en", "Luna (F)"),
    ("en", "aura-2-apollo-en", "Apollo (M)"),
    ("es", "aura-2-celeste-es", "Celeste (F)"),
    ("es", "aura-2-nestor-es", "Nestor (M)"),
    ("es", "aura-2-estrella-es", "Estrella (F)"),
    ("de", "aura-2-julius-de", "Julius (M)"),
    ("de", "aura-2-viktoria-de", "Viktoria (F)"),
    ("fr", "aura-2-agathe-fr", "Agathe (F)"),
    ("fr", "aura-2-hector-fr", "Hector (M)"),
    ("nl", "aura-2-rhea-nl", "Rhea (F)"),
    ("nl", "aura-2-sander-nl", "Sander (M)"),
    ("it", "aura-2-livia-it", "Livia (F)"),
    ("it", "aura-2-dionisio-it", "Dionisio (M)"),
    ("ja", "aura-2-fujin-ja", "Fujin (M)"),
    ("ja", "aura-2-izanami-ja", "Izanami (F)"),
];

/// Voices of the current OpenAI model.
pub const OPENAI_VOICES: [(&'static str, &'static str, &'static str); 13] = [
    ("en", "alloy", "Alloy"),
    ("en", "ash", "Ash"),
    ("en", "ballad", "Ballad"),
    ("en", "cedar", "Cedar"),
    ("en", "coral", "Coral"),
    ("en", "echo", "Echo"),
    ("en", "fable", "Fable"),
    ("en", "marin", "Marin"),
    ("en", "nova", "Nova"),
    ("en", "onyx", "Onyx"),
    ("en", "sage", "Sage"),
    ("en", "shimmer", "Shimmer"),
    ("en", "verse", "Verse"),
];

/// Voices of the older OpenAI models.
pub const OPENAI_CLASSIC_VOICES: [(&'static str, &'static str, &'static str); 9] = [
    ("en", "alloy", "Alloy"),
    ("en", "ash", "Ash"),
    ("en", "coral", "Coral"),
    ("en", "echo", "Echo"),
    ("en", "fable", "Fable"),
    ("en", "nova", "Nova"),
    ("en", "onyx", "Onyx"),
    ("en", "sage", "Sage"),
    ("en", "shimmer", "Shimmer"),
];

/// Voices of English Orpheus.
pub const ORPHEUS_ENGLISH_VOICES: [(&'static str, &'static str, &'static str); 6] = [
    ("en", "autumn", "Autumn (F)"),
    ("en", "diana", "Diana (F)"),
    ("en", "hannah", "Hannah (F)"),
    ("en", "austin", "Austin (M)"),
    ("en", "daniel", "Daniel (M)"),
    ("en", "troy", "Troy (M)"),
];

/// Voices of Arabic Orpheus.
pub const ORPHEUS_ARABIC_VOICES: [(&'static str, &'static str, &'static str); 4] = [
    ("ar", "fahad", "Fahad (M)"),
    ("ar", "sultan", "Sultan (M)"),
    ("ar", "lulwa", "Lulwa (F)"),
    ("ar", "noura", "Noura (F)"),
];

} // verus!
