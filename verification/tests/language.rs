//! Languages and model catalogs.
use voice_engine::language_catalog::ELEVENLABS_MULTILINGUAL_MODELS;
use voice_engine::language_config::{
    cartesia_language_code, elevenlabs_language_code, is_elevenlabs_multilingual,
    normalize_to_base_code, stt_model_catalog, stt_model_lookup, stt_model_supports_language,
    supported_languages, tts_model_catalog, tts_model_lookup, tts_model_supports_language,
    tts_models_for_language,
};
use voice_engine::providers::stt::elevenlabs::{to_elevenlabs_language, LANGUAGE_CODES};

#[test]
fn normalize_strips_region() {
    assert_eq!(normalize_to_base_code("en-US"), "en");
    assert_eq!(normalize_to_base_code("pt-BR"), "pt");
    assert_eq!(normalize_to_base_code("zh-TW"), "zh");
    assert_eq!(normalize_to_base_code("en"), "en");
    assert_eq!(normalize_to_base_code(""), "");
}

#[test]
fn base_code_is_settled() {
    assert_eq!(normalize_to_base_code(normalize_to_base_code("zh-Hant-TW")), "zh");
    assert_eq!(normalize_to_base_code("-US"), "");
}

#[test]
fn elevenlabs_lookup_with_region_code() {
    assert_eq!(elevenlabs_language_code("es-ES"), "es");
    assert_eq!(elevenlabs_language_code("pt-BR"), "pt");
}

#[test]
fn unsupported_code_returns_empty() {
    assert_eq!(elevenlabs_language_code("xx"), "");
    assert_eq!(cartesia_language_code("xx-XX"), "");
}

#[test]
fn all_supported_languages_have_consistent_codes() {
    for lang in supported_languages() {
        assert!(!lang.code.is_empty(), "code empty for {}", lang.label);
        assert!(!lang.label.is_empty(), "label empty for {}", lang.code);
        assert!(!lang.elevenlabs_code.is_empty(), "elevenlabs_code empty for {}", lang.code);
        assert!(!lang.deepgram_code.is_empty(), "deepgram_code empty for {}", lang.code);
        assert!(!lang.cartesia_code.is_empty(), "cartesia_code empty for {}", lang.code);
    }
}

#[test]
fn elevenlabs_multilingual_models_not_empty() {
    assert!(!ELEVENLABS_MULTILINGUAL_MODELS.is_empty());
    assert!(is_elevenlabs_multilingual("eleven_flash_v2_5"));
    assert!(!is_elevenlabs_multilingual("no-such-model"));
}

#[test]
fn catalog_language_codes_are_valid() {
    let valid_codes: std::collections::HashSet<&str> =
        supported_languages().iter().map(|l| l.code).collect();
    for spec in tts_model_catalog() {
        for &lang in spec.supported_languages {
            assert!(
                valid_codes.contains(lang),
                "TTS_MODEL_CATALOG[{}/{}].supported_languages contains '{}' which is not in \
                 SUPPORTED_LANGUAGES",
                spec.provider,
                spec.model_id,
                lang,
            );
        }
        for voice in spec.voices() {
            assert!(
                valid_codes.contains(voice.language_code),
                "TTS_MODEL_CATALOG[{}/{}].language_voices contains language_code '{}' which is \
                 not in SUPPORTED_LANGUAGES",
                spec.provider,
                spec.model_id,
                voice.language_code,
            );
            assert!(
                !voice.voice_id.is_empty(),
                "TTS_MODEL_CATALOG[{}/{}] voice '{}' has empty voice_id",
                spec.provider,
                spec.model_id,
                voice.voice_label,
            );
        }
    }
}

#[test]
fn catalog_every_model_has_at_least_one_voice() {
    for spec in tts_model_catalog() {
        assert!(
            !spec.language_voices.is_empty(),
            "TTS_MODEL_CATALOG[{}/{}] has no language_voices entries",
            spec.provider,
            spec.model_id,
        );
    }
}

#[test]
fn tts_model_supports_language_multilingual() {
    assert!(tts_model_supports_language("cartesia-ws", "sonic-2", "ja"));
    assert!(tts_model_supports_language("elevenlabs-ws", "eleven_flash_v2_5", "zh"));
    assert!(tts_model_supports_language("deepgram-ws", "aura-2", "en"));
    assert!(tts_model_supports_language("deepgram-ws", "aura-2", "ja"));
    assert!(!tts_model_supports_language("deepgram-ws", "aura-2", "zh"));
}

#[test]
fn tts_model_supports_language_english_always_ok() {
    assert!(tts_model_supports_language("unknown-provider", "unknown-model", "en"));
    assert!(tts_model_supports_language("unknown-provider", "unknown-model", ""));
}

#[test]
fn tts_model_supports_language_unknown_model_returns_false() {
    assert!(!tts_model_supports_language("cartesia-ws", "sonic-english", "es"));
}

#[test]
fn tts_models_for_language_returns_multilingual_models() {
    let zh_models = tts_models_for_language("zh");
    assert!(zh_models.iter().any(|m| m.model_id == "sonic-2"));
    assert!(zh_models.iter().any(|m| m.model_id == "eleven_flash_v2_5"));
    assert!(!zh_models.iter().any(|m| m.provider.starts_with("deepgram")));
}

#[test]
fn default_voice_for_language_multilingual() {
    let spec = tts_model_lookup("cartesia-ws", "sonic-2").unwrap();
    assert_eq!(
        spec.default_voice_for_language("ja"),
        Some("694f9389-aac1-45b6-b726-9d9369183238")
    );
    assert_eq!(
        spec.default_voice_for_language("en"),
        Some("694f9389-aac1-45b6-b726-9d9369183238")
    );
}

#[test]
fn default_voice_for_language_deepgram() {
    let spec = tts_model_lookup("deepgram-ws", "aura-2").unwrap();
    assert_eq!(spec.default_voice_for_language("en"), Some("aura-2-thalia-en"));
}

#[test]
fn region_does_not_matter_for_support() {
    assert_eq!(
        tts_model_supports_language("cartesia-ws", "sonic-2", "ja-JP"),
        tts_model_supports_language("cartesia-ws", "sonic-2", "ja")
    );
    assert!(!tts_model_supports_language("unknown", "unknown", "en-GB"));
}

#[test]
fn stt_catalog_is_searchable() {
    for spec in stt_model_catalog() {
        let found = stt_model_lookup(spec.provider, spec.model_id).unwrap();
        assert_eq!(found.label, spec.label);
        for lang in spec.supported_languages {
            assert!(stt_model_supports_language(spec.provider, spec.model_id, lang));
        }
    }
    assert!(stt_model_lookup("deepgram", "no-such-model").is_none());
    assert!(!stt_model_supports_language("deepgram", "no-such-model", "fr"));
    assert!(stt_model_supports_language("deepgram", "no-such-model", "en"));
    assert!(!stt_model_supports_language("deepgram", "no-such-model", "en-US"));
}

#[test]
fn elevenlabs_codes_have_three_letters() {
    assert_eq!(to_elevenlabs_language("en"), "eng");
    assert_eq!(to_elevenlabs_language("sd"), "snd");
    assert_eq!(to_elevenlabs_language("deu"), "deu");
    assert_eq!(to_elevenlabs_language("zz"), "zz");
    for (two, three) in LANGUAGE_CODES {
        assert_eq!(two.len(), 2);
        assert_eq!(three.len(), 3);
        assert_eq!(to_elevenlabs_language(two), three);
    }
}
