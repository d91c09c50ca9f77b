use mim_tts::commands::{set_activation_mode, set_audio_cues, set_auto_paste, set_hotkey, set_languages, set_model};
use mim_tts::settings::{is_supported_language, Settings, DEFAULT_SHORTCUT};

#[test]
fn normalize_replaces_invalid_model_mode_and_hotkey() {
    let mut settings = Settings {
        model: "large".to_string(),
        languages: vec!["de".to_string()],
        hotkey: "  ".to_string(),
        activation_mode: "press".to_string(),
        audio_cues: true,
        auto_paste: true,
        mute_during_recording: false,
    };

    settings.normalize();

    assert_eq!(settings.model, "tiny");
    assert_eq!(settings.activation_mode, "hold");
    assert_eq!(settings.hotkey, "CommandOrControl+Shift+Space");
}

#[test]
fn normalize_filters_sorts_and_deduplicates_languages() {
    let mut settings = Settings {
        languages: vec![
            "en".to_string(),
            "xx".to_string(),
            "de".to_string(),
            "en".to_string(),
        ],
        ..Settings::default_for(false)
    };

    settings.normalize();

    assert_eq!(settings.languages, vec!["de", "en"]);
}

#[test]
fn default_settings_values() {
    let s = Settings::default_for(false);
    assert_eq!(s.model, "base");
    assert_eq!(s.languages, vec!["de", "en"]);
    assert_eq!(s.hotkey, "F8");
    assert_eq!(Settings::default_for(true).hotkey, "Option");
    assert_eq!(Settings::default_for(false).hotkey, "F8");
    assert_eq!(s.activation_mode, "hold");
    assert!(s.audio_cues);
    assert!(s.auto_paste);
    assert!(!s.mute_during_recording);
}

#[test]
fn normalize_keeps_valid_settings() {
    let mut s = Settings {
        model: "small".to_string(),
        languages: vec!["sv".to_string(), "auto".to_string(), "pt".to_string(), "pl".to_string()],
        hotkey: " F9 ".to_string(),
        activation_mode: "toggle".to_string(),
        audio_cues: false,
        auto_paste: false,
        mute_during_recording: true,
    };
    s.normalize();
    assert_eq!(s.model, "small");
    assert_eq!(s.languages, vec!["auto", "pl", "pt", "sv"]);
    assert_eq!(s.hotkey, " F9 ");
    assert_eq!(s.activation_mode, "toggle");
    assert!(!s.audio_cues);
    assert!(!s.auto_paste);
    assert!(s.mute_during_recording);
}

#[test]
fn normalize_twice_equals_once() {
    let mut s = Settings {
        model: "medium".to_string(),
        languages: vec!["it".to_string(), "fr".to_string(), "it".to_string(), "EN".to_string(), "es".to_string(), "nl".to_string()],
        hotkey: "\t\n".to_string(),
        activation_mode: "".to_string(),
        audio_cues: true,
        auto_paste: false,
        mute_during_recording: false,
    };
    s.normalize();
    let once = (s.model.clone(), s.languages.clone(), s.hotkey.clone(), s.activation_mode.clone());
    s.normalize();
    assert_eq!((s.model.clone(), s.languages.clone(), s.hotkey.clone(), s.activation_mode.clone()), once);
    assert_eq!(s.languages, vec!["es", "fr", "it", "nl"]);
}

#[test]
fn normalize_treats_unicode_space_hotkey_as_blank() {
    let mut s = Settings { hotkey: "\u{3000}\u{a0}".to_string(), ..Settings::default_for(false) };
    s.normalize();
    assert_eq!(s.hotkey, DEFAULT_SHORTCUT);
}

#[test]
fn supported_language_list() {
    for lang in ["auto", "de", "en", "fr", "es", "it", "nl", "pl", "pt", "sv"] {
        assert!(is_supported_language(lang));
    }
    for lang in ["", "DE", "xx", "en ", "english"] {
        assert!(!is_supported_language(lang));
    }
}

#[test]
fn from_stored_uses_defaults_without_file() {
    let (s, created) = Settings::from_stored(None, true);
    assert!(created);
    assert_eq!(s.model, "base");
    assert_eq!(s.hotkey, "Option");
    assert_eq!(s.languages, vec!["de", "en"]);
    let stored = Settings { model: "huge".to_string(), ..Settings::default_for(false) };
    let (s, created) = Settings::from_stored(Some(stored), true);
    assert!(!created);
    assert_eq!(s.model, "tiny");
}

#[test]
fn set_model_accepts_known_models_only() {
    let mut s = Settings::default_for(false);
    assert!(set_model(&mut s, "small".to_string()).is_ok());
    assert_eq!(s.model, "small");
    assert_eq!(set_model(&mut s, "large".to_string()), Err("Unknown model".to_string()));
    assert_eq!(s.model, "small");
}

#[test]
fn set_activation_mode_accepts_hold_or_toggle() {
    let mut s = Settings::default_for(false);
    assert!(set_activation_mode(&mut s, "toggle".to_string()).is_ok());
    assert_eq!(s.activation_mode, "toggle");
    assert_eq!(
        set_activation_mode(&mut s, "press".to_string()),
        Err("Activation mode must be hold or toggle".to_string())
    );
    assert_eq!(s.activation_mode, "toggle");
}

#[test]
fn set_languages_filters_and_sorts() {
    let mut s = Settings::default_for(false);
    set_languages(&mut s, vec!["sv".to_string(), "zz".to_string(), "de".to_string(), "sv".to_string()]);
    assert_eq!(s.languages, vec!["de", "sv"]);
}

#[test]
fn set_hotkey_blank_falls_back_to_default() {
    let mut s = Settings::default_for(false);
    set_hotkey(&mut s, "F8".to_string());
    assert_eq!(s.hotkey, "F8");
    set_hotkey(&mut s, "   ".to_string());
    assert_eq!(s.hotkey, DEFAULT_SHORTCUT);
}

#[test]
fn set_flags() {
    let mut s = Settings::default_for(false);
    set_audio_cues(&mut s, false);
    set_auto_paste(&mut s, false);
    assert!(!s.audio_cues);
    assert!(!s.auto_paste);
}
