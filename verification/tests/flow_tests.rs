use mim_tts::commands::{
    recording_precondition, shortcut_command, stop_step, RecordingCommand, StopAction, StopEvent,
    StopStage,
};
use mim_tts::db::word_count;
use mim_tts::fn_hotkey::ShortcutState;
use mim_tts::paste::{accessibility_is_trusted, automation_permission, paste_outcome, PasteOutcome};
use mim_tts::permissions::{
    check, mic_status_label, open_settings, request_accessibility, request_keyboard, request_mic,
    status_from_codes,
};
use mim_tts::system_audio::MuteTracker;
use mim_tts::text::{is_blank_str, trim};
use mim_tts::tray::{menu_action, should_show_panel_on_start, tray_title, tray_tooltip, MenuAction};

#[test]
fn trim_and_blank() {
    assert_eq!(trim("  a b \t"), "a b");
    assert_eq!(trim("\u{2003}x\u{3000}"), "x");
    assert_eq!(trim("   "), "");
    assert!(is_blank_str(" \n\t"));
    assert!(!is_blank_str(" . "));
}

#[test]
fn word_count_matches_split_whitespace() {
    for text in ["", "one", "  two  words ", "a\tb\nc", "\u{a0}x\u{2009}y z", "   "] {
        assert_eq!(word_count(text), text.split_whitespace().count());
    }
    assert_eq!(word_count("hello  world "), 2);
}

#[test]
fn shortcut_commands_by_mode() {
    let (start, stop, nothing) = (RecordingCommand::Start, RecordingCommand::Stop, RecordingCommand::Nothing);
    let (pressed, released) = (ShortcutState::Pressed, ShortcutState::Released);
    assert_eq!(shortcut_command(true, "hold", pressed, false), nothing);
    assert_eq!(shortcut_command(false, "hold", pressed, false), start);
    assert_eq!(shortcut_command(false, "hold", released, true), stop);
    assert_eq!(shortcut_command(false, "toggle", pressed, true), stop);
    assert_eq!(shortcut_command(false, "toggle", pressed, false), start);
    assert_eq!(shortcut_command(false, "toggle", released, true), nothing);
    assert_eq!(shortcut_command(false, "press", pressed, false), nothing);
}

#[test]
fn recording_needs_installed_model() {
    assert_eq!(recording_precondition("tiny", Some(75_000_000)), Ok(()));
    assert_eq!(
        recording_precondition("base", Some(10)),
        Err("Download the base model before recording.".to_string())
    );
    assert_eq!(recording_precondition("huge", None), Err("Unknown model: huge".to_string()));
}

fn finish_of(a: &StopAction) -> (String, String, bool, bool) {
    match a {
        StopAction::Finish { status, message, history_changed, with_transcript } => {
            (status.clone(), message.clone(), *history_changed, *with_transcript)
        }
        _ => panic!("expected finish"),
    }
}

#[test]
fn stop_flow_paths() {
    let (s, a) = stop_step(StopStage::Ready, StopEvent::Begin { is_recording: false });
    assert!(matches!(s, StopStage::Done));
    assert!(matches!(a, StopAction::Fail(ref m) if m == "Recording is not active"));

    let (s, a) = stop_step(StopStage::Ready, StopEvent::Begin { is_recording: true });
    assert!(matches!(a, StopAction::StopRecorder));
    let (_, a) = stop_step(s, StopEvent::Captured { has_speech: false });
    assert_eq!(finish_of(&a), ("idle".to_string(), "No speech detected".to_string(), false, false));

    let (s, a) = stop_step(StopStage::Capturing, StopEvent::Captured { has_speech: true });
    assert!(matches!(a, StopAction::Transcribe));
    let (_, a) = stop_step(s, StopEvent::Transcribed { text: "  \n".to_string(), auto_paste: true });
    assert_eq!(finish_of(&a), ("idle".to_string(), "No text detected".to_string(), false, true));

    let (s, a) = stop_step(StopStage::Transcribing, StopEvent::Transcribed { text: "hi".to_string(), auto_paste: true });
    assert!(matches!(a, StopAction::Paste));
    let outcome = PasteOutcome { pasted: true, restored_text_clipboard: false, message: "Pasted".to_string() };
    let (s, a) = stop_step(s, StopEvent::Pasted { outcome });
    assert!(matches!(a, StopAction::Save));
    let (s, a) = stop_step(s, StopEvent::Saved);
    assert!(matches!(s, StopStage::Done));
    assert_eq!(finish_of(&a), ("done".to_string(), "Pasted".to_string(), true, true));

    let (s, _) = stop_step(StopStage::Transcribing, StopEvent::Transcribed { text: "hi".to_string(), auto_paste: false });
    let (_, a) = stop_step(s, StopEvent::Saved);
    assert_eq!(finish_of(&a), ("done".to_string(), "Done".to_string(), true, true));

    let (s, a) = stop_step(StopStage::Pasting, StopEvent::Saved);
    assert!(matches!(s, StopStage::Pasting));
    assert!(matches!(a, StopAction::Ignore));
}

#[test]
fn paste_outcomes() {
    let o = paste_outcome(Some("no keyboard"), true);
    assert!(!o.pasted && !o.restored_text_clipboard);
    assert_eq!(o.message, "Copied. Paste manually with Cmd+V. (no keyboard)");
    let o = paste_outcome(None, true);
    assert!(o.pasted && o.restored_text_clipboard);
    assert_eq!(o.message, "Pasted");
    assert!(accessibility_is_trusted());
    let denied = status_from_codes(2, 0, 1);
    assert_eq!(
        automation_permission(&denied),
        Err("Accessibility permission is not enabled for keyboard automation".to_string())
    );
    assert_eq!(automation_permission(&check()), Ok(()));
}

#[test]
fn permission_statuses() {
    let s = check();
    assert_eq!(s.microphone, "authorized");
    assert!(s.accessibility && s.input_monitoring);
    request_mic();
    assert_eq!(request_accessibility().microphone, "authorized");
    assert!(request_keyboard().input_monitoring);
    assert_eq!(mic_status_label(0), "not_determined");
    assert_eq!(mic_status_label(1), "restricted");
    assert_eq!(mic_status_label(3), "authorized");
    assert_eq!(mic_status_label(7), "unknown");
    let s = status_from_codes(2, 1, 0);
    assert_eq!(s.microphone, "denied");
    assert!(s.accessibility && !s.input_monitoring);
    assert_eq!(
        open_settings("microphone"),
        Some("x-apple.systempreferences:com.apple.preference.security?Privacy_Microphone")
    );
    assert_eq!(
        open_settings("input_monitoring"),
        Some("x-apple.systempreferences:com.apple.preference.security?Privacy_ListenEvent")
    );
    assert_eq!(open_settings("camera"), None);
}

#[test]
fn mute_is_undone_once() {
    let mut t = MuteTracker::new();
    assert!(!t.mute_if_needed(false, false));
    assert!(!t.restore());
    assert!(!t.mute_if_needed(true, true));
    assert!(!t.restore());
    assert!(t.mute_if_needed(true, false));
    assert!(t.restore());
    assert!(!t.restore());
}

#[test]
fn tray_and_panel() {
    assert_eq!(tray_title(true), Some("REC"));
    assert_eq!(tray_title(false), None);
    assert_eq!(tray_tooltip(true), "Mim TTS is recording");
    assert_eq!(tray_tooltip(false), "Mim TTS");
    assert_eq!(menu_action("show"), MenuAction::TogglePanel);
    assert_eq!(menu_action("quit"), MenuAction::Quit);
    assert_eq!(menu_action("other"), MenuAction::Nothing);
    assert!(should_show_panel_on_start(Some("tiny"), None));
    assert!(!should_show_panel_on_start(Some("tiny"), Some(90_000_000)));
    assert!(should_show_panel_on_start(Some("huge"), Some(90_000_000)));
    assert!(!should_show_panel_on_start(None, None));
}

#[test]
fn history_columns_to_add() {
    let all = mim_tts::db::columns_to_add(false, false);
    assert_eq!(
        all,
        vec![mim_tts::db::MissingColumn::WordCount, mim_tts::db::MissingColumn::SpeechDuration]
    );
    assert_eq!(mim_tts::db::columns_to_add(true, false), vec![mim_tts::db::MissingColumn::SpeechDuration]);
    assert!(mim_tts::db::columns_to_add(true, true).is_empty());
}

#[test]
fn transcription_language_choice() {
    assert_eq!(mim_tts::settings::transcription_language(&vec!["de".to_string()]), "de");
    assert_eq!(
        mim_tts::settings::transcription_language(&vec!["de".to_string(), "en".to_string()]),
        "auto"
    );
    assert_eq!(mim_tts::settings::transcription_language(&Vec::new()), "auto");
}
