//! The decisions behind the app's commands: settings changes, what a hotkey
//! event starts or stops, and the steps of finishing a recording.
use vstd::prelude::*;

use crate::fn_hotkey::ShortcutState;
use crate::models::{find_model, installed_spec, is_installed, ModelError};
use crate::paste::PasteOutcome;
use crate::settings::{is_activation_mode, is_known_model, normalized, strings_view, Settings, SettingsView};
use crate::text::{is_blank, is_blank_str, str_eq};

verus! {

/// Chooses the model to transcribe with; only a known model is accepted.
pub fn set_model(settings: &mut Settings, model: String) -> (r: Result<(), String>)
    ensures
        is_known_model(model@) ==> r is Ok && final(settings)@ == (SettingsView {
            model: model@,
            ..old(settings)@
        }),
        !is_known_model(model@) ==> (r matches Err(m) && m@ == "Unknown model"@)
            && final(settings)@ == old(settings)@,
{
    let m = model.as_str();
    if !(str_eq(m, "tiny") || str_eq(m, "base") || str_eq(m, "small")) {
        return Err("Unknown model".to_string());
    }
    settings.model = model;
    Ok(())
}

/// Sets the transcription languages: the supported ones of `langs`, sorted
/// and deduplicated by normalizing.
pub fn set_languages(settings: &mut Settings, langs: Vec<String>)
    ensures
        final(settings)@ == normalized(
            (SettingsView { languages: strings_view(langs@), ..old(settings)@ }),
        ),
{
    settings.languages = langs;
    settings.normalize();
}

/// Stores the hotkey that was registered, then normalizes the settings.
pub fn set_hotkey(settings: &mut Settings, hotkey: String)
    ensures
        final(settings)@ == normalized((SettingsView { hotkey: hotkey@, ..old(settings)@ })),
{
    settings.hotkey = hotkey;
    settings.normalize();
}

/// Chooses how the hotkey drives recording; only "hold" and "toggle" are
/// accepted.
pub fn set_activation_mode(settings: &mut Settings, mode: String) -> (r: Result<(), String>)
    ensures
        is_activation_mode(mode@) ==> r is Ok && final(settings)@ == (SettingsView {
            activation_mode: mode@,
            ..old(settings)@
        }),
        !is_activation_mode(mode@) ==> (r matches Err(m) && m@
            == "Activation mode must be hold or toggle"@) && final(settings)@ == old(settings)@,
{
    let m = mode.as_str();
    if !(str_eq(m, "hold") || str_eq(m, "toggle")) {
        return Err("Activation mode must be hold or toggle".to_string());
    }
    settings.activation_mode = mode;
    Ok(())
}

/// Turns the start and stop sounds on or off.
pub fn set_audio_cues(settings: &mut Settings, enabled: bool)
    ensures
        final(settings)@ == (SettingsView { audio_cues: enabled, ..old(settings)@ }),
{
    settings.audio_cues = enabled;
}

/// Turns pasting the transcript into the active app on or off.
pub fn set_auto_paste(settings: &mut Settings, enabled: bool)
    ensures
        final(settings)@ == (SettingsView { auto_paste: enabled, ..old(settings)@ }),
{
    settings.auto_paste = enabled;
}

/// Turns muting system audio during a recording on or off.
pub fn set_mute_during_recording(settings: &mut Settings, enabled: bool)
    ensures
        final(settings)@ == (SettingsView { mute_during_recording: enabled, ..old(settings)@ }),
{
    settings.mute_during_recording = enabled;
}

/// What a hotkey event asks of the recorder.
#[derive(Debug, Clone, Copy, PartialEq, Eq, Structural)]
pub enum RecordingCommand {
    Start,
    Stop,
    Nothing,
}

/// The recorder command for a hotkey event: nothing while a new hotkey is
/// being captured; in "hold" mode a press starts and a release stops; in
/// "toggle" mode a press stops a running recording or starts one, and a
/// release does nothing.
pub fn shortcut_command(
    capturing: bool,
    activation_mode: &str,
    state: ShortcutState,
    is_recording: bool,
) -> (c: RecordingCommand)
    ensures
        capturing ==> c == RecordingCommand::Nothing,
        !capturing && activation_mode@ == "hold"@ ==> c == (match state {
            ShortcutState::Pressed => RecordingCommand::Start,
            ShortcutState::Released => RecordingCommand::Stop,
        }),
        !capturing && activation_mode@ == "toggle"@ ==> c == (match state {
            ShortcutState::Pressed => if is_recording {
                RecordingCommand::Stop
            } else {
                RecordingCommand::Start
            },
            ShortcutState::Released => RecordingCommand::Nothing,
        }),
        !is_activation_mode(activation_mode@) ==> c == RecordingCommand::Nothing,
{
    proof {
        reveal_strlit("hold");
        reveal_strlit("toggle");
        assert("hold"@.len() != "toggle"@.len());
    }
    if capturing {
        return RecordingCommand::Nothing;
    }
    if str_eq(activation_mode, "hold") {
        match state {
            ShortcutState::Pressed => RecordingCommand::Start,
            ShortcutState::Released => RecordingCommand::Stop,
        }
    } else if str_eq(activation_mode, "toggle") {
        match state {
            ShortcutState::Pressed => if is_recording {
                RecordingCommand::Stop
            } else {
                RecordingCommand::Start
            },
            ShortcutState::Released => RecordingCommand::Nothing,
        }
    } else {
        RecordingCommand::Nothing
    }
}

/// Whether a recording may start with model `model`, whose file has
/// `size_bytes`: the model must be known and installed.
pub fn recording_precondition(model: &str, size_bytes: Option<u64>) -> (r: Result<(), String>)
    ensures
        match find_model(model@) {
            None => r matches Err(m) && m@ == "Unknown model: "@ + model@,
            Some(def) => if installed_spec(def, size_bytes) {
                r is Ok
            } else {
                r matches Err(m) && m@ == "Download the "@ + model@ + " model before recording."@
            },
        },
{
    match is_installed(model, size_bytes) {
        Err(e) => Err(e.message()),
        Ok(true) => Ok(()),
        Ok(false) => {
            let mut m = String::from_str("Download the ");
            m.append(model);
            m.append(" model before recording.");
            Err(m)
        },
    }
}

/// Where the finishing of a recording stands.
pub enum StopStage {
    /// Nothing done yet.
    Ready,
    /// Waiting for the recorder to hand over the audio.
    Capturing,
    /// Waiting for the transcript.
    Transcribing,
    /// Waiting for the paste to finish.
    Pasting,
    /// Waiting for the history entry to be written; `message` is the one the
    /// user will see.
    Saving { message: String },
    /// Finished.
    Done,
}

/// What the app learnt from the last piece of outside work.
pub enum StopEvent {
    /// Finishing was requested; whether a recording runs.
    Begin { is_recording: bool },
    /// The recorder stopped; whether the audio holds speech.
    Captured { has_speech: bool },
    /// The transcript arrived; whether to paste it, per the settings.
    Transcribed { text: String, auto_paste: bool },
    /// The paste finished with this outcome.
    Pasted { outcome: PasteOutcome },
    /// The history entry was written.
    Saved,
}

/// What the app does next.
pub enum StopAction {
    /// Give up with this error.
    Fail(String),
    /// Stop the recorder and report `Captured`.
    StopRecorder,
    /// Report "transcribing", run the transcriber and report `Transcribed`.
    Transcribe,
    /// Paste the transcript and report `Pasted`.
    Paste,
    /// Write the transcript to the history and report `Saved`.
    Save,
    /// Clear the busy tray, report `status` with `message`, announce a
    /// changed history when `history_changed`, and return the result with
    /// the transcript when `with_transcript`.
    Finish { status: String, message: String, history_changed: bool, with_transcript: bool },
    /// The event does not belong to this stage; nothing changes.
    Ignore,
}

/// How many steps at most remain from a stage.
pub open spec fn stages_left(stage: StopStage) -> nat {
    match stage {
        StopStage::Ready => 5,
        StopStage::Capturing => 4,
        StopStage::Transcribing => 3,
        StopStage::Pasting => 2,
        StopStage::Saving { .. } => 1,
        StopStage::Done => 0,
    }
}

/// Whether `a` finishes with the given report.
pub open spec fn finishes(
    a: StopAction,
    status: Seq<char>,
    message: Seq<char>,
    history_changed: bool,
    with_transcript: bool,
) -> bool {
    a matches StopAction::Finish { status: s, message: m, history_changed: h, with_transcript: w }
        && s@ == status && m@ == message && h == history_changed && w == with_transcript
}

/// One step of finishing a recording.
///
/// A request without a running recording fails; audio without speech ends
/// with "No speech detected"; a blank transcript ends with "No text
/// detected"; otherwise the transcript is pasted when `auto_paste` is set
/// and saved, and the recording ends "done" with the paste's message, or
/// "Done" without a paste.
pub fn stop_step(stage: StopStage, event: StopEvent) -> (r: (StopStage, StopAction))
    ensures
        match (stage, event) {
            (StopStage::Ready, StopEvent::Begin { is_recording }) => if is_recording {
                r.0 == StopStage::Capturing && r.1 == StopAction::StopRecorder
            } else {
                r.0 == StopStage::Done && (r.1 matches StopAction::Fail(m) && m@
                    == "Recording is not active"@)
            },
            (StopStage::Capturing, StopEvent::Captured { has_speech }) => if has_speech {
                r.0 == StopStage::Transcribing && r.1 == StopAction::Transcribe
            } else {
                r.0 == StopStage::Done && finishes(
                    r.1,
                    "idle"@,
                    "No speech detected"@,
                    false,
                    false,
                )
            },
            (StopStage::Transcribing, StopEvent::Transcribed { text, auto_paste }) => if is_blank(
                text@,
            ) {
                r.0 == StopStage::Done && finishes(r.1, "idle"@, "No text detected"@, false, true)
            } else if auto_paste {
                r.0 == StopStage::Pasting && r.1 == StopAction::Paste
            } else {
                r.0 matches StopStage::Saving { message } && message@ == "Done"@ && r.1
                    == StopAction::Save
            },
            (StopStage::Pasting, StopEvent::Pasted { outcome }) => r.0 matches StopStage::Saving {
                message,
            } && message@ == outcome.message@ && r.1 == StopAction::Save,
            (StopStage::Saving { message }, StopEvent::Saved) => r.0 == StopStage::Done
                && finishes(r.1, "done"@, message@, true, true),
            (s, _) => r.0 == s && r.1 == StopAction::Ignore,
        },
        !(r.1 is Ignore) ==> stages_left(r.0) < stages_left(stage),
        r.1 is Finish || r.1 is Fail ==> r.0 is Done,
{
    match (stage, event) {
        (StopStage::Ready, StopEvent::Begin { is_recording }) => {
            if is_recording {
                (StopStage::Capturing, StopAction::StopRecorder)
            } else {
                (StopStage::Done, StopAction::Fail("Recording is not active".to_string()))
            }
        },
        (StopStage::Capturing, StopEvent::Captured { has_speech }) => {
            if has_speech {
                (StopStage::Transcribing, StopAction::Transcribe)
            } else {
                (
                    StopStage::Done,
                    StopAction::Finish {
                        status: "idle".to_string(),
                        message: "No speech detected".to_string(),
                        history_changed: false,
                        with_transcript: false,
                    },
                )
            }
        },
        (StopStage::Transcribing, StopEvent::Transcribed { text, auto_paste }) => {
            if is_blank_str(text.as_str()) {
                (
                    StopStage::Done,
                    StopAction::Finish {
                        status: "idle".to_string(),
                        message: "No text detected".to_string(),
                        history_changed: false,
                        with_transcript: true,
                    },
                )
            } else if auto_paste {
                (StopStage::Pasting, StopAction::Paste)
            } else {
                (StopStage::Saving { message: "Done".to_string() }, StopAction::Save)
            }
        },
        (StopStage::Pasting, StopEvent::Pasted { outcome }) => {
            (StopStage::Saving { message: outcome.message }, StopAction::Save)
        },
        (StopStage::Saving { message }, StopEvent::Saved) => {
            (
                StopStage::Done,
                StopAction::Finish {
                    status: "done".to_string(),
                    message,
                    history_changed: true,
                    with_transcript: true,
                },
            )
        },
        (s, _) => (s, StopAction::Ignore),
    }
}

} // verus!
