# mim_tts

The logic of Mim TTS, a small menu-bar dictation app, written in Verus and
proved against its contracts.

- `src/` is the verified library: settings and their normalization, modifier
  hotkeys and the hotkey capture, global-shortcut planning, the model
  catalogue, permission and paste reports, the muting tracker, the tray, the
  microphone configuration choice, word counting, and the decisions behind
  the app's commands (including the steps that finish a recording).
- `tests/` runs the library on concrete values.
- `app/` is the desktop shell around it: the Tauri commands and tray, audio
  capture, transcription, the SQLite history, file and network I/O, and the
  macOS system calls.
