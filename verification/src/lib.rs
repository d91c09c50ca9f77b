//! Logic of a small dictation app: settings, hotkeys, model catalogue,
//! permission and paste decisions, and the recording flow.
pub mod text;
pub mod audio;
pub mod settings;
pub mod fn_hotkey;
pub mod shortcut;
pub mod models;
pub mod permissions;
pub mod paste;
pub mod system_audio;
pub mod db;
pub mod tray;
pub mod commands;
