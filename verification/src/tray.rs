//! The tray icon's look and menu, and whether the panel opens at start.
use vstd::prelude::*;

use crate::models::{find_model, installed_spec, is_installed};
use crate::text::str_eq;

verus! {

/// The tray title while busy: "REC" while recording, none otherwise.
pub fn tray_title(busy: bool) -> (t: Option<&'static str>)
    ensures
        busy ==> (t matches Some(s) && s@ == "REC"@),
        !busy ==> t is None,
{
    if busy {
        Some("REC")
    } else {
        None
    }
}

/// The tray tooltip.
pub fn tray_tooltip(busy: bool) -> (t: &'static str)
    ensures
        busy ==> t@ == "Mim TTS is recording"@,
        !busy ==> t@ == "Mim TTS"@,
{
    if busy {
        "Mim TTS is recording"
    } else {
        "Mim TTS"
    }
}

/// What a tray menu entry does.
#[derive(Debug, Clone, Copy, PartialEq, Eq, Structural)]
pub enum MenuAction {
    TogglePanel,
    Quit,
    Nothing,
}

/// The action of the tray menu entry with id `id`.
pub fn menu_action(id: &str) -> (a: MenuAction)
    ensures
        id@ == "show"@ ==> a == MenuAction::TogglePanel,
        id@ != "show"@ && id@ == "quit"@ ==> a == MenuAction::Quit,
        id@ != "show"@ && id@ != "quit"@ ==> a == MenuAction::Nothing,
{
    if str_eq(id, "show") {
        MenuAction::TogglePanel
    } else if str_eq(id, "quit") {
        MenuAction::Quit
    } else {
        MenuAction::Nothing
    }
}

/// Whether the panel opens at start: when the chosen model (`model`, `None`
/// when the settings could not be read) is not installed, so that the user
/// can download it. `size_bytes` is the size of its file.
pub fn should_show_panel_on_start(model: Option<&str>, size_bytes: Option<u64>) -> (show: bool)
    ensures
        match model {
            None => !show,
            Some(m) => show == !(find_model(m@) matches Some(def) && installed_spec(
                def,
                size_bytes,
            )),
        },
{
    match model {
        None => false,
        Some(m) => match is_installed(m, size_bytes) {
            Ok(installed) => !installed,
            Err(_) => true,
        },
    }
}

} // verus!
