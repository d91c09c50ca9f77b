//! How a paste attempt is reported.
use vstd::prelude::*;

use crate::permissions::PermissionStatus;

verus! {

/// The result of putting a transcript into the active app.
#[derive(Debug, Clone)]
pub struct PasteOutcome {
    pub pasted: bool,
    pub restored_text_clipboard: bool,
    pub message: String,
}

/// The report of a paste: when the key press could not be sent (`error`),
/// the text stays on the clipboard for a manual paste; otherwise it was
/// pasted, and the earlier clipboard text was put back when there was one.
pub fn paste_outcome(error: Option<&str>, restored: bool) -> (o: PasteOutcome)
    ensures
        match error {
            Some(e) => {
                &&& !o.pasted
                &&& !o.restored_text_clipboard
                &&& o.message@ == "Copied. Paste manually with Cmd+V. ("@ + e@ + ")"@
            },
            None => {
                &&& o.pasted
                &&& o.restored_text_clipboard == restored
                &&& o.message@ == "Pasted"@
            },
        },
{
    match error {
        Some(e) => {
            let mut message = String::from_str("Copied. Paste manually with Cmd+V. (");
            message.append(e);
            message.append(")");
            PasteOutcome { pasted: false, restored_text_clipboard: false, message }
        },
        None => PasteOutcome {
            pasted: true,
            restored_text_clipboard: restored,
            message: "Pasted".to_string(),
        },
    }
}

/// Whether the process may send key presses without asking: where the system
/// has no such permission, always.
pub fn accessibility_is_trusted() -> (b: bool)
    ensures
        b,
{
    true
}

/// Whether keyboard automation may go ahead after the accessibility
/// permission was requested, and the error reported when it may not.
pub fn automation_permission(status: &PermissionStatus) -> (r: Result<(), String>)
    ensures
        status.accessibility ==> r is Ok,
        !status.accessibility ==> (r matches Err(m)
            && m@ == "Accessibility permission is not enabled for keyboard automation"@),
{
    if status.accessibility {
        Ok(())
    } else {
        Err("Accessibility permission is not enabled for keyboard automation".to_string())
    }
}

} // verus!
