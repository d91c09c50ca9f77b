//! What the app reports about its operating-system permissions.
use vstd::prelude::*;

use crate::text::str_eq;

verus! {

/// The permissions the app depends on.
#[derive(Debug, Clone)]
pub struct PermissionStatus {
    /// One of "not_determined", "restricted", "denied", "authorized" or
    /// "unknown".
    pub microphone: String,
    pub accessibility: bool,
    pub input_monitoring: bool,
}

/// The name of a microphone authorization code of the system.
pub open spec fn mic_label(code: i32) -> Seq<char> {
    if code == 0 {
        "not_determined"@
    } else if code == 1 {
        "restricted"@
    } else if code == 2 {
        "denied"@
    } else if code == 3 {
        "authorized"@
    } else {
        "unknown"@
    }
}

/// The name of a microphone authorization code of the system.
pub fn mic_status_label(code: i32) -> (label: &'static str)
    ensures
        label@ == mic_label(code),
{
    match code {
        0 => "not_determined",
        1 => "restricted",
        2 => "denied",
        3 => "authorized",
        _ => "unknown",
    }
}

/// The status from the system's answers: a microphone code, and non-zero
/// for a granted accessibility or input-monitoring permission.
pub fn status_from_codes(mic: i32, accessibility: i32, input_monitoring: i32) -> (s:
    PermissionStatus)
    ensures
        s.microphone@ == mic_label(mic),
        s.accessibility == (accessibility != 0),
        s.input_monitoring == (input_monitoring != 0),
{
    PermissionStatus {
        microphone: mic_status_label(mic).to_string(),
        accessibility: accessibility != 0,
        input_monitoring: input_monitoring != 0,
    }
}

/// The status on a platform without such permissions: all granted.
pub open spec fn all_granted(s: PermissionStatus) -> bool {
    &&& s.microphone@ == "authorized"@
    &&& s.accessibility
    &&& s.input_monitoring
}

/// The permission status where the system asks for none: all granted.
pub fn check() -> (s: PermissionStatus)
    ensures
        all_granted(s),
{
    PermissionStatus {
        microphone: "authorized".to_string(),
        accessibility: true,
        input_monitoring: true,
    }
}

/// Asking for the microphone where the system asks for no permission: there
/// is nothing to do.
pub fn request_mic() {
}

/// Asking for accessibility where the system asks for no permission: the
/// status, all granted.
pub fn request_accessibility() -> (s: PermissionStatus)
    ensures
        all_granted(s),
{
    check()
}

/// Asking for keyboard access where the system asks for no permission: the
/// status, all granted.
pub fn request_keyboard() -> (s: PermissionStatus)
    ensures
        all_granted(s),
{
    check()
}

/// The System Settings page of a permission pane, if `pane` names one.
pub open spec fn settings_url(pane: Seq<char>) -> Option<Seq<char>> {
    if pane == "microphone"@ {
        Some("x-apple.systempreferences:com.apple.preference.security?Privacy_Microphone"@)
    } else if pane == "accessibility"@ {
        Some("x-apple.systempreferences:com.apple.preference.security?Privacy_Accessibility"@)
    } else if pane == "input_monitoring"@ {
        Some("x-apple.systempreferences:com.apple.preference.security?Privacy_ListenEvent"@)
    } else {
        None
    }
}

/// The System Settings page to open for `pane`; the app opens it where the
/// system has such pages, and an unknown pane opens nothing.
pub fn open_settings(pane: &str) -> (url: Option<&'static str>)
    ensures
        match url {
            Some(u) => settings_url(pane@) == Some(u@),
            None => settings_url(pane@) is None,
        },
{
    if str_eq(pane, "microphone") {
        Some("x-apple.systempreferences:com.apple.preference.security?Privacy_Microphone")
    } else if str_eq(pane, "accessibility") {
        Some("x-apple.systempreferences:com.apple.preference.security?Privacy_Accessibility")
    } else if str_eq(pane, "input_monitoring") {
        Some("x-apple.systempreferences:com.apple.preference.security?Privacy_ListenEvent")
    } else {
        None
    }
}

/// The system's microphone codes 0, 1, 2 and 3 read as "not_determined",
/// "restricted", "denied" and "authorized", four different names, and every
/// other code reads as "unknown".
pub proof fn lemma_mic_labels(code: i32)
    ensures
        mic_label(0) == "not_determined"@,
        mic_label(1) == "restricted"@,
        mic_label(2) == "denied"@,
        mic_label(3) == "authorized"@,
        !(0 <= code <= 3) ==> mic_label(code) == "unknown"@,
        forall|a: i32, b: i32|
            #![trigger mic_label(a), mic_label(b)]
            0 <= a <= 3 && 0 <= b <= 3 && a != b ==> mic_label(a) != mic_label(b),
        forall|a: i32| #![trigger mic_label(a)] 0 <= a <= 3 ==> mic_label(a) != "unknown"@,
{
    reveal_strlit("not_determined");
    reveal_strlit("restricted");
    reveal_strlit("denied");
    reveal_strlit("authorized");
    reveal_strlit("unknown");
    assert("restricted"@[0] != "authorized"@[0]);
}

/// Each permission pane opens its own System Settings page: the microphone
/// pane the `Privacy_Microphone` page, the accessibility pane the
/// `Privacy_Accessibility` page, the input-monitoring pane the
/// `Privacy_ListenEvent` page; the three pages differ, and any other pane
/// opens nothing.
pub proof fn lemma_settings_urls(pane: Seq<char>)
    ensures
        settings_url("microphone"@) == Some(
            "x-apple.systempreferences:com.apple.preference.security?Privacy_Microphone"@,
        ),
        settings_url("accessibility"@) == Some(
            "x-apple.systempreferences:com.apple.preference.security?Privacy_Accessibility"@,
        ),
        settings_url("input_monitoring"@) == Some(
            "x-apple.systempreferences:com.apple.preference.security?Privacy_ListenEvent"@,
        ),
        settings_url(pane) is Some <==> (pane == "microphone"@ || pane == "accessibility"@ || pane
            == "input_monitoring"@),
        forall|a: Seq<char>, b: Seq<char>|
            #![trigger settings_url(a), settings_url(b)]
            settings_url(a) is Some && settings_url(a) == settings_url(b) ==> a == b,
{
    reveal_strlit("microphone");
    reveal_strlit("accessibility");
    reveal_strlit("input_monitoring");
    assert("accessibility"@.len() != "microphone"@.len());
    assert("input_monitoring"@.len() != "microphone"@.len());
    assert("input_monitoring"@.len() != "accessibility"@.len());
    let mic = "x-apple.systempreferences:com.apple.preference.security?Privacy_Microphone";
    let acc = "x-apple.systempreferences:com.apple.preference.security?Privacy_Accessibility";
    let lis = "x-apple.systempreferences:com.apple.preference.security?Privacy_ListenEvent";
    reveal_strlit("x-apple.systempreferences:com.apple.preference.security?Privacy_Microphone");
    reveal_strlit("x-apple.systempreferences:com.apple.preference.security?Privacy_Accessibility");
    reveal_strlit("x-apple.systempreferences:com.apple.preference.security?Privacy_ListenEvent");
    assert(mic@.len() != acc@.len());
    assert(acc@.len() != lis@.len());
    assert(mic@.len() != lis@.len());
}

} // verus!
