//! Modifier-key hotkeys (Fn or Option held on its own) and the capture mode
//! in which the next modifier press becomes the new hotkey.
use vstd::prelude::*;

use crate::text::{ascii_lowercase, str_eq, to_ascii_lowercase, trim, trimmed};

verus! {

/// Event type of a change in the modifier flags.
pub const EVENT_FLAGS_CHANGED: u32 = 12;

/// Event type sent when the system disabled the tap after a timeout.
pub const EVENT_TAP_DISABLED_BY_TIMEOUT: u32 = 0xFFFF_FFFE;

/// Event type sent when the system disabled the tap on user input.
pub const EVENT_TAP_DISABLED_BY_USER_INPUT: u32 = 0xFFFF_FFFF;

/// Event flag of the Fn (globe) key.
pub const EVENT_FLAG_SECONDARY_FN: u64 = 0x0080_0000;

/// Event flag of the Option (alternate) key.
pub const EVENT_FLAG_ALTERNATE: u64 = 0x0008_0000;

/// Virtual key code of the Fn key.
pub const VK_FUNCTION: i64 = 0x3F;

/// Virtual key code of the left Option key.
pub const VK_OPTION_LEFT: i64 = 0x3A;

/// Virtual key code of the right Option key.
pub const VK_OPTION_RIGHT: i64 = 0x3D;

/// The canonical name of a modifier hotkey setting, if it names one: any
/// spelling of fn, globe or function is "Fn", and of option or alt is
/// "Option", ignoring surrounding white space and ASCII case.
pub open spec fn modifier_name(value: Seq<char>) -> Option<Seq<char>> {
    let key = ascii_lowercase(trimmed(value));
    if key == "fn"@ || key == "globe"@ || key == "function"@ {
        Some("Fn"@)
    } else if key == "option"@ || key == "alt"@ {
        Some("Option"@)
    } else {
        None
    }
}

/// The canonical modifier name of a hotkey setting, or `None` when the
/// setting is an ordinary shortcut.
pub fn normalize_modifier_hotkey(value: &str) -> (r: Option<String>)
    ensures
        match r {
            Some(name) => modifier_name(value@) == Some(name@),
            None => modifier_name(value@) is None,
        },
{
    let key = to_ascii_lowercase(trim(value));
    let k = key.as_str();
    if str_eq(k, "fn") || str_eq(k, "globe") || str_eq(k, "function") {
        Some("Fn".to_string())
    } else if str_eq(k, "option") || str_eq(k, "alt") {
        Some("Option".to_string())
    } else {
        None
    }
}

/// Whether a hotkey setting names a modifier key.
pub fn is_modifier_hotkey(value: &str) -> (r: bool)
    ensures
        r == modifier_name(value@) is Some,
{
    normalize_modifier_hotkey(value).is_some()
}

/// Normalizing a modifier name gives the same name back.
pub proof fn lemma_modifier_name_idempotent(value: Seq<char>)
    requires
        modifier_name(value) is Some,
    ensures
        modifier_name(modifier_name(value)->0) == modifier_name(value),
{
    reveal_strlit("Fn");
    reveal_strlit("fn");
    reveal_strlit("Option");
    reveal_strlit("option");
    reveal_strlit("globe");
    reveal_strlit("function");
    reveal_strlit("alt");
    let name = modifier_name(value)->0;
    assert(!crate::text::is_white_space(name[0]));
    assert(crate::text::trim_start_spec(name) == name);
    assert(!crate::text::is_white_space(name.last()));
    assert(crate::text::trim_end_spec(name) == name);
    if name == "Fn"@ {
        assert(ascii_lowercase(name) =~= "fn"@);
    } else {
        assert(ascii_lowercase(name) =~= "option"@);
    }
}

/// Whether the next modifier press should be captured as the new hotkey.
/// Its model is that flag.
pub struct HotkeyCapture {
    active: bool,
}

impl View for HotkeyCapture {
    type V = bool;

    closed spec fn view(&self) -> bool {
        self.active
    }
}

impl HotkeyCapture {
    /// No capture in progress.
    pub fn new() -> (c: Self)
        ensures
            !c@,
            c@ == capture_after(Seq::empty()),
    {
        HotkeyCapture { active: false }
    }
}

/// A call that changes the capture flag.
pub enum CaptureOp {
    Begin,
    Cancel,
    Finish,
}

/// The capture flag after one call, from `active`.
pub open spec fn capture_step(active: bool, op: CaptureOp) -> bool {
    match op {
        CaptureOp::Begin => true,
        CaptureOp::Cancel => false,
        CaptureOp::Finish => false,
    }
}

/// The capture flag after the calls `ops`, in order, from a new flag.
pub open spec fn capture_after(ops: Seq<CaptureOp>) -> bool
    decreases ops.len(),
{
    if ops.len() == 0 {
        false
    } else {
        capture_step(capture_after(ops.drop_last()), ops.last())
    }
}

/// A capture is in progress exactly when the last call was `begin_capture`;
/// there is none before any call.
pub proof fn lemma_capture_after(ops: Seq<CaptureOp>)
    ensures
        capture_after(ops) == (ops.len() > 0 && ops.last() is Begin),
{
}

/// Starts capturing the next modifier press as the hotkey.
pub fn begin_capture(capture: &mut HotkeyCapture)
    ensures
        final(capture)@ == capture_step(old(capture)@, CaptureOp::Begin),
        final(capture)@,
{
    capture.active = true;
}

/// Abandons a capture.
pub fn cancel_capture(capture: &mut HotkeyCapture)
    ensures
        final(capture)@ == capture_step(old(capture)@, CaptureOp::Cancel),
        !final(capture)@,
{
    capture.active = false;
}

/// Ends a capture once a modifier was taken.
pub fn finish_capture(capture: &mut HotkeyCapture)
    ensures
        final(capture)@ == capture_step(old(capture)@, CaptureOp::Finish),
        !final(capture)@,
{
    capture.active = false;
}

/// Whether a capture is in progress; asking changes nothing.
pub fn is_capturing(capture: &HotkeyCapture) -> (b: bool)
    ensures
        b == capture@,
{
    capture.active
}

/// A modifier key that can serve as the hotkey on its own.
#[derive(Debug, Clone, Copy, PartialEq, Eq, Structural)]
pub enum ModifierHotkey {
    FnKey,
    OptionKey,
}

impl ModifierHotkey {
    /// The setting value naming this modifier.
    pub open spec fn label_spec(self) -> Seq<char> {
        match self {
            ModifierHotkey::FnKey => "Fn"@,
            ModifierHotkey::OptionKey => "Option"@,
        }
    }

    /// The event flag that is set while this modifier is held.
    pub open spec fn flag_spec(self) -> u64 {
        match self {
            ModifierHotkey::FnKey => EVENT_FLAG_SECONDARY_FN,
            ModifierHotkey::OptionKey => EVENT_FLAG_ALTERNATE,
        }
    }

    /// Whether a key code belongs to this modifier's key(s).
    pub open spec fn key_code_spec(self, key_code: i64) -> bool {
        match self {
            ModifierHotkey::FnKey => key_code == VK_FUNCTION,
            ModifierHotkey::OptionKey => key_code == VK_OPTION_LEFT || key_code == VK_OPTION_RIGHT,
        }
    }

    /// The setting value naming this modifier.
    pub fn label(self) -> (s: &'static str)
        ensures
            s@ == self.label_spec(),
    {
        match self {
            ModifierHotkey::FnKey => "Fn",
            ModifierHotkey::OptionKey => "Option",
        }
    }

    /// The event flag that is set while this modifier is held.
    pub fn flag(self) -> (f: u64)
        ensures
            f == self.flag_spec(),
    {
        match self {
            ModifierHotkey::FnKey => EVENT_FLAG_SECONDARY_FN,
            ModifierHotkey::OptionKey => EVENT_FLAG_ALTERNATE,
        }
    }

    /// Whether the event flags show this modifier held.
    pub fn is_down(self, flags: u64) -> (b: bool)
        ensures
            b == (flags & self.flag_spec() != 0),
    {
        flags & self.flag() != 0
    }

    /// Whether a key code belongs to this modifier's key(s).
    pub fn matches_key_code(self, key_code: i64) -> (b: bool)
        ensures
            b == self.key_code_spec(key_code),
    {
        match self {
            ModifierHotkey::FnKey => key_code == VK_FUNCTION,
            ModifierHotkey::OptionKey => key_code == VK_OPTION_LEFT || key_code == VK_OPTION_RIGHT,
        }
    }
}

/// Fn is held exactly when the event flags carry bit 0x0080_0000, and Option
/// exactly when they carry bit 0x0008_0000.
pub proof fn lemma_modifier_flags(flags: u64)
    ensures
        ModifierHotkey::FnKey.flag_spec() == 0x0080_0000u64,
        ModifierHotkey::OptionKey.flag_spec() == 0x0008_0000u64,
        (flags & ModifierHotkey::FnKey.flag_spec() != 0) == (flags & 0x0080_0000u64 != 0),
        (flags & ModifierHotkey::OptionKey.flag_spec() != 0) == (flags & 0x0008_0000u64 != 0),
{
}

/// The modifier that an event is about: Fn when its key or flag shows,
/// otherwise Option when its keys or flag show.
pub open spec fn event_modifier(flags: u64, key_code: i64) -> Option<ModifierHotkey> {
    if key_code == VK_FUNCTION || flags & EVENT_FLAG_SECONDARY_FN != 0 {
        Some(ModifierHotkey::FnKey)
    } else if key_code == VK_OPTION_LEFT || key_code == VK_OPTION_RIGHT || flags
        & EVENT_FLAG_ALTERNATE != 0 {
        Some(ModifierHotkey::OptionKey)
    } else {
        None
    }
}

/// The modifier that an event is about, if any.
pub fn modifier_from_event(flags: u64, key_code: i64) -> (m: Option<ModifierHotkey>)
    ensures
        m == event_modifier(flags, key_code),
{
    if key_code == VK_FUNCTION || flags & EVENT_FLAG_SECONDARY_FN != 0 {
        Some(ModifierHotkey::FnKey)
    } else if key_code == VK_OPTION_LEFT || key_code == VK_OPTION_RIGHT || flags
        & EVENT_FLAG_ALTERNATE != 0 {
        Some(ModifierHotkey::OptionKey)
    } else {
        None
    }
}

/// The modifier a hotkey setting names.
pub open spec fn setting_modifier(value: Seq<char>) -> Option<ModifierHotkey> {
    match modifier_name(value) {
        Some(name) => if name == "Fn"@ {
            Some(ModifierHotkey::FnKey)
        } else {
            Some(ModifierHotkey::OptionKey)
        },
        None => None,
    }
}

/// The modifier a hotkey setting names, or `None` for an ordinary shortcut.
pub fn modifier_from_setting(value: &str) -> (m: Option<ModifierHotkey>)
    ensures
        m == setting_modifier(value@),
{
    proof {
        reveal_strlit("Fn");
        reveal_strlit("Option");
    }
    match normalize_modifier_hotkey(value) {
        Some(name) => {
            if str_eq(name.as_str(), "Fn") {
                Some(ModifierHotkey::FnKey)
            } else if str_eq(name.as_str(), "Option") {
                Some(ModifierHotkey::OptionKey)
            } else {
                None
            }
        },
        None => None,
    }
}

/// Whether the modifier tap has anything to watch: a capture in progress or
/// a modifier configured as the hotkey. Without either it stays off.
pub fn tap_wanted(capturing: bool, configured: Option<ModifierHotkey>) -> (b: bool)
    ensures
        b == (capturing || configured is Some),
{
    capturing || configured.is_some()
}

/// Whether the hotkey went down or up.
#[derive(Debug, Clone, Copy, PartialEq, Eq, Structural)]
pub enum ShortcutState {
    Pressed,
    Released,
}

/// What the app does after a modifier event.
#[derive(Debug, Clone, Copy, PartialEq, Eq, Structural)]
pub enum TapAction {
    /// Nothing to do.
    Ignore,
    /// The capture took this modifier; the app reports it as the new hotkey.
    Captured(ModifierHotkey),
    /// The configured modifier went down or up; the app runs the shortcut.
    Shortcut(ShortcutState),
}

/// The Fn key has key code 0x3F and the Option keys 0x3A (left) and 0x3D
/// (right); an event is about Fn when its key is Fn or bit 0x0080_0000 is
/// set, otherwise about Option when its key is an Option key or bit
/// 0x0008_0000 is set, and otherwise about no modifier.
pub proof fn lemma_modifier_keys(flags: u64, key_code: i64)
    ensures
        ModifierHotkey::FnKey.key_code_spec(key_code) <==> key_code == 0x3F,
        ModifierHotkey::OptionKey.key_code_spec(key_code) <==> (key_code == 0x3A || key_code
            == 0x3D),
        (key_code == 0x3F || flags & 0x0080_0000u64 != 0) ==> event_modifier(flags, key_code)
            == Some(ModifierHotkey::FnKey),
        !(key_code == 0x3F || flags & 0x0080_0000u64 != 0) && (key_code == 0x3A || key_code
            == 0x3D || flags & 0x0008_0000u64 != 0) ==> event_modifier(flags, key_code) == Some(
            ModifierHotkey::OptionKey,
        ),
        !(key_code == 0x3F || flags & 0x0080_0000u64 != 0) && !(key_code == 0x3A || key_code
            == 0x3D || flags & 0x0008_0000u64 != 0) ==> event_modifier(flags, key_code) is None,
{
}

/// With a modifier configured and no capture running, a flags change reports
/// a press only when that modifier's own flag bit is set (0x0080_0000 for
/// Fn, 0x0008_0000 for Option), a release only when it is clear, and either
/// only when the held state changes.
pub proof fn lemma_tap_reports_own_flag(
    m: ModifierHotkey,
    was: bool,
    flags: u64,
    key_code: i64,
    action: TapAction,
    now: bool,
)
    requires
        ({
            let down = flags & m.flag_spec() != 0;
            let relevant = m.key_code_spec(key_code) || down || was;
            if relevant && down != was {
                &&& now == down
                &&& action == TapAction::Shortcut(
                    if down {
                        ShortcutState::Pressed
                    } else {
                        ShortcutState::Released
                    },
                )
            } else {
                action == TapAction::Ignore && now == was
            }
        }),
    ensures
        action == TapAction::Shortcut(ShortcutState::Pressed) ==> !was && now && (match m {
            ModifierHotkey::FnKey => flags & 0x0080_0000u64 != 0,
            ModifierHotkey::OptionKey => flags & 0x0008_0000u64 != 0,
        }),
        action == TapAction::Shortcut(ShortcutState::Released) ==> was && !now && (match m {
            ModifierHotkey::FnKey => flags & 0x0080_0000u64 == 0,
            ModifierHotkey::OptionKey => flags & 0x0008_0000u64 == 0,
        }),
        action == TapAction::Ignore ==> now == was,
{
    lemma_modifier_flags(flags);
}

/// The state kept between modifier events: whether the watched modifier is
/// held.
pub struct ModifierTap {
    pub pressed: bool,
}

impl ModifierTap {
    /// No modifier held.
    pub fn new() -> (t: Self)
        ensures
            !t.pressed,
    {
        ModifierTap { pressed: false }
    }

    /// Handles one event of the modifier tap.
    ///
    /// Events other than a flags change, and events without payload, are
    /// passed over. While capturing, the first press of Fn or Option ends the
    /// capture and is reported. Otherwise a change of the configured
    /// modifier's state is reported as a press or a release; with no modifier
    /// configured the held state is cleared.
    pub fn on_event(
        &mut self,
        capture: &mut HotkeyCapture,
        event_type: u32,
        has_payload: bool,
        configured: Option<ModifierHotkey>,
        flags: u64,
        key_code: i64,
    ) -> (action: TapAction)
        ensures
            !(event_type == EVENT_FLAGS_CHANGED && has_payload) ==> {
                &&& action == TapAction::Ignore
                &&& final(self).pressed == old(self).pressed
                &&& final(capture)@ == old(capture)@
            },
            (event_type == EVENT_FLAGS_CHANGED && has_payload && old(capture)@) ==> match
                event_modifier(flags, key_code) {
                None => {
                    &&& action == TapAction::Ignore
                    &&& final(self).pressed == old(self).pressed
                    &&& final(capture)@
                },
                Some(m) => {
                    let down = flags & m.flag_spec() != 0;
                    let was = old(self).pressed;
                    let relevant = m.key_code_spec(key_code) || down || was;
                    &&& final(self).pressed == (if relevant {
                        down
                    } else {
                        was
                    })
                    &&& (relevant && down && !was) ==> (action == TapAction::Captured(m)
                        && !final(capture)@)
                    &&& !(relevant && down && !was) ==> (action == TapAction::Ignore
                        && final(capture)@)
                },
            },
            (event_type == EVENT_FLAGS_CHANGED && has_payload && !old(capture)@) ==> {
                &&& final(capture)@ == old(capture)@
                &&& match configured {
                    None => action == TapAction::Ignore && !final(self).pressed,
                    Some(m) => {
                        let down = flags & m.flag_spec() != 0;
                        let was = old(self).pressed;
                        let relevant = m.key_code_spec(key_code) || down || was;
                        if relevant && down != was {
                            &&& final(self).pressed == down
                            &&& action == TapAction::Shortcut(
                                if down {
                                    ShortcutState::Pressed
                                } else {
                                    ShortcutState::Released
                                },
                            )
                        } else {
                            action == TapAction::Ignore && final(self).pressed == was
                        }
                    },
                }
            },
    {
        if event_type == EVENT_TAP_DISABLED_BY_TIMEOUT || event_type
            == EVENT_TAP_DISABLED_BY_USER_INPUT {
            return TapAction::Ignore;
        }
        if event_type != EVENT_FLAGS_CHANGED || !has_payload {
            return TapAction::Ignore;
        }
        if is_capturing(capture) {
            let modifier = match modifier_from_event(flags, key_code) {
                Some(m) => m,
                None => {
                    return TapAction::Ignore;
                },
            };
            let down = modifier.is_down(flags);
            let was_down = self.pressed;
            let relevant = modifier.matches_key_code(key_code) || down || was_down;
            if relevant {
                self.pressed = down;
            }
            if relevant && down && !was_down {
                finish_capture(capture);
                return TapAction::Captured(modifier);
            }
            return TapAction::Ignore;
        }
        let modifier = match configured {
            Some(m) => m,
            None => {
                self.pressed = false;
                return TapAction::Ignore;
            },
        };
        let down = modifier.is_down(flags);
        let was_down = self.pressed;
        let relevant = modifier.matches_key_code(key_code) || down || was_down;
        if relevant && down != was_down {
            self.pressed = down;
            let state = if down {
                ShortcutState::Pressed
            } else {
                ShortcutState::Released
            };
            return TapAction::Shortcut(state);
        }
        TapAction::Ignore
    }
}

} // verus!
