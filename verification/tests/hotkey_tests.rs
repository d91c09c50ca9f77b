use mim_tts::fn_hotkey::{
    begin_capture, cancel_capture, finish_capture, is_capturing, is_modifier_hotkey,
    modifier_from_event, modifier_from_setting, normalize_modifier_hotkey, tap_wanted,
    HotkeyCapture, ModifierHotkey, ModifierTap, ShortcutState, TapAction, EVENT_FLAGS_CHANGED,
    EVENT_FLAG_ALTERNATE, EVENT_FLAG_SECONDARY_FN, EVENT_TAP_DISABLED_BY_TIMEOUT, VK_FUNCTION,
    VK_OPTION_LEFT, VK_OPTION_RIGHT,
};

#[test]
fn modifier_aliases() {
    assert_eq!(normalize_modifier_hotkey(" GLOBE "), Some("Fn".to_string()));
    assert_eq!(normalize_modifier_hotkey("function"), Some("Fn".to_string()));
    assert_eq!(normalize_modifier_hotkey("Alt"), Some("Option".to_string()));
    assert_eq!(normalize_modifier_hotkey("F8"), None);
    assert!(is_modifier_hotkey("\toption\n"));
    assert!(!is_modifier_hotkey("Command+Space"));
    assert_eq!(modifier_from_setting("fn"), Some(ModifierHotkey::FnKey));
    assert_eq!(modifier_from_setting("alt"), Some(ModifierHotkey::OptionKey));
    assert_eq!(modifier_from_setting("F9"), None);
}

#[test]
fn capture_flag() {
    let mut c = HotkeyCapture::new();
    assert!(!is_capturing(&c));
    begin_capture(&mut c);
    assert!(is_capturing(&c));
    cancel_capture(&mut c);
    assert!(!is_capturing(&c));
    begin_capture(&mut c);
    finish_capture(&mut c);
    assert!(!is_capturing(&c));
}

#[test]
fn modifier_labels_flags_and_events() {
    assert_eq!(ModifierHotkey::FnKey.label(), "Fn");
    assert_eq!(ModifierHotkey::OptionKey.label(), "Option");
    assert!(ModifierHotkey::FnKey.is_down(EVENT_FLAG_SECONDARY_FN | 1));
    assert!(!ModifierHotkey::FnKey.is_down(EVENT_FLAG_ALTERNATE));
    assert!(ModifierHotkey::OptionKey.matches_key_code(VK_OPTION_RIGHT));
    assert!(!ModifierHotkey::OptionKey.matches_key_code(VK_FUNCTION));
    assert_eq!(modifier_from_event(0, VK_FUNCTION), Some(ModifierHotkey::FnKey));
    assert_eq!(modifier_from_event(EVENT_FLAG_ALTERNATE, 0), Some(ModifierHotkey::OptionKey));
    assert_eq!(modifier_from_event(0, VK_OPTION_LEFT), Some(ModifierHotkey::OptionKey));
    assert_eq!(modifier_from_event(0, 0), None);
    assert!(tap_wanted(true, None));
    assert!(tap_wanted(false, Some(ModifierHotkey::FnKey)));
    assert!(!tap_wanted(false, None));
}

#[test]
fn tap_reports_press_and_release_of_configured_modifier() {
    let mut tap = ModifierTap::new();
    let mut capture = HotkeyCapture::new();
    let fnk = Some(ModifierHotkey::FnKey);
    let a = tap.on_event(&mut capture, EVENT_FLAGS_CHANGED, true, fnk, EVENT_FLAG_SECONDARY_FN, VK_FUNCTION);
    assert_eq!(a, TapAction::Shortcut(ShortcutState::Pressed));
    let a = tap.on_event(&mut capture, EVENT_FLAGS_CHANGED, true, fnk, EVENT_FLAG_SECONDARY_FN, 0);
    assert_eq!(a, TapAction::Ignore);
    let a = tap.on_event(&mut capture, EVENT_FLAGS_CHANGED, true, fnk, 0, VK_FUNCTION);
    assert_eq!(a, TapAction::Shortcut(ShortcutState::Released));
    let a = tap.on_event(&mut capture, EVENT_TAP_DISABLED_BY_TIMEOUT, true, fnk, EVENT_FLAG_SECONDARY_FN, VK_FUNCTION);
    assert_eq!(a, TapAction::Ignore);
    let a = tap.on_event(&mut capture, EVENT_FLAGS_CHANGED, false, fnk, EVENT_FLAG_SECONDARY_FN, VK_FUNCTION);
    assert_eq!(a, TapAction::Ignore);
    assert!(!tap.pressed);
}

#[test]
fn tap_captures_first_modifier_press() {
    let mut tap = ModifierTap::new();
    let mut capture = HotkeyCapture::new();
    begin_capture(&mut capture);
    let a = tap.on_event(&mut capture, EVENT_FLAGS_CHANGED, true, None, 0, 0);
    assert_eq!(a, TapAction::Ignore);
    assert!(is_capturing(&capture));
    let a = tap.on_event(&mut capture, EVENT_FLAGS_CHANGED, true, None, EVENT_FLAG_ALTERNATE, VK_OPTION_LEFT);
    assert_eq!(a, TapAction::Captured(ModifierHotkey::OptionKey));
    assert!(!is_capturing(&capture));
    assert!(tap.pressed);
    let a = tap.on_event(&mut capture, EVENT_FLAGS_CHANGED, true, None, 0, VK_OPTION_LEFT);
    assert_eq!(a, TapAction::Ignore);
    assert!(!tap.pressed);
}

#[test]
fn capture_follows_last_call() {
    let mut c = HotkeyCapture::new();
    begin_capture(&mut c);
    begin_capture(&mut c);
    assert!(is_capturing(&c));
    assert!(is_capturing(&c));
    finish_capture(&mut c);
    cancel_capture(&mut c);
    assert!(!is_capturing(&c));
    begin_capture(&mut c);
    assert!(is_capturing(&c));
}
