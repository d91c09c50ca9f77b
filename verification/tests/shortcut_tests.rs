use mim_tts::settings::DEFAULT_SHORTCUT;
use mim_tts::shortcut::{
    normalize_shortcut, plan_shortcut_change, shortcut_candidates, startup_shortcuts, ShortcutStep,
    StartupShortcuts,
};

#[test]
fn shortcut_candidates_try_preferred_first() {
    let candidates = shortcut_candidates("F10");
    assert_eq!(candidates.first().map(String::as_str), Some("F10"));
    assert!(candidates
        .iter()
        .any(|candidate| candidate == DEFAULT_SHORTCUT));
}

#[test]
fn shortcut_candidates_deduplicate_default() {
    let candidates = shortcut_candidates(DEFAULT_SHORTCUT);
    let default_count = candidates
        .iter()
        .filter(|candidate| candidate.as_str() == DEFAULT_SHORTCUT)
        .count();
    assert_eq!(default_count, 1);
}

#[test]
fn normalize_shortcut_uses_default_for_blank_values() {
    assert_eq!(normalize_shortcut("  "), DEFAULT_SHORTCUT);
    assert_eq!(normalize_shortcut(" F8 "), "F8");
}

#[test]
fn normalize_shortcut_preserves_fn_hotkey_aliases() {
    assert_eq!(normalize_shortcut("fn"), "Fn");
    assert_eq!(normalize_shortcut("Globe"), "Fn");
    assert_eq!(normalize_shortcut("Function"), "Fn");
}

#[test]
fn normalize_shortcut_option_aliases_and_idempotence() {
    assert_eq!(normalize_shortcut(" ALT "), "Option");
    assert_eq!(normalize_shortcut("option"), "Option");
    for s in ["", " F8", "fn", "Alt", "Control+Shift+Space", "\tCmd+K\n"] {
        let once = normalize_shortcut(s);
        assert_eq!(normalize_shortcut(&once), once);
    }
}

#[test]
fn shortcut_candidates_full_order() {
    assert_eq!(
        shortcut_candidates("F8"),
        vec!["F8", DEFAULT_SHORTCUT, "F9", "Control+Shift+Space"]
    );
    assert_eq!(
        shortcut_candidates(" "),
        vec![DEFAULT_SHORTCUT, "F8", "F9", "Control+Shift+Space"]
    );
    assert_eq!(
        shortcut_candidates("F10"),
        vec!["F10", DEFAULT_SHORTCUT, "F8", "F9", "Control+Shift+Space"]
    );
}

fn describe(steps: &[ShortcutStep]) -> Vec<String> {
    steps
        .iter()
        .map(|s| match s {
            ShortcutStep::Register { shortcut, required } => format!("+{}{}", shortcut, if *required { "!" } else { "" }),
            ShortcutStep::Unregister(s) => format!("-{}", s),
        })
        .collect()
}

#[test]
fn plan_between_ordinary_shortcuts() {
    let plan = plan_shortcut_change("F8", " F9 ", false, true);
    assert_eq!(plan.hotkey, "F9");
    assert_eq!(describe(&plan.steps), vec!["+F9!", "-F8"]);
    let plan = plan_shortcut_change("F8", "F8", false, true);
    assert!(plan.steps.is_empty());
    let plan = plan_shortcut_change("F8", "F8", false, false);
    assert_eq!(describe(&plan.steps), vec!["+F8!"]);
}

#[test]
fn plan_to_and_from_modifier() {
    let plan = plan_shortcut_change("F8", "globe", false, true);
    assert_eq!(plan.hotkey, "Fn");
    assert_eq!(describe(&plan.steps), vec!["-F8", format!("+{}", DEFAULT_SHORTCUT).as_str()]);
    let plan = plan_shortcut_change(DEFAULT_SHORTCUT, "alt", false, true);
    assert_eq!(plan.hotkey, "Option");
    assert_eq!(describe(&plan.steps), vec![format!("+{}", DEFAULT_SHORTCUT)]);
    let plan = plan_shortcut_change("Fn", "F9", false, false);
    assert_eq!(plan.hotkey, "F9");
    assert_eq!(describe(&plan.steps), vec!["+F9!".to_string(), format!("-{}", DEFAULT_SHORTCUT)]);
    let plan = plan_shortcut_change("Fn", "", true, false);
    assert_eq!(plan.hotkey, DEFAULT_SHORTCUT);
    assert!(plan.steps.is_empty());
}

#[test]
fn startup_shortcuts_modifier_or_candidates() {
    assert!(matches!(startup_shortcuts(" Fn "), StartupShortcuts::ModifierTap));
    match startup_shortcuts("F9") {
        StartupShortcuts::TryInOrder(c) => assert_eq!(c, vec!["F9", DEFAULT_SHORTCUT, "F8", "Control+Shift+Space"]),
        StartupShortcuts::ModifierTap => panic!("expected candidates"),
    }
}
