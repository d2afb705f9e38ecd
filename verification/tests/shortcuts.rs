use voicetypr_core::shortcuts::{
    action_preset, allows_single_key, check_shortcut_conflicts, clear_active_custom_shortcut_state,
    existing_hotkey_normalized, hold_shortcut_transition, next_ai_enabled, next_formatting_preset,
    normalized_custom_shortcut_conflict, pressed_shortcut_should_run, preset_from_name,
    shortcut_action_definitions, validate_binding_basics, validate_trigger_matches_action,
    CustomHoldTransition, EnhancementPreset, ShortcutAction, ShortcutBinding, ShortcutSettings,
    ShortcutState, ShortcutTrigger, StringSet, TriggerKind,
};

fn binding(id: &str, action: ShortcutAction, shortcut: &str, trigger: ShortcutTrigger, enabled: bool) -> ShortcutBinding {
    ShortcutBinding {
        id: id.to_string(),
        action,
        shortcut: shortcut.to_string(),
        trigger,
        enabled,
        allow_risky_combo: false,
        trigger_kind: TriggerKind::default(),
        modifier: None,
        double_tap_ms: None,
    }
}

#[test]
fn set_actions_select_their_presets() {
    assert_eq!(action_preset(ShortcutAction::SetWriting), Some(EnhancementPreset::Writing));
    assert_eq!(action_preset(ShortcutAction::SetCode), Some(EnhancementPreset::Code));
    assert_eq!(action_preset(ShortcutAction::ToggleRecording), None);
}

#[test]
fn ai_toggle_refuses_enabling_without_setup() {
    assert_eq!(next_ai_enabled(true, false), Some(false));
    assert_eq!(next_ai_enabled(false, true), Some(true));
    assert_eq!(next_ai_enabled(false, false), None);
}

#[test]
fn formatting_cycle_and_stored_names() {
    let mut p = EnhancementPreset::PersonalDictation;
    for _ in 0..6 {
        p = next_formatting_preset(p);
    }
    assert_eq!(p, EnhancementPreset::PersonalDictation);
    assert_eq!(next_formatting_preset(EnhancementPreset::Code), EnhancementPreset::PersonalDictation);
    assert_eq!(preset_from_name("Commit"), EnhancementPreset::Code);
    assert_eq!(preset_from_name("Notes"), EnhancementPreset::Notes);
    assert_eq!(preset_from_name("whatever"), EnhancementPreset::PersonalDictation);
}

#[test]
fn conflict_finds_the_first_enabled_binding() {
    let settings = ShortcutSettings {
        bindings: vec![
            binding("off", ShortcutAction::OpenDashboard, "Cmd+Shift+D", ShortcutTrigger::Pressed, false),
            binding("dash", ShortcutAction::OpenDashboard, "cmd+shift+d", ShortcutTrigger::Pressed, true),
            binding("later", ShortcutAction::SetNotes, "Ctrl+Shift+D", ShortcutTrigger::Pressed, true),
        ],
    };
    assert_eq!(
        normalized_custom_shortcut_conflict("CommandOrControl+Shift+d", &settings),
        Some("dash".to_string())
    );
    assert_eq!(normalized_custom_shortcut_conflict("Alt+X", &settings), None);
    assert!(ShortcutSettings::default().bindings.is_empty());
}

#[test]
fn triggers_must_fit_actions() {
    let ok = binding("h", ShortcutAction::HoldToRecord, "Cmd+H", ShortcutTrigger::Hold, true);
    assert!(validate_trigger_matches_action(&ok).is_ok());
    let bad = binding("h", ShortcutAction::HoldToRecord, "Cmd+H", ShortcutTrigger::Pressed, true);
    assert_eq!(
        validate_trigger_matches_action(&bad),
        Err("Hold-to-record shortcuts must use the hold trigger".to_string())
    );
    let bad = binding("c", ShortcutAction::CopyLastTranscription, "Cmd+C", ShortcutTrigger::Hold, true);
    assert_eq!(
        validate_trigger_matches_action(&bad),
        Err("Only hold-to-record shortcuts can use the hold trigger".to_string())
    );
    assert!(!allows_single_key(&ok));
}

#[test]
fn binding_basics_are_checked_in_order() {
    let b = binding("", ShortcutAction::OpenDashboard, "Cmd+D", ShortcutTrigger::Pressed, true);
    assert_eq!(validate_binding_basics(&b), Err("Shortcut binding id is required".to_string()));
    let b = binding("x", ShortcutAction::OpenDashboard, "", ShortcutTrigger::Pressed, true);
    assert_eq!(validate_binding_basics(&b), Err("Invalid shortcut for binding 'x'".to_string()));
    let long = "A".repeat(101);
    let b = binding("x", ShortcutAction::OpenDashboard, &long, ShortcutTrigger::Pressed, true);
    assert!(validate_binding_basics(&b).is_err());
    let b = binding("x", ShortcutAction::OpenDashboard, "Cmd+D", ShortcutTrigger::Pressed, true);
    assert!(validate_binding_basics(&b).is_ok());
}

#[test]
fn enabled_duplicates_and_reserved_keys_are_refused() {
    let primary = existing_hotkey_normalized(&Some("cmd+shift+space".to_string()));
    assert_eq!(primary.as_deref(), Some("CommandOrControl+Shift+Space"));
    let ptt: Option<String> = None;
    let mut seen = StringSet::new();
    assert_eq!(
        check_shortcut_conflicts("Cmd+Shift+Space", "CommandOrControl+Shift+Space", &primary, &ptt, &mut seen),
        Err("Shortcut 'Cmd+Shift+Space' duplicates the primary recording hotkey".to_string())
    );
    assert!(check_shortcut_conflicts("Alt+X", "Alt+X", &primary, &ptt, &mut seen).is_ok());
    assert_eq!(
        check_shortcut_conflicts("alt+x", "Alt+X", &primary, &ptt, &mut seen),
        Err("Duplicate enabled shortcut binding: alt+x".to_string())
    );
    assert_eq!(
        check_shortcut_conflicts("Escape", "Escape", &primary, &ptt, &mut seen),
        Err("Escape is reserved for recording cancellation".to_string())
    );
}

#[test]
fn pressed_bindings_run_once_per_press() {
    let mut active = StringSet::new();
    assert!(pressed_shortcut_should_run(&mut active, "a", ShortcutState::Pressed));
    assert!(!pressed_shortcut_should_run(&mut active, "a", ShortcutState::Pressed));
    assert!(!pressed_shortcut_should_run(&mut active, "a", ShortcutState::Released));
    assert!(pressed_shortcut_should_run(&mut active, "a", ShortcutState::Pressed));
}

#[test]
fn overlapping_holds_start_once_and_stop_on_last_release() {
    let mut active = StringSet::new();
    assert_eq!(hold_shortcut_transition(&mut active, "a", ShortcutState::Pressed), CustomHoldTransition::Start);
    assert_eq!(hold_shortcut_transition(&mut active, "b", ShortcutState::Pressed), CustomHoldTransition::Noop);
    assert_eq!(hold_shortcut_transition(&mut active, "a", ShortcutState::Released), CustomHoldTransition::Noop);
    assert_eq!(hold_shortcut_transition(&mut active, "b", ShortcutState::Released), CustomHoldTransition::Stop);
    assert_eq!(hold_shortcut_transition(&mut active, "b", ShortcutState::Released), CustomHoldTransition::Noop);
}

#[test]
fn clearing_state_forgets_held_bindings() {
    let mut holds = StringSet::new();
    let mut pressed = StringSet::new();
    hold_shortcut_transition(&mut holds, "a", ShortcutState::Pressed);
    pressed_shortcut_should_run(&mut pressed, "b", ShortcutState::Pressed);
    clear_active_custom_shortcut_state(&mut holds, &mut pressed);
    assert!(holds.is_empty() && pressed.is_empty());
}

#[test]
fn action_catalog_lists_every_action_once() {
    let defs = shortcut_action_definitions();
    assert_eq!(defs.len(), 14);
    assert_eq!(defs[0].label, "Toggle recording");
    assert_eq!(defs[1].recommended_trigger, ShortcutTrigger::Hold);
    assert_eq!(defs[13].section, "Dashboard");
    assert!(defs.iter().all(|d| d.allows_single_key));
    for (i, a) in defs.iter().enumerate() {
        for b in defs.iter().skip(i + 1) {
            assert_ne!(a.action, b.action);
        }
    }
}

use voicetypr_core::shortcuts::existing_shortcut_strings;

#[test]
fn existing_shortcuts_default_primary_and_ptt_only_with_separate_key() {
    let e = existing_shortcut_strings(None, None, None, Some("F5".into()));
    assert_eq!(e.primary_hotkey.as_deref(), Some("CommandOrControl+Shift+Space"));
    assert_eq!(e.ptt_hotkey, None);
    let e = existing_shortcut_strings(Some("Alt+Space".into()), Some("push_to_talk".into()), Some(true), Some("F5".into()));
    assert_eq!(e.primary_hotkey.as_deref(), Some("Alt+Space"));
    assert_eq!(e.ptt_hotkey.as_deref(), Some("F5"));
    let e = existing_shortcut_strings(None, Some("push_to_talk".into()), Some(false), Some("F5".into()));
    assert_eq!(e.ptt_hotkey, None);
    let e = existing_shortcut_strings(None, Some("toggle".into()), Some(true), Some("F5".into()));
    assert_eq!(e.ptt_hotkey, None);
}

use voicetypr_core::shortcuts::toggle_ai_formatting;

#[test]
fn toggling_ai_formatting_needs_a_usable_setup_to_enable() {
    let t = toggle_ai_formatting(true, false, "");
    assert_eq!((t.enabled, t.toast, t.toast_ms), (Some(false), "AI formatting off", 2500));
    let t = toggle_ai_formatting(false, true, "gpt-5");
    assert_eq!((t.enabled, t.toast, t.toast_ms), (Some(true), "AI formatting on", 2500));
    let t = toggle_ai_formatting(false, true, "");
    assert_eq!((t.enabled, t.toast, t.toast_ms), (None, "Set up an AI model in Settings to use formatting", 3500));
    assert_eq!(toggle_ai_formatting(false, false, "m").enabled, None);
}
