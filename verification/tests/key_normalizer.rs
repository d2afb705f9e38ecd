use voicetypr_core::key_normalizer::{
    normalize_shortcut_keys, validate_key_combination, validate_key_combination_with_rules,
    KeyValidationRules,
};

#[test]
fn test_normalize_shortcut_keys() {
    assert_eq!(normalize_shortcut_keys("CommandOrControl+Shift+Space"), "CommandOrControl+Shift+Space");

    assert_eq!(normalize_shortcut_keys("Return"), "Enter");
    assert_eq!(normalize_shortcut_keys("ArrowUp"), "Up");
    assert_eq!(normalize_shortcut_keys("CommandOrControl+ArrowDown"), "CommandOrControl+Down");
    assert_eq!(normalize_shortcut_keys("Shift+Return"), "Shift+Enter");
    assert_eq!(normalize_shortcut_keys("Cmd+Shift+Space"), "CommandOrControl+Shift+Space");
    assert_eq!(normalize_shortcut_keys("Space"), "Space");
    assert_eq!(normalize_shortcut_keys("F1"), "F1");

    assert_eq!(normalize_shortcut_keys("cmd+shift+space"), "CommandOrControl+Shift+Space");
    assert_eq!(normalize_shortcut_keys("ctrl+shift+space"), "CommandOrControl+Shift+Space");
    assert_eq!(normalize_shortcut_keys("CMD+SHIFT+SPACE"), "CommandOrControl+Shift+Space");
    assert_eq!(normalize_shortcut_keys("alt+a"), "Alt+a");
    assert_eq!(normalize_shortcut_keys("SHIFT+F1"), "Shift+F1");

    assert_eq!(normalize_shortcut_keys("Alt"), "Alt");
    assert_eq!(normalize_shortcut_keys("Shift"), "Shift");
    assert_eq!(normalize_shortcut_keys("Control"), "Control");
    assert_eq!(normalize_shortcut_keys("Ctrl"), "CommandOrControl");
    assert_eq!(normalize_shortcut_keys("Command"), "CommandOrControl");
    assert_eq!(normalize_shortcut_keys("Cmd"), "CommandOrControl");

    assert_eq!(normalize_shortcut_keys("Alt+A"), "Alt+A");
    assert_eq!(normalize_shortcut_keys("Shift+Space"), "Shift+Space");

    assert_eq!(normalize_shortcut_keys("Super+A"), "Super+A");
    assert_eq!(normalize_shortcut_keys("Super+Control+A"), "Super+Control+A");
    assert_eq!(normalize_shortcut_keys("Super+Control+Alt+A"), "Super+Control+Alt+A");
    assert_eq!(normalize_shortcut_keys("Super+Control+Alt+Shift+A"), "Super+Control+Alt+Shift+A");
}

#[test]
fn test_validate_key_combination() {
    assert!(validate_key_combination("CommandOrControl+A").is_ok());
    assert!(validate_key_combination("Shift+Alt+F1").is_ok());
    assert!(validate_key_combination("A").is_err());
    assert!(validate_key_combination("A+B").is_err());
    assert!(validate_key_combination("A+CommandOrControl").is_err());
    assert!(validate_key_combination("Space+Shift").is_err());
    assert!(validate_key_combination("Cmd+Shift+Alt+Ctrl+A+B").is_err());
    assert!(validate_key_combination("CommandOrControl+InvalidKey").is_ok());

    assert!(validate_key_combination("CommandOrControl+/").is_ok());
    assert!(validate_key_combination("Cmd+\\").is_ok());
    assert!(validate_key_combination("Ctrl+,").is_ok());
    assert!(validate_key_combination("Shift+.").is_ok());
    assert!(validate_key_combination("Alt+;").is_ok());
    assert!(validate_key_combination("CommandOrControl+[").is_ok());
    assert!(validate_key_combination("CommandOrControl+]").is_ok());
    assert!(validate_key_combination("Cmd+-").is_ok());
    assert!(validate_key_combination("Cmd+=").is_ok());
    assert!(validate_key_combination("/").is_err());

    assert!(validate_key_combination("CommandOrControl+Slash").is_ok());
    assert!(validate_key_combination("Cmd+BracketLeft").is_ok());
    assert!(validate_key_combination("Ctrl+Minus").is_ok());

    assert!(validate_key_combination("CommandOrControl+Numpad0").is_ok());
    assert!(validate_key_combination("Alt+NumpadAdd").is_ok());
    assert!(validate_key_combination("Shift+NumpadEnter").is_ok());

    assert!(validate_key_combination("MediaPlayPause").is_err());
    assert!(validate_key_combination("AudioVolumeUp").is_err());

    assert!(validate_key_combination("PrintScreen").is_err());
    assert!(validate_key_combination("Cmd+Insert").is_ok());
    assert!(validate_key_combination("Alt+CapsLock").is_ok());

    assert!(validate_key_combination("Shift+1").is_ok());
    assert!(validate_key_combination("Shift+2").is_ok());
    assert!(validate_key_combination("Cmd+Shift+3").is_ok());

    assert!(validate_key_combination("CommandOrControl+ü").is_ok());
    assert!(validate_key_combination("Alt+ñ").is_ok());

    assert!(validate_key_combination("Super+A").is_ok());
    assert!(validate_key_combination("Super+Control+A").is_ok());
    assert!(validate_key_combination("Super+Control+Alt+A").is_ok());
    assert!(validate_key_combination("Super+Control+Alt+Shift+A").is_ok());
    assert!(validate_key_combination("Control+Alt+A").is_ok());
    assert!(validate_key_combination("Control+Shift+A").is_ok());
}

#[test]
fn validation_errors_name_the_broken_rule() {
    assert_eq!(validate_key_combination("A"), Err("Minimum 2 key(s) required".to_string()));
    assert_eq!(
        validate_key_combination("Cmd+Shift+Alt+Ctrl+A+B"),
        Err("Maximum 5 keys allowed in combination".to_string())
    );
    assert_eq!(
        validate_key_combination("CommandOrControl+"),
        Err("Invalid key: ".to_string())
    );
    let loose = KeyValidationRules {
        min_keys: 1,
        max_keys: 3,
        require_modifier: false,
        require_modifier_for_multi_key: true,
    };
    assert!(validate_key_combination_with_rules("F1", &loose).is_ok());
    assert_eq!(
        validate_key_combination_with_rules("A+B", &loose),
        Err("Multi-key shortcuts must include at least one modifier key".to_string())
    );
}

#[test]
fn standard_rules_are_two_to_five_keys_with_a_leading_modifier() {
    let r = KeyValidationRules::standard();
    assert_eq!((r.min_keys, r.max_keys), (2, 5));
    assert!(r.require_modifier && r.require_modifier_for_multi_key);
}

#[test]
fn normalization_is_keywise_and_keeps_the_key_count() {
    let n = normalize_shortcut_keys("Cmd+Shift+Return");
    assert_eq!(n, "CommandOrControl+Shift+Enter");
    assert_eq!(n.split('+').count(), 3);
}

#[test]
fn normalizing_a_joined_shortcut_normalizes_each_side() {
    for (a, b) in [("ctrl+shift", "a"), ("cmd", "space"), ("Alt", "F1+up"), ("", "enter")] {
        let joined = normalize_shortcut_keys(&format!("{a}+{b}"));
        let parts = format!("{}+{}", normalize_shortcut_keys(a), normalize_shortcut_keys(b));
        assert_eq!(joined, parts);
    }
}
