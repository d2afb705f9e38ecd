use voicetypr_core::distribution::{distribution_info, distribution_info_for};
use voicetypr_core::settings::validate_global_shortcut;
use voicetypr_core::system_info::{clean_gpu_names, system_specs_from};
use voicetypr_core::telemetry::{telemetry_consent_plan, telemetry_status, InstallIdAction};

#[test]
fn non_windows_distribution_defaults_to_direct() {
    // Without a package identity (every platform but a Store install).
    let info = distribution_info_for(None);
    assert_eq!(info.channel, "direct");
    assert!(!info.is_store_install);
    assert!(info.package_family_name.is_none());
}

#[test]
fn direct_install_without_package_identity() {
    let info = distribution_info_for(None);
    assert_eq!(info.channel, "direct");
    assert!(!info.is_store_install);
    assert!(info.package_family_name.is_none());
    let store = distribution_info(Some("VoiceTypr_abc".to_string()), true);
    assert_eq!(store.channel, "store_msix");
}

#[test]
fn system_specs_fall_back_to_unknown() {
    let s = system_specs_from(None, None, Some("14.2".into()), None, "arm64".into(), Some("  ".into()), None, 8, 17_179_869_184, vec![]);
    assert_eq!(s.os_name, "Unknown");
    assert_eq!(s.os_version, "14.2");
    assert_eq!(s.kernel_version, "Unknown");
    assert_eq!(s.cpu_brand, "Unknown");
    assert_eq!(s.cpu_cores, 8);
    assert_eq!(s.total_memory_mb, 16384);
    let s = system_specs_from(Some("macOS".into()), Some("macOS 14.2 Sonoma".into()), Some("14.2".into()), Some("23.2".into()), "arm64".into(), Some(" Apple M2 ".into()), Some(4), 8, 1_048_575, vec![]);
    assert_eq!((s.os_version.as_str(), s.cpu_brand.as_str(), s.cpu_cores, s.total_memory_mb), ("macOS 14.2 Sonoma", "Apple M2", 4, 0));
    assert_eq!(clean_gpu_names(vec!["NVIDIA\u{0}\u{0}".into(), " \u{0}".into(), " Intel UHD ".into()]), vec!["NVIDIA".to_string(), "Intel UHD".to_string()]);
}

#[test]
fn telemetry_consent_plans() {
    let s = telemetry_status(None, true);
    assert!(!s.enabled && s.available);
    let (r, a) = telemetry_consent_plan(true, None, false);
    assert!(r.enabled && r.restart_required);
    assert_eq!(a, InstallIdAction::Mint);
    let (r, a) = telemetry_consent_plan(true, Some(true), true);
    assert!(!r.restart_required);
    assert_eq!(a, InstallIdAction::Keep);
    let (r, a) = telemetry_consent_plan(false, Some(true), true);
    assert!(!r.enabled && !r.restart_required);
    assert_eq!(a, InstallIdAction::Delete);
}

#[test]
fn global_shortcut_checks() {
    assert_eq!(validate_global_shortcut(""), Err("Invalid shortcut format".to_string()));
    assert_eq!(validate_global_shortcut(&"A+".repeat(60)), Err("Invalid shortcut format".to_string()));
    assert_eq!(
        validate_global_shortcut("A"),
        Err("Invalid key combination: Minimum 2 key(s) required".to_string())
    );
    // The raw shortcut is validated before normalization: lower-case
    // modifiers are not recognised there.
    assert_eq!(
        validate_global_shortcut("cmd+shift+space"),
        Err("Invalid key combination: At least one modifier key is required".to_string())
    );
    assert_eq!(validate_global_shortcut("Cmd+Shift+Space"), Ok("CommandOrControl+Shift+Space".to_string()));
}

use voicetypr_core::recording::RecordingMode;
use voicetypr_core::settings::{
    registration_failure_message, registration_failure_message_for, save_settings_effects, PttShortcutAction,
};

#[test]
fn registration_failures_are_classified_case_insensitively() {
    assert_eq!(
        registration_failure_message("HotKey ALREADY Registered"),
        "Hotkey is already in use by another application. Please choose a different combination."
    );
    assert_eq!(
        registration_failure_message("Could not PARSE key"),
        "Invalid hotkey combination. Please use a valid key combination."
    );
    assert_eq!(registration_failure_message("os error 5"), "Failed to register hotkey: os error 5");
    assert_eq!(
        registration_failure_message_for("X", "key in use"),
        "Hotkey is already in use by another application. Please choose a different combination."
    );
}

#[test]
fn saving_settings_registers_or_clears_the_ptt_key_and_preloads_changed_models() {
    let e = save_settings_effects("push_to_talk", true, &Some("alt+space".into()), "base.en", "whisper", "tiny");
    assert_eq!(e.recording_mode, RecordingMode::PushToTalk);
    assert_eq!(e.ptt_shortcut, PttShortcutAction::Register("Alt+Space".to_string()));
    assert!(e.model_changed && e.preload_whisper);
    let e = save_settings_effects("push_to_talk", true, &None, "base.en", "whisper", "base.en");
    assert_eq!(e.ptt_shortcut, PttShortcutAction::Keep);
    assert!(!e.model_changed && !e.preload_whisper);
    let e = save_settings_effects("toggle", true, &Some("F5".into()), "pk", "parakeet", "tiny");
    assert_eq!(e.recording_mode, RecordingMode::Toggle);
    assert_eq!(e.ptt_shortcut, PttShortcutAction::Clear);
    assert!(e.model_changed && !e.preload_whisper);
    let e = save_settings_effects("push_to_talk", false, &Some("F5".into()), "", "whisper", "tiny");
    assert_eq!(e.ptt_shortcut, PttShortcutAction::Clear);
    assert!(!e.model_changed);
}
