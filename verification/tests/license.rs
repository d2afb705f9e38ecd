use voicetypr_core::license::{
    cached_license_allows_recording, ceil_days_of, saturating_days, fallback_cached_status, from_cache_with_metadata,
    from_cache_without_metadata, license_check_outcome, license_gate, licensed_status, no_license_status,
    offline_trial_status, trial_check_status, trial_days_left_after, LicenseCheck, LicenseState, LicenseStatus,
};

fn trial(days: Option<i32>) -> LicenseStatus {
    LicenseStatus { status: LicenseState::Trial, trial_days_left: days, license_type: None, license_key: None, expires_at: None }
}

#[test]
fn days_are_rounded_up() {
    assert_eq!(ceil_days_of(0), 0);
    assert_eq!(ceil_days_of(1), 1);
    assert_eq!(ceil_days_of(24), 1);
    assert_eq!(ceil_days_of(25), 2);
    assert_eq!(ceil_days_of(-5), 0);
    assert_eq!(ceil_days_of(-30), -1);
    assert_eq!(trial_days_left_after(5, 30), 3);
    assert_eq!(trial_days_left_after(1, 200), 0);
}

#[test]
fn cached_trials_age_and_fall_through_when_spent() {
    let aged = from_cache_with_metadata(trial(Some(5)), 30).unwrap();
    assert_eq!(aged.trial_days_left, Some(3));
    assert!(from_cache_with_metadata(trial(Some(2)), 48).is_none());
    assert!(from_cache_with_metadata(trial(None), 1).is_none());
    let lic = licensed_status("KEY".into());
    assert_eq!(from_cache_with_metadata(lic.clone(), 10_000).unwrap().status, LicenseState::Licensed);
    assert!(from_cache_without_metadata(trial(Some(1))).is_none());
    assert_eq!(from_cache_without_metadata(trial(Some(2))).unwrap().trial_days_left, Some(2));
    assert!(from_cache_without_metadata(trial(None)).is_some());
    assert_eq!(lic.license_type.as_deref(), Some("pro"));
}

#[test]
fn trial_checks_and_offline_fallbacks() {
    let (s, cache) = trial_check_status(true, Some(4));
    assert_eq!((s.status, s.trial_days_left, cache), (LicenseState::Expired, Some(0), false));
    let (s, cache) = trial_check_status(false, Some(4));
    assert_eq!((s.status, s.trial_days_left, cache), (LicenseState::Trial, Some(4), true));
    let (s, cache) = trial_check_status(false, Some(-3));
    assert_eq!((s.trial_days_left, cache), (Some(0), false));
    let (_, cache) = trial_check_status(false, Some(1));
    assert!(!cache);

    let s = offline_trial_status(true, 5).unwrap();
    assert_eq!((s.status, s.trial_days_left), (LicenseState::Trial, Some(1)));
    let s = offline_trial_status(true, 0).unwrap();
    assert_eq!((s.status, s.trial_days_left), (LicenseState::Expired, Some(0)));
    assert!(offline_trial_status(false, 100).is_none());

    let s = fallback_cached_status(trial(Some(3)), true, 20).unwrap();
    assert_eq!(s.trial_days_left, Some(2));
    assert!(fallback_cached_status(trial(Some(3)), false, 20).is_none());
    assert_eq!(no_license_status().status, LicenseState::NoLicense);
}

#[test]
fn cached_license_fallback_rules() {
    assert!(cached_license_allows_recording(&licensed_status("k".into()), 1_000_000));
    assert!(cached_license_allows_recording(&trial(Some(3)), 86_399));
    assert!(!cached_license_allows_recording(&trial(Some(3)), 86_400));
    assert!(!cached_license_allows_recording(&trial(Some(0)), 10));
    assert!(!cached_license_allows_recording(&trial(Some(-2)), 10));
    assert!(!cached_license_allows_recording(&trial(None), 10));
    let expired = LicenseStatus { status: LicenseState::Expired, ..trial(Some(3)) };
    assert!(!cached_license_allows_recording(&expired, 10));
}

#[test]
fn license_checks_fail_closed_without_evidence() {
    let ok = license_check_outcome(LicenseCheck::Fresh(trial(Some(2))), None).unwrap();
    assert_eq!(ok.trial_days_left, Some(2));
    assert_eq!(license_check_outcome(LicenseCheck::Failed("offline".into()), None).unwrap_err(), "offline");
    assert_eq!(
        license_check_outcome(LicenseCheck::TimedOut, None).unwrap_err(),
        "License validation timed out. Please check your connection and try again."
    );
    let fb = license_check_outcome(LicenseCheck::TimedOut, Some(trial(Some(1)))).unwrap();
    assert_eq!(fb.status, LicenseState::Trial);
    assert_eq!(license_gate(LicenseState::Expired), Err("License required to record".to_string()));
    assert!(license_gate(LicenseState::Trial).is_ok());
}

use voicetypr_core::license::{
    activation_result, deactivation_result, restore_step, validate_license_key, LicenseReply, RestoreStep,
};

#[test]
fn license_keys_are_checked_before_activation() {
    assert_eq!(validate_license_key("  VT-ABCD-1234_x  "), Ok("VT-ABCD-1234_x".to_string()));
    assert_eq!(validate_license_key("   "), Err("License key cannot be empty".to_string()));
    assert_eq!(validate_license_key("VT-123"), Err("Invalid license key format".to_string()));
    assert_eq!(validate_license_key(&format!("VT-{}", "A".repeat(98))), Err("Invalid license key format".to_string()));
    assert_eq!(validate_license_key("XX-ABCD-1234"), Err("Invalid license key format".to_string()));
    assert_eq!(validate_license_key("VTABCD12345"), Err("Invalid license key format".to_string()));
    assert_eq!(validate_license_key("VT-ABCD 1234"), Err("License key contains invalid characters".to_string()));
    assert_eq!(validate_license_key("VT-ABCD!1234"), Err("License key contains invalid characters".to_string()));
    // Unicode letters count as alphanumeric.
    assert_eq!(validate_license_key("VT-ÄBCD-1234"), Ok("VT-ÄBCD-1234".to_string()));
}

#[test]
fn activation_replies() {
    let s = activation_result(LicenseReply::Accepted, "VT-KEY-1".into(), true).unwrap();
    assert_eq!(s.status, LicenseState::Licensed);
    assert_eq!(s.license_key.as_deref(), Some("VT-KEY-1"));
    assert_eq!(s.license_type.as_deref(), Some("pro"));
    assert_eq!(
        activation_result(LicenseReply::Accepted, "k".into(), false).err(),
        Some("Failed to verify license storage".to_string())
    );
    assert_eq!(
        activation_result(LicenseReply::Refused(Some("Device limit reached".into())), "k".into(), true).err(),
        Some("Device limit reached".to_string())
    );
    assert_eq!(
        activation_result(LicenseReply::Refused(None), "k".into(), true).err(),
        Some("Failed to activate license".to_string())
    );
    assert_eq!(
        activation_result(LicenseReply::Unreachable("timeout".into()), "k".into(), true).err(),
        Some("Failed to activate license: timeout".to_string())
    );
}

#[test]
fn restore_and_deactivation_replies() {
    match restore_step(Ok(true), "VT-K".into()) {
        RestoreStep::Restored(s) => assert_eq!(s.license_key.as_deref(), Some("VT-K")),
        other => panic!("unexpected {:?}", other),
    }
    assert!(matches!(restore_step(Ok(false), "VT-K".into()), RestoreStep::Activate));
    match restore_step(Err("offline".into()), "VT-K".into()) {
        RestoreStep::Failed(e) => assert_eq!(e, "Failed to restore license: offline"),
        other => panic!("unexpected {:?}", other),
    }
    assert_eq!(deactivation_result(LicenseReply::Accepted), (Ok(()), true));
    assert_eq!(deactivation_result(LicenseReply::Refused(None)), (Err("Failed to deactivate license".to_string()), false));
    assert_eq!(
        deactivation_result(LicenseReply::Unreachable("dns".into())),
        (Err("Failed to deactivate license: dns".to_string()), true)
    );
}

#[test]
fn huge_hour_counts_saturate_and_expire_a_cached_trial() {
    assert_eq!(saturating_days(i64::MAX), i32::MAX);
    assert_eq!(saturating_days(i64::MIN), i32::MIN);
    assert_eq!(saturating_days(49), 3);
    assert!(from_cache_with_metadata(trial(Some(5)), i64::MAX).is_none());
}
