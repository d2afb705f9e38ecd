use voicetypr_core::cli_tool::{
    admin_install_script, admin_uninstall_script, applescript_escape, build_shim, check_install_location,
    entry_matches_dir, install, macos_status, osascript_failure, osascript_source, path_contains_dir,
    sh_double_quote_escape, uninstall, unsupported_status,
};

#[test]
fn shim_execs_the_escaped_bundle_binary() {
    let shim = build_shim("/Applications/Voice \"Typr\".app/Contents/MacOS/voicetypr");
    assert_eq!(
        shim,
        "#!/bin/sh\n# VoiceTypr CLI launcher (managed by VoiceTypr; reinstall from Settings). Do not edit.\nexec \"/Applications/Voice \\\"Typr\\\".app/Contents/MacOS/voicetypr\" \"$@\"\n"
    );
}

#[test]
fn shell_and_applescript_escapes() {
    assert_eq!(sh_double_quote_escape("a\\b\"c$d`e"), "a\\\\b\\\"c\\$d\\`e");
    assert_eq!(applescript_escape("say \"hi\" \\ now"), "say \\\"hi\\\" \\\\ now");
    assert_eq!(
        osascript_source("rm -f '/usr/local/bin/voicetypr'"),
        "do shell script \"rm -f '/usr/local/bin/voicetypr'\" with administrator privileges"
    );
    assert_eq!(admin_uninstall_script(), "rm -f '/usr/local/bin/voicetypr'");
    assert_eq!(
        admin_install_script("/tmp/voicetypr-cli-shim"),
        "mkdir -p /usr/local/bin && cp '/tmp/voicetypr-cli-shim' '/usr/local/bin/voicetypr' && chmod 755 '/usr/local/bin/voicetypr'"
    );
}

#[test]
fn translocated_apps_are_refused() {
    assert!(check_install_location("/Applications/VoiceTypr.app/Contents/MacOS/voicetypr").is_ok());
    assert_eq!(
        check_install_location("/private/var/folders/x/AppTranslocation/abc/d/VoiceTypr.app"),
        Err("Move VoiceTypr to your Applications folder before installing the command.".to_string())
    );
}

#[test]
fn authorization_failures_read_well() {
    assert_eq!(osascript_failure("execution error: User canceled. (-128)"), "Authorization was cancelled.");
    assert_eq!(osascript_failure("  cp: denied \n"), "Failed to install command: cp: denied");
}

#[test]
fn statuses() {
    let s = macos_status(true);
    assert!(s.installed && s.manageable);
    assert_eq!(s.path.as_deref(), Some("/usr/local/bin/voicetypr"));
    assert_eq!(macos_status(false).path, None);
    let u = unsupported_status();
    assert!(!u.installed && !u.manageable && u.path.is_none());
}

#[test]
fn path_entries_match_case_and_slash_insensitively() {
    assert!(entry_matches_dir(" C:\\Program Files\\VoiceTypr\\ ", "c:\\program files\\voicetypr"));
    assert!(!entry_matches_dir("", ""));
    assert!(path_contains_dir("C:\\Windows;C:\\Apps\\VoiceTypr\\", "c:\\apps\\voicetypr"));
    assert!(!path_contains_dir("C:\\Windows;;", "C:\\Apps"));
}

#[test]
fn install_appends_and_uninstall_removes_the_dir() {
    let dir = "C:\\Apps\\VoiceTypr";
    assert_eq!(install("", dir), Some(dir.to_string()));
    assert_eq!(install("C:\\Windows;;", dir), Some("C:\\Windows;C:\\Apps\\VoiceTypr".to_string()));
    assert_eq!(install("C:\\Windows;c:\\apps\\voicetypr\\", dir), None);

    let current = Some("C:\\Windows;C:\\Apps\\VoiceTypr\\;D:\\bin;c:\\apps\\voicetypr".to_string());
    let after = uninstall(&current, dir).unwrap();
    assert_eq!(after, "C:\\Windows;D:\\bin");
    assert!(!path_contains_dir(&after, dir));
    assert_eq!(uninstall(&Some("C:\\Windows".to_string()), dir), None);
    assert_eq!(uninstall(&None, dir), None);
}
