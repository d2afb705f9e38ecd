//! Settings checks: the recording hotkey and the language list entries.
use vstd::prelude::*;
use crate::key_normalizer::{
    key_combination_error, normalize_shortcut_keys, normalized_shortcut, validate_key_combination,
    KeyValidationRules,
};
use crate::recording::RecordingMode;
use crate::text::{chars_of, concat, contains_chars, contains_seq, lowercase_of, split_by, str_eq, string_of, to_lowercase};

verus! {

broadcast use vstd::string::group_string_axioms;

/// A transcription language as listed in settings.
#[derive(Debug, Clone)]
pub struct LanguageInfo {
    pub code: String,
    pub name: String,
}

/// The error of a proposed recording hotkey, if any: it must be 1 to 100
/// bytes long and a valid key combination under the standard rules.
pub open spec fn global_shortcut_error_spec(shortcut: Seq<char>) -> Option<Seq<char>> {
    let bytes = vstd::utf8::encode_utf8(shortcut).len();
    if shortcut.len() == 0 || bytes > 100 {
        Some("Invalid shortcut format"@)
    } else {
        match key_combination_error(split_by(shortcut, '+'), KeyValidationRules::standard_spec()) {
            Some(e) => Some("Invalid key combination: "@ + e),
            None => None,
        }
    }
}

/// Checks a proposed recording hotkey and returns its normal form.
pub fn validate_global_shortcut(shortcut: &str) -> (r: Result<String, String>)
    ensures
        match global_shortcut_error_spec(shortcut@) {
            Some(m) => r matches Err(e) && e@ == m,
            None => r matches Ok(n) && n@ == normalized_shortcut(shortcut@),
        },
{
    if shortcut.unicode_len() == 0 || shortcut.as_bytes().len() > 100 {
        return Err(string_of(&chars_of("Invalid shortcut format")));
    }
    match validate_key_combination(shortcut) {
        Err(e) => Err(string_of(&concat(&chars_of("Invalid key combination: "), &chars_of(e.as_str())))),
        Ok(()) => Ok(normalize_shortcut_keys(shortcut)),
    }
}


// ---------------------------------------------------------------------------
// Registering the hotkey
// ---------------------------------------------------------------------------

/// The message of a failed hotkey registration, from the registrar's error
/// text `error` and its lowercase form `lower`: a conflict, an invalid
/// combination, or the error itself.
pub open spec fn registration_failure_spec(error: Seq<char>, lower: Seq<char>) -> Seq<char> {
    if contains_seq(lower, "already registered"@) || contains_seq(lower, "conflict"@) || contains_seq(
        lower,
        "in use"@,
    ) {
        "Hotkey is already in use by another application. Please choose a different combination."@
    } else if contains_seq(lower, "parse"@) || contains_seq(lower, "invalid"@) {
        "Invalid hotkey combination. Please use a valid key combination."@
    } else {
        "Failed to register hotkey: "@ + error
    }
}

/// The message of a failed hotkey registration, given the error text and
/// its lowercase form (see `registration_failure_spec`).
pub fn registration_failure_message_for(error: &str, lower: &str) -> (r: String)
    ensures
        r@ == registration_failure_spec(error@, lower@),
{
    let l = chars_of(lower);
    if contains_chars(&l, &chars_of("already registered")) || contains_chars(&l, &chars_of("conflict"))
        || contains_chars(&l, &chars_of("in use")) {
        string_of(
            &chars_of("Hotkey is already in use by another application. Please choose a different combination."),
        )
    } else if contains_chars(&l, &chars_of("parse")) || contains_chars(&l, &chars_of("invalid")) {
        string_of(&chars_of("Invalid hotkey combination. Please use a valid key combination."))
    } else {
        string_of(&concat(&chars_of("Failed to register hotkey: "), &chars_of(error)))
    }
}

/// The message of a failed hotkey registration; the error text is compared
/// in lowercase (`str::to_lowercase`).
pub fn registration_failure_message(error: &str) -> (r: String)
    ensures
        r@ == registration_failure_spec(error@, lowercase_of(error@)),
{
    let lower = to_lowercase(error);
    registration_failure_message_for(error, lower.as_str())
}

// ---------------------------------------------------------------------------
// Saving the settings
// ---------------------------------------------------------------------------

/// What happens to the separate push-to-talk shortcut when settings are
/// saved.
#[derive(Debug, Clone, PartialEq, Eq)]
pub enum PttShortcutAction {
    /// Register this (normalized) hotkey in place of the previous one.
    Register(String),
    /// Leave the registration as it is.
    Keep,
    /// Unregister the previous one.
    Clear,
}

/// The effects of saving settings beyond the store itself.
#[derive(Debug, Clone)]
pub struct SaveSettingsEffects {
    pub recording_mode: RecordingMode,
    pub ptt_shortcut: PttShortcutAction,
    /// The chosen model changed (the tray menu is refreshed).
    pub model_changed: bool,
    /// The new model is preloaded into Whisper.
    pub preload_whisper: bool,
}

/// The recording mode a stored name selects: push-to-talk, else toggle.
pub open spec fn recording_mode_spec(name: Seq<char>) -> RecordingMode {
    if name == "push_to_talk"@ {
        RecordingMode::PushToTalk
    } else {
        RecordingMode::Toggle
    }
}

/// The effects of saving settings with the given recording mode,
/// push-to-talk options and model, when `old_model` was stored before: a
/// separate push-to-talk key is registered in push-to-talk mode (nothing
/// changes when none is set) and cleared otherwise; a changed, non-empty
/// model refreshes the tray and, unless it is a Parakeet model, is
/// preloaded.
pub fn save_settings_effects(
    recording_mode: &str,
    use_different_ptt_key: bool,
    ptt_hotkey: &Option<String>,
    current_model: &str,
    current_model_engine: &str,
    old_model: &str,
) -> (r: SaveSettingsEffects)
    ensures
        r.recording_mode == recording_mode_spec(recording_mode@),
        recording_mode_spec(recording_mode@) == RecordingMode::PushToTalk && use_different_ptt_key ==> match ptt_hotkey {
            Some(h) => r.ptt_shortcut matches PttShortcutAction::Register(n) && n@ == normalized_shortcut(h@),
            None => r.ptt_shortcut == PttShortcutAction::Keep,
        },
        !(recording_mode_spec(recording_mode@) == RecordingMode::PushToTalk && use_different_ptt_key)
            ==> r.ptt_shortcut == PttShortcutAction::Clear,
        r.model_changed == (current_model@.len() > 0 && old_model@ != current_model@),
        r.preload_whisper == (r.model_changed && current_model_engine@ != "parakeet"@),
{
    let mode = if str_eq(recording_mode, "push_to_talk") {
        RecordingMode::PushToTalk
    } else {
        RecordingMode::Toggle
    };
    let ptt_shortcut = if str_eq(recording_mode, "push_to_talk") && use_different_ptt_key {
        match ptt_hotkey {
            Some(h) => PttShortcutAction::Register(normalize_shortcut_keys(h.as_str())),
            None => PttShortcutAction::Keep,
        }
    } else {
        PttShortcutAction::Clear
    };
    let model_changed = current_model.unicode_len() > 0 && !str_eq(old_model, current_model);
    SaveSettingsEffects {
        recording_mode: mode,
        ptt_shortcut,
        model_changed,
        preload_whisper: model_changed && !str_eq(current_model_engine, "parakeet"),
    }
}

} // verus!
