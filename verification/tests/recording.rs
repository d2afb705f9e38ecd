use voicetypr_core::recording::{
    formatting_failure, is_blank_transcript, no_engine_error, parakeet_model, recording_language,
    recording_start_failure_message, should_retry_transcription, soniox_model, transcription_failure,
    wav_has_samples, whisper_model_choice, TranscriptionFailure, TranscriptionFailureToast,
    config_age_is_fresh, is_non_retryable_transcription_error,
    ptt_key_released, recording_state_response, select_best_fallback_model, should_discard_likely_silence,
    should_hide_pill_when_idle, silence_event_action, silence_state_allows_terminal_event,
    silence_state_allows_warning_event, stop_should_reset_to_idle, ActiveEngineSelection, DecodeSlot,
    InFlightFlag, RecordingMode, RecordingState, SilenceAction, SilenceDetectorEvent,
    SilenceWarning, StopInFlightGuard, StopRecordingIntent, ToastCounter, PREVIOUS_TRANSCRIPTION_STOPPING,
    TRANSCRIPTION_TIMED_OUT,
};

#[test]
fn should_hide_pill_when_idle_for_never() {
    assert!(should_hide_pill_when_idle("never"));
}

#[test]
fn should_hide_pill_when_idle_for_when_recording() {
    assert!(should_hide_pill_when_idle("when_recording"));
}

#[test]
fn should_hide_pill_when_idle_for_always() {
    assert!(!should_hide_pill_when_idle("always"));
}

#[test]
fn select_best_fallback_uses_priority_within_requested_family() {
    let available = vec!["large-v3".to_string(), "large-v3-q5_0".to_string()];
    let priority = vec!["large-v3-q5_0".to_string(), "large-v3".to_string()];

    assert_eq!(select_best_fallback_model(&available, "large-v3-turbo", &priority), "large-v3-q5_0");
}

#[test]
fn fallback_leaves_the_family_only_when_it_has_no_model() {
    let available = vec!["base.en".to_string(), "small".to_string()];
    let priority = vec!["large-v3".to_string(), "small".to_string(), "base.en".to_string()];
    assert_eq!(select_best_fallback_model(&available, "large-v3-turbo", &priority), "small");
    assert_eq!(select_best_fallback_model(&available, "", &priority), "small");
    assert_eq!(select_best_fallback_model(&available, "tiny", &[]), "base.en");
    assert_eq!(select_best_fallback_model(&[], "tiny", &priority), "base.en");
}

#[test]
fn timeout_and_cancellation_do_not_retry() {
    assert!(is_non_retryable_transcription_error(TRANSCRIPTION_TIMED_OUT));
    assert!(is_non_retryable_transcription_error("Transcription cancelled"));
    assert!(!is_non_retryable_transcription_error("Whisper inference failed"));
}

#[test]
fn a_decode_still_stopping_is_not_retried() {
    assert!(is_non_retryable_transcription_error(PREVIOUS_TRANSCRIPTION_STOPPING));
    let mut slot = DecodeSlot::new();
    assert!(slot.try_acquire().is_ok());
    assert_eq!(slot.try_acquire(), Err(PREVIOUS_TRANSCRIPTION_STOPPING.to_string()));
    slot.release();
    assert!(slot.try_acquire().is_ok());
}

#[test]
fn stop_in_flight_guard_blocks_duplicates_and_resets_on_drop() {
    let mut flag = InFlightFlag::new();
    // First entry into stop_recording acquires the flag.
    assert!(!flag.swap(true));
    {
        let guard = StopInFlightGuard::new();
        // A concurrent duplicate entry sees the flag already set and bails out.
        assert!(flag.swap(true));
        guard.release(&mut flag);
    }
    // Releasing the guard clears the flag so the next stop can proceed.
    assert!(!flag.load());
}

#[test]
fn stop_does_not_reset_idle_during_active_flow() {
    assert!(stop_should_reset_to_idle(RecordingState::Recording));
    assert!(stop_should_reset_to_idle(RecordingState::Idle));
    assert!(stop_should_reset_to_idle(RecordingState::Error));
    assert!(!stop_should_reset_to_idle(RecordingState::Stopping));
    assert!(!stop_should_reset_to_idle(RecordingState::Transcribing));
}

#[test]
fn silence_terminal_with_speech_routes_to_stop_and_transcribe() {
    assert!(SilenceDetectorEvent::TimeoutWithSpeech.is_terminal());
    assert!(!should_discard_likely_silence(StopRecordingIntent::LongSilenceWithSpeech));
    assert_eq!(
        silence_event_action(SilenceDetectorEvent::TimeoutWithSpeech, RecordingState::Recording),
        SilenceAction::StopAndTranscribe
    );
}

#[test]
fn silence_terminal_without_speech_routes_to_cancel_and_discard() {
    assert!(SilenceDetectorEvent::TimeoutNoSpeech.is_terminal());
    assert!(should_discard_likely_silence(StopRecordingIntent::Normal));
    assert_eq!(
        silence_event_action(SilenceDetectorEvent::TimeoutNoSpeech, RecordingState::Starting),
        SilenceAction::CancelAndDiscard
    );
}

#[test]
fn silence_warnings_have_no_terminal_action() {
    assert!(!SilenceDetectorEvent::DeadMicWarn.is_terminal());
    assert!(!SilenceDetectorEvent::LongSilenceWarn.is_terminal());
    assert!(!SilenceDetectorEvent::Clear.is_terminal());
    assert_eq!(
        silence_event_action(SilenceDetectorEvent::DeadMicWarn, RecordingState::Recording),
        SilenceAction::Warn(SilenceWarning::DeadMic)
    );
    assert_eq!(SilenceWarning::LongSilence.message(), "Long silence detected");
}

#[test]
fn speech_timeout_never_discards_likely_silence_audio() {
    assert!(!should_discard_likely_silence(StopRecordingIntent::LongSilenceWithSpeech));
}

#[test]
fn normal_stop_still_discards_likely_silence_audio() {
    assert!(should_discard_likely_silence(StopRecordingIntent::Normal));
}

#[test]
fn clear_pill_toast_only_clears_matching_current_toast_id() {
    // Toast id 7 is the current/newest toast.
    let mut counter = ToastCounter::starting_at(7);
    assert!(!counter.pill_toast_clear_may_hide_window(6));
    assert!(!counter.pill_toast_clear_may_hide_window(8));
    assert!(counter.pill_toast_clear_may_hide_window(7));
    assert!(!counter.pill_toast_clear_may_hide_window(7));
}

#[test]
fn toast_ids_count_up_and_wrap() {
    let mut counter = ToastCounter::starting_at(0);
    assert_eq!(counter.next_pill_toast_id(), 1);
    assert_eq!(counter.next_pill_toast_id(), 2);
    let older = 1;
    assert!(!counter.pill_toast_clear_may_hide_window(older));
    let mut end = ToastCounter::starting_at(u64::MAX);
    assert_eq!(end.next_pill_toast_id(), 0);
}

#[test]
fn silence_warning_events_only_apply_while_recording_or_starting() {
    assert!(silence_state_allows_warning_event(RecordingState::Recording));
    assert!(silence_state_allows_warning_event(RecordingState::Starting));
    assert!(!silence_state_allows_warning_event(RecordingState::Stopping));
    assert_eq!(
        silence_event_action(SilenceDetectorEvent::LongSilenceWarn, RecordingState::Stopping),
        SilenceAction::Ignore
    );
}

#[test]
fn silence_terminal_events_ignored_after_stop_flow_begins() {
    assert!(!silence_state_allows_terminal_event(RecordingState::Stopping));
    assert!(!silence_state_allows_terminal_event(RecordingState::Idle));
    assert_eq!(
        silence_event_action(SilenceDetectorEvent::TimeoutNoSpeech, RecordingState::Idle),
        SilenceAction::StopListening
    );
}

#[test]
fn ptt_start_aborts_only_when_the_key_is_up() {
    assert!(ptt_key_released(RecordingMode::PushToTalk, false));
    assert!(!ptt_key_released(RecordingMode::PushToTalk, true));
    assert!(!ptt_key_released(RecordingMode::Toggle, false));
}

#[test]
fn recording_config_is_fresh_for_five_minutes() {
    assert!(config_age_is_fresh(0));
    assert!(config_age_is_fresh(299));
    assert!(!config_age_is_fresh(300));
}

#[test]
fn engine_selection_names() {
    let w = ActiveEngineSelection::Whisper { model_name: "base.en".into(), model_path: "/m/base.bin".into() };
    assert_eq!((w.engine_name(), w.model_name()), ("whisper", "base.en"));
    let s = ActiveEngineSelection::Soniox { model_name: "stt-rt".into() };
    assert_eq!((s.engine_name(), s.model_name()), ("soniox", "stt-rt"));
}

#[test]
fn state_response_names_the_state() {
    let r = recording_state_response(RecordingState::Transcribing);
    assert_eq!(r.state, "transcribing");
    assert!(r.error.is_none());
}

#[test]
fn engine_models_are_checked_before_transcribing() {
    assert_eq!(
        parakeet_model("", Some(true)).unwrap_err().user_message,
        "Please select a Parakeet model before recording."
    );
    assert_eq!(
        parakeet_model("tdt-0.6b", None).unwrap_err().log_message,
        "Selected Parakeet model is not available"
    );
    assert!(parakeet_model("tdt-0.6b", Some(false)).is_err());
    assert_eq!(parakeet_model("tdt-0.6b", Some(true)).unwrap(), "tdt-0.6b");
    assert!(soniox_model("stt-async", false).is_err());
    assert_eq!(soniox_model("stt-async", true).unwrap(), "stt-async");
}

#[test]
fn whisper_model_choice_prefers_the_configured_model() {
    let downloaded = vec!["base.en".to_string(), "large-v3-q5_0".to_string()];
    let priority = vec!["large-v3-q5_0".to_string(), "base.en".to_string()];
    assert_eq!(whisper_model_choice(&downloaded, "base.en", &priority).unwrap(), ("base.en".to_string(), false));
    assert_eq!(
        whisper_model_choice(&downloaded, "large-v3-turbo", &priority).unwrap(),
        ("large-v3-q5_0".to_string(), true)
    );
    assert_eq!(whisper_model_choice(&downloaded, "", &priority).unwrap(), ("large-v3-q5_0".to_string(), false));
    assert!(whisper_model_choice(&[], "base.en", &priority).is_err());
}

#[test]
fn transcription_retries_and_failures() {
    assert!(should_retry_transcription(1, 3, "Whisper inference failed"));
    assert!(!should_retry_transcription(3, 3, "Whisper inference failed"));
    assert!(!should_retry_transcription(1, 3, "Transcription cancelled"));
    assert_eq!(transcription_failure("Transcription cancelled"), TranscriptionFailure::Cancelled);
    assert_eq!(transcription_failure("Recording too short"), TranscriptionFailure::TooShort);
    assert_eq!(
        transcription_failure("Transcription timed out"),
        TranscriptionFailure::Failed(TranscriptionFailureToast::TimedOut)
    );
    assert_eq!(TranscriptionFailureToast::Generic.message(), "Transcription failed");
    assert!(is_blank_transcript("  \n"));
    assert!(is_blank_transcript("[BLANK_AUDIO]"));
    assert!(!is_blank_transcript("hello"));
    assert!(!wav_has_samples(44));
    assert!(wav_has_samples(45));
    assert_eq!(recording_language(""), None);
    assert_eq!(recording_language("de"), Some("de".to_string()));
}

#[test]
fn user_facing_failure_messages() {
    assert_eq!(formatting_failure("HTTP 401 Unauthorized"), ("Formatting failed: API key unauthorized", true));
    assert_eq!(formatting_failure("HTTP 429"), ("Formatting failed: Rate limit exceeded", false));
    assert_eq!(formatting_failure("connection reset"), ("Formatting failed: Network error", false));
    assert_eq!(formatting_failure("boom"), ("Formatting failed: Service unavailable", false));
    assert_eq!(recording_start_failure_message("device not found"), "No microphone found");
    assert_eq!(recording_start_failure_message("Access denied"), "Recording failed");
    assert_eq!(recording_start_failure_message("access denied"), "Microphone permission denied");
    assert_eq!(no_engine_error(true, false).0, "Soniox token missing");
    assert_eq!(no_engine_error(false, false).1, "Please download at least one model from Models before recording.");
}

use voicetypr_core::recording::{engine_selection, resolve_engine_for_model};

fn describe(r: Result<ActiveEngineSelection, String>) -> Result<(String, String, String), String> {
    r.map(|s| {
        let path = match &s {
            ActiveEngineSelection::Whisper { model_path, .. } => model_path.clone(),
            _ => String::new(),
        };
        (s.engine_name().to_string(), s.model_name().to_string(), path)
    })
}

#[test]
fn engine_hint_is_compared_in_lowercase() {
    let r = describe(resolve_engine_for_model("soniox-rt", Some("SONIOX"), true, None, None));
    assert_eq!(r, Ok(("soniox".to_string(), "soniox-rt".to_string(), String::new())));
    let r = describe(resolve_engine_for_model("base.en", Some("Whisper.CPP"), false, Some("/m/base.bin".into()), None));
    assert_eq!(r, Ok(("whisper".to_string(), "base.en".to_string(), "/m/base.bin".to_string())));
    let r = describe(resolve_engine_for_model("x", Some("Vosk"), true, None, None));
    assert_eq!(r, Err("Unknown model engine 'vosk'.".to_string()));
}

#[test]
fn engine_hint_errors_name_the_model() {
    assert_eq!(
        describe(engine_selection("soniox", Some("soniox"), false, None, None)),
        Err("Soniox token not configured. Please configure it in Models.".to_string())
    );
    assert_eq!(
        describe(engine_selection("parakeet-tdt", Some("parakeet"), false, None, Some(false))),
        Err("Parakeet model 'parakeet-tdt' is not downloaded. Please download it first.".to_string())
    );
    assert_eq!(
        describe(engine_selection("parakeet-tdt", Some("parakeet"), false, None, None)),
        Err("Parakeet model 'parakeet-tdt' not found in registry.".to_string())
    );
    assert_eq!(
        describe(engine_selection("tiny", Some("whisper"), false, None, Some(true))),
        Err("Whisper model 'tiny' not found".to_string())
    );
}

#[test]
fn engine_without_hint_prefers_soniox_name_then_whisper_then_parakeet() {
    assert_eq!(
        describe(engine_selection("soniox", None, true, Some("/p".into()), Some(true))),
        Ok(("soniox".to_string(), "soniox".to_string(), String::new()))
    );
    assert_eq!(
        describe(engine_selection("small", None, true, Some("/p".into()), Some(true))),
        Ok(("whisper".to_string(), "small".to_string(), "/p".to_string()))
    );
    assert_eq!(
        describe(engine_selection("pk", None, false, None, Some(true))),
        Ok(("parakeet".to_string(), "pk".to_string(), String::new()))
    );
    assert_eq!(
        describe(engine_selection("pk", None, false, None, Some(false))),
        Err("Model 'pk' is a Parakeet model but not downloaded. Please download it first.".to_string())
    );
    assert_eq!(
        describe(engine_selection("zz", None, false, None, None)),
        Err("Model 'zz' not found in Whisper or Parakeet registries".to_string())
    );
}

use voicetypr_core::recording::{cancel_plan, is_duplicate_transcription, latest_transcription_key};

#[test]
fn cancelling_always_ends_idle() {
    let p = cancel_plan(RecordingState::Recording, false);
    assert!(p.abort_transcription_task && !p.abort_gpu_process);
    assert_eq!(p.transitions, vec![(RecordingState::Stopping, None), (RecordingState::Idle, None)]);
    let p = cancel_plan(RecordingState::Transcribing, true);
    assert!(!p.abort_transcription_task && p.abort_gpu_process);
    assert_eq!(
        p.transitions,
        vec![(RecordingState::Error, Some("Transcription cancelled".to_string())), (RecordingState::Idle, None)]
    );
    assert!(cancel_plan(RecordingState::Transcribing, false).abort_transcription_task);
    for s in [RecordingState::Idle, RecordingState::Starting, RecordingState::Stopping, RecordingState::Error] {
        assert_eq!(cancel_plan(s, true).transitions, vec![(RecordingState::Idle, None)]);
    }
}

#[test]
fn latest_transcription_is_the_greatest_timestamp() {
    let keys: Vec<String> = vec![
        "2024-05-01T10:00:00+00:00".into(),
        "2024-05-03T09:00:00+00:00".into(),
        "2024-05-02T23:59:59+00:00".into(),
    ];
    assert_eq!(latest_transcription_key(&keys), Some(1));
    assert_eq!(latest_transcription_key(&vec![]), None);
    assert_eq!(latest_transcription_key(&vec!["b".into(), "ab".into(), "b".into()]), Some(0));
    assert_eq!(latest_transcription_key(&vec!["a".into(), "é".into(), "z".into()]), Some(1));
}

#[test]
fn duplicate_saves_need_same_text_model_and_two_seconds() {
    assert!(is_duplicate_transcription(Some("hi"), Some("base"), Some(2), "hi", "base"));
    assert!(!is_duplicate_transcription(Some("hi"), Some("base"), Some(3), "hi", "base"));
    assert!(!is_duplicate_transcription(Some("hi"), Some("tiny"), Some(0), "hi", "base"));
    assert!(!is_duplicate_transcription(None, Some("base"), Some(0), "hi", "base"));
    assert!(!is_duplicate_transcription(Some("hi"), Some("base"), None, "hi", "base"));
}

use voicetypr_core::recording::{recording_file_name, start_blocked_reason, PTT_START_ABORTED_AFTER_RELEASE};

#[test]
fn starts_are_blocked_by_a_running_decode_then_by_a_released_ptt_key() {
    assert_eq!(start_blocked_reason(true, true), Some(PREVIOUS_TRANSCRIPTION_STOPPING));
    assert_eq!(start_blocked_reason(false, true), Some(PTT_START_ABORTED_AFTER_RELEASE));
    assert_eq!(start_blocked_reason(false, false), None);
}

#[test]
fn recordings_are_named_by_their_start_second() {
    assert_eq!(recording_file_name(1_700_000_000), "recording_1700000000.wav");
    assert_eq!(recording_file_name(0), "recording_0.wav");
    assert_eq!(recording_file_name(u64::MAX), "recording_18446744073709551615.wav");
}

use voicetypr_core::recording::{gpu_failure_step, should_try_gpu, GpuFailure, GPU_UNAVAILABLE_TOAST};

#[test]
fn gpu_is_tried_unless_cpu_mode_or_known_unavailable() {
    assert!(!should_try_gpu("cpu", Some(true)));
    assert!(should_try_gpu("gpu", Some(false)));
    assert!(should_try_gpu("auto", None));
    assert!(should_try_gpu("auto", Some(true)));
    assert!(!should_try_gpu("auto", Some(false)));
}

#[test]
fn gpu_failures_fall_back_to_cpu_unless_cancelled() {
    assert_eq!(gpu_failure_step("gpu", "Transcription cancelled"), GpuFailure::Cancelled);
    assert_eq!(gpu_failure_step("gpu", "vulkan lost"), GpuFailure::FallBackToCpu { toast: Some(GPU_UNAVAILABLE_TOAST) });
    assert_eq!(gpu_failure_step("auto", "vulkan lost"), GpuFailure::FallBackToCpu { toast: None });
}

use voicetypr_core::recording::transcription_history_keys;

#[test]
fn history_lists_newest_first_up_to_the_limit() {
    let keys: Vec<String> = vec![
        "2024-01-02T00:00:00Z".into(),
        "2024-03-01T00:00:00Z".into(),
        "2023-12-31T23:59:59Z".into(),
        "2024-02-15T12:00:00Z".into(),
    ];
    assert_eq!(
        transcription_history_keys(keys.clone(), Some(2)),
        vec!["2024-03-01T00:00:00Z".to_string(), "2024-02-15T12:00:00Z".to_string()]
    );
    assert_eq!(
        transcription_history_keys(keys.clone(), None),
        vec![
            "2024-03-01T00:00:00Z".to_string(),
            "2024-02-15T12:00:00Z".to_string(),
            "2024-01-02T00:00:00Z".to_string(),
            "2023-12-31T23:59:59Z".to_string(),
        ]
    );
    assert!(transcription_history_keys(keys, Some(0)).is_empty());
    let many: Vec<String> = (0..60).map(|n| format!("k{:02}", n)).collect();
    let top = transcription_history_keys(many, None);
    assert_eq!(top.len(), 50);
    assert_eq!(top[0], "k59");
    assert_eq!(top[49], "k10");
}

use voicetypr_core::recording::{expired_transcription_keys, transcription_age_secs};

#[test]
fn old_transcriptions_are_those_before_the_cutoff() {
    let keys: Vec<String> = vec![
        "2024-05-01T10:00:00+00:00".into(),
        "not a timestamp".into(),
        "2024-05-01T12:00:00+02:00".into(),
        "2024-05-03T00:00:00Z".into(),
    ];
    // Cutoff 2024-05-01T10:00:00.5Z.
    let cutoff = (1_714_557_600i64, 500_000_000u32);
    assert_eq!(
        expired_transcription_keys(&keys, cutoff),
        vec!["2024-05-01T10:00:00+00:00".to_string(), "2024-05-01T12:00:00+02:00".to_string()]
    );
    assert!(expired_transcription_keys(&keys, (0, 0)).is_empty());
}

#[test]
fn transcription_age_counts_whole_seconds_either_way() {
    let now = (1_714_557_602i64, 900_000_000u32);
    assert_eq!(transcription_age_secs("2024-05-01T10:00:00Z", now), Some(2));
    assert_eq!(transcription_age_secs("2024-05-01T10:00:00.5Z", now), Some(2));
    assert_eq!(transcription_age_secs("2024-05-01T10:00:06Z", now), Some(3));
    assert_eq!(transcription_age_secs("yesterday", now), None);
}
