use voicetypr_core::recording::{
    select_best_fallback_model, RecordingState, StopRecordingIntent, PREVIOUS_TRANSCRIPTION_STOPPING,
    PTT_START_ABORTED_AFTER_RELEASE,
};
use voicetypr_core::recording_flow::{
    start_step, stop_step, EngineFacts, EngineKind, FlowAction, FlowFile,
    FlowSignal, RecorderStart, StartEvent, StartFlow, StartPhase, StopEvent, StopFlow, StopPhase,
};

fn s(x: &str) -> String {
    x.to_string()
}

fn whisper_facts(model: &str, downloaded: &[&str], ai: bool) -> EngineFacts {
    EngineFacts {
        engine: s("whisper"),
        model: s(model),
        ai_enabled: ai,
        parakeet_listed: None,
        soniox_token: false,
        downloaded: downloaded.iter().map(|m| s(m)).collect(),
        priority: vec![s("large-v3"), s("base.en"), s("base")],
    }
}

/// Runs a stop flow to the point where the transcription task waits for
/// the first attempt.
fn stop_until_transcribing(facts: EngineFacts) -> StopFlow<String> {
    let f = StopFlow::new(StopRecordingIntent::Normal);
    let (f, _) = stop_step(
        f,
        StopEvent::Requested { already_in_flight: false, entry_state: RecordingState::Recording, recorder_active: true },
    );
    let (f, _) = stop_step(f, StopEvent::RecorderStopped { errored: false, cancel_requested: false, capture_present: true });
    let (f, _) = stop_step(f, StopEvent::CaptureSize(Some(64_000)));
    let (f, _) = stop_step(f, StopEvent::Engine(facts));
    let (f, _) = stop_step(f, StopEvent::ModelPathFound(true));
    let (f, _) = stop_step(f, StopEvent::Normalized(true));
    let (f, _) = stop_step(f, StopEvent::Inspected(Ok((false, false))));
    let (f, a) = stop_step(f, StopEvent::TaskStarted { cancel_requested: false });
    assert_eq!(a.last(), Some(&FlowAction::Transcribe(1)));
    f
}

#[test]
fn stop_while_another_stop_runs_only_answers() {
    let f = StopFlow::new(StopRecordingIntent::Normal);
    let (f, a) = stop_step(
        f,
        StopEvent::Requested { already_in_flight: true, entry_state: RecordingState::Recording, recorder_active: true },
    );
    assert_eq!(a, vec![FlowAction::ReturnOk]);
    assert_eq!(f.phase, StopPhase::Done);
}

#[test]
fn stop_without_recording_resets_to_idle_unless_busy() {
    let (_, a) = stop_step(
        StopFlow::new(StopRecordingIntent::Normal),
        StopEvent::Requested { already_in_flight: false, entry_state: RecordingState::Recording, recorder_active: false },
    );
    assert_eq!(
        a,
        vec![
            FlowAction::WriteState(RecordingState::Stopping, None),
            FlowAction::WriteState(RecordingState::Idle, None),
            FlowAction::ReturnOk,
        ]
    );
    let (_, a) = stop_step(
        StopFlow::new(StopRecordingIntent::Normal),
        StopEvent::Requested { already_in_flight: false, entry_state: RecordingState::Transcribing, recorder_active: false },
    );
    assert_eq!(a, vec![FlowAction::WriteState(RecordingState::Stopping, None), FlowAction::ReturnOk]);
}

#[test]
fn stop_whisper_path_with_retry_and_paste_failure() {
    let f = StopFlow::new(StopRecordingIntent::Normal);
    let (f, a) = stop_step(
        f,
        StopEvent::Requested { already_in_flight: false, entry_state: RecordingState::Recording, recorder_active: true },
    );
    assert_eq!(a, vec![FlowAction::WriteState(RecordingState::Stopping, None), FlowAction::StopRecorder]);
    let (f, a) = stop_step(f, StopEvent::RecorderStopped { errored: false, cancel_requested: false, capture_present: true });
    assert_eq!(a, vec![FlowAction::DisarmEscape, FlowAction::CheckCapture]);
    let (f, a) = stop_step(f, StopEvent::CaptureSize(Some(45)));
    assert_eq!(a, vec![FlowAction::LoadEngineFacts]);
    let (f, a) = stop_step(f, StopEvent::Engine(whisper_facts("base", &["base", "tiny"], false)));
    assert_eq!(a, vec![FlowAction::LookupModelPath(s("base"))]);
    assert_eq!(f.engine, EngineKind::Whisper);
    let (f, a) = stop_step(f, StopEvent::ModelPathFound(true));
    assert_eq!(a, vec![FlowAction::Normalize]);
    let (f, a) = stop_step(f, StopEvent::Normalized(true));
    assert_eq!(a, vec![FlowAction::Delete(FlowFile::Capture), FlowAction::Inspect]);
    let (f, a) = stop_step(f, StopEvent::Inspected(Ok((false, false))));
    assert_eq!(a, vec![FlowAction::StartTranscription, FlowAction::ReturnOk]);
    let (f, a) = stop_step(f, StopEvent::TaskStarted { cancel_requested: false });
    assert_eq!(
        a,
        vec![
            FlowAction::WriteState(RecordingState::Transcribing, None),
            FlowAction::Signal(FlowSignal::TranscriptionStarted),
            FlowAction::Transcribe(1),
        ]
    );
    let (f, a) = stop_step(f, StopEvent::Transcribed { result: Err(s("decoder hiccup")), cancel_requested: false });
    assert_eq!(a, vec![FlowAction::Wait(500), FlowAction::Transcribe(2)]);
    assert_eq!(f.attempt, 2);
    let (f, a) = stop_step(f, StopEvent::Transcribed { result: Ok(s("hello world")), cancel_requested: false });
    assert_eq!(
        a,
        vec![
            FlowAction::Delete(FlowFile::Transcribed),
            FlowAction::HidePill,
            FlowAction::Wait(50),
            FlowAction::ReadAutoPaste,
        ]
    );
    let (f, a) = stop_step(f, StopEvent::AutoPaste(true));
    assert_eq!(a, vec![FlowAction::PasteText(s("hello world"))]);
    let (f, a) = stop_step(f, StopEvent::Pasted(Err(s("accessibility permission missing"))));
    assert_eq!(
        a,
        vec![
            FlowAction::Toast(s("Text copied - grant permission to auto-paste"), 1500),
            FlowAction::SaveHistory(s("hello world"), s("base")),
            FlowAction::WriteState(RecordingState::Idle, None),
        ]
    );
    assert_eq!(f.phase, StopPhase::Done);
}

#[test]
fn stop_cancelled_with_escape_discards_recording() {
    let f = StopFlow::new(StopRecordingIntent::Normal);
    let (f, _) = stop_step(
        f,
        StopEvent::Requested { already_in_flight: false, entry_state: RecordingState::Recording, recorder_active: true },
    );
    let (f, a) = stop_step(f, StopEvent::RecorderStopped { errored: false, cancel_requested: true, capture_present: true });
    assert_eq!(
        a,
        vec![
            FlowAction::DisarmEscape,
            FlowAction::Delete(FlowFile::Capture),
            FlowAction::HidePill,
            FlowAction::WriteState(RecordingState::Idle, None),
            FlowAction::ReturnOk,
        ]
    );
    assert_eq!(f.phase, StopPhase::Done);
}

#[test]
fn stop_recorder_error_and_empty_capture() {
    let f = StopFlow::new(StopRecordingIntent::Normal);
    let (f, _) = stop_step(
        f,
        StopEvent::Requested { already_in_flight: false, entry_state: RecordingState::Recording, recorder_active: true },
    );
    let (_, a) = stop_step(f.clone(), StopEvent::RecorderStopped { errored: true, cancel_requested: false, capture_present: true });
    assert_eq!(a[1], FlowAction::Toast(s("Recording error"), 1500));
    let (g, _) = stop_step(f, StopEvent::RecorderStopped { errored: false, cancel_requested: false, capture_present: true });
    let (_, a) = stop_step(g, StopEvent::CaptureSize(Some(44)));
    assert_eq!(
        a,
        vec![
            FlowAction::Toast(s("No audio captured"), 1000),
            FlowAction::Delete(FlowFile::Capture),
            FlowAction::WriteState(RecordingState::Idle, None),
            FlowAction::ReturnOk,
        ]
    );
}

fn stop_at_engine_facts() -> StopFlow<String> {
    let f = StopFlow::new(StopRecordingIntent::Normal);
    let (f, _) = stop_step(
        f,
        StopEvent::Requested { already_in_flight: false, entry_state: RecordingState::Recording, recorder_active: true },
    );
    let (f, _) = stop_step(f, StopEvent::RecorderStopped { errored: false, cancel_requested: false, capture_present: true });
    let (f, _) = stop_step(f, StopEvent::CaptureSize(None));
    assert_eq!(f.phase, StopPhase::AwaitEngineFacts);
    f
}

#[test]
fn stop_parakeet_without_download_aborts() {
    let facts = EngineFacts {
        engine: s("parakeet"),
        model: s("parakeet-tdt"),
        ai_enabled: false,
        parakeet_listed: Some(false),
        soniox_token: false,
        downloaded: vec![],
        priority: vec![],
    };
    let (f, a) = stop_step(stop_at_engine_facts(), StopEvent::Engine(facts));
    let user = s("Please download the selected Parakeet model before recording.");
    assert_eq!(
        a,
        vec![
            FlowAction::WriteState(RecordingState::Error, Some(user.clone())),
            FlowAction::Delete(FlowFile::Capture),
            FlowAction::Toast(user.clone(), 2000),
            FlowAction::NoModels(user),
            FlowAction::HidePill,
            FlowAction::WriteState(RecordingState::Idle, None),
            FlowAction::ReturnErr(s("Selected Parakeet model is not downloaded")),
        ]
    );
    assert_eq!(f.phase, StopPhase::Done);
}

#[test]
fn stop_soniox_hands_over_at_once_and_config_error_reports() {
    let facts = EngineFacts {
        engine: s("soniox"),
        model: s("stt-async"),
        ai_enabled: true,
        parakeet_listed: None,
        soniox_token: true,
        downloaded: vec![],
        priority: vec![],
    };
    let (f, a) = stop_step(stop_at_engine_facts(), StopEvent::Engine(facts));
    assert_eq!(a, vec![FlowAction::StartTranscription, FlowAction::ReturnOk]);
    assert_eq!(f.engine, EngineKind::Soniox);
    assert_eq!(f.phase, StopPhase::AwaitTaskStart);
    let (_, a) = stop_step(stop_at_engine_facts(), StopEvent::ConfigFailed(s("store locked")));
    assert_eq!(a, vec![FlowAction::ReturnErr(s("Configuration error: store locked"))]);
}

#[test]
fn stop_whisper_fallback_is_announced() {
    let downloaded = [s("base.en"), s("tiny")];
    let priority = [s("large-v3"), s("base.en"), s("base")];
    let expected = select_best_fallback_model(&downloaded, "large-v3", &priority);
    let (f, a) = stop_step(stop_at_engine_facts(), StopEvent::Engine(whisper_facts("large-v3", &["base.en", "tiny"], false)));
    assert_eq!(
        a,
        vec![
            FlowAction::ModelFallback(s("large-v3"), expected.clone()),
            FlowAction::LookupModelPath(expected.clone()),
        ]
    );
    assert_eq!(f.model, expected);
    let (_, a) = stop_step(f, StopEvent::ModelPathFound(false));
    assert_eq!(a, vec![FlowAction::ReturnErr(format!("Model '{}' path not found", expected))]);
    let (_, a) = stop_step(stop_at_engine_facts(), StopEvent::Engine(whisper_facts("", &[], false)));
    assert_eq!(a.last(), Some(&FlowAction::ReturnErr(s("No speech recognition models installed"))));
}

#[test]
fn stop_short_and_silent_recordings_are_dropped() {
    let f = stop_at_engine_facts();
    let (f, _) = stop_step(f, StopEvent::Engine(whisper_facts("base", &["base"], false)));
    let (f, _) = stop_step(f, StopEvent::ModelPathFound(true));
    let (f, _) = stop_step(f, StopEvent::Normalized(true));
    let (_, a) = stop_step(f.clone(), StopEvent::Inspected(Ok((true, false))));
    assert_eq!(a[0], FlowAction::TooShort(s("Recording shorter than 0.5 seconds")));
    let (_, a) = stop_step(f.clone(), StopEvent::Inspected(Ok((false, true))));
    assert_eq!(
        a,
        vec![
            FlowAction::Toast(s("No speech detected"), 1500),
            FlowAction::Signal(FlowSignal::NoSpeech),
            FlowAction::Delete(FlowFile::Normalized),
            FlowAction::WriteState(RecordingState::Idle, None),
            FlowAction::ReturnOk,
        ]
    );
    let (_, a) = stop_step(f, StopEvent::Inspected(Err(s("bad header"))));
    assert_eq!(a.last(), Some(&FlowAction::ReturnErr(s("bad header"))));
}

#[test]
fn stop_after_long_silence_keeps_quiet_audio() {
    let f = StopFlow::new(StopRecordingIntent::LongSilenceWithSpeech);
    let (f, _) = stop_step(
        f,
        StopEvent::Requested { already_in_flight: false, entry_state: RecordingState::Recording, recorder_active: true },
    );
    let (f, _) = stop_step(f, StopEvent::RecorderStopped { errored: false, cancel_requested: false, capture_present: true });
    let (f, _) = stop_step(f, StopEvent::CaptureSize(Some(9_000)));
    let (f, _) = stop_step(f, StopEvent::Engine(whisper_facts("base", &["base"], false)));
    let (f, _) = stop_step(f, StopEvent::ModelPathFound(true));
    let (f, _) = stop_step(f, StopEvent::Normalized(true));
    let (_, a) = stop_step(f, StopEvent::Inspected(Ok((false, true))));
    assert_eq!(a, vec![FlowAction::StartTranscription, FlowAction::ReturnOk]);
}

#[test]
fn stop_failures_after_transcription() {
    let f = stop_until_transcribing(whisper_facts("base", &["base"], false));
    let (_, a) = stop_step(f.clone(), StopEvent::Transcribed { result: Err(s("Transcription timed out")), cancel_requested: false });
    assert_eq!(
        a,
        vec![
            FlowAction::Delete(FlowFile::Transcribed),
            FlowAction::WriteState(RecordingState::Error, Some(s("Transcription timed out"))),
            FlowAction::Toast(s("Transcription timed out"), 1500),
            FlowAction::Wait(2000),
            FlowAction::HidePill,
            FlowAction::WriteState(RecordingState::Idle, None),
        ]
    );
    let (_, a) = stop_step(f.clone(), StopEvent::AttemptCancelled);
    assert_eq!(
        a,
        vec![
            FlowAction::Delete(FlowFile::Transcribed),
            FlowAction::HidePill,
            FlowAction::WriteState(RecordingState::Idle, None),
        ]
    );
    let (_, a) = stop_step(f.clone(), StopEvent::Transcribed { result: Ok(s("[BLANK_AUDIO]")), cancel_requested: false });
    assert_eq!(a[1], FlowAction::Toast(s("No speech detected"), 1500));
    let (_, a) = stop_step(f.clone(), StopEvent::ModelLoadFailed(s("no file")));
    assert_eq!(
        a,
        vec![
            FlowAction::WriteState(RecordingState::Error, Some(s("Parakeet model load failed: no file"))),
            FlowAction::Toast(s("Parakeet model load failed: no file"), 1500),
        ]
    );
    let mut g = f;
    for n in 2..=3u32 {
        let (h, a) = stop_step(g, StopEvent::Transcribed { result: Err(s("glitch")), cancel_requested: false });
        assert_eq!(a, vec![FlowAction::Wait(500), FlowAction::Transcribe(n)]);
        g = h;
    }
    let (g, a) = stop_step(g, StopEvent::Transcribed { result: Err(s("glitch")), cancel_requested: false });
    assert_eq!(a[2], FlowAction::Toast(s("Transcription failed"), 1500));
    assert_eq!(g.phase, StopPhase::Done);
}

#[test]
fn stop_with_ai_formatting_failure_pastes_original_text() {
    let f = stop_until_transcribing(whisper_facts("base", &["base"], true));
    let (f, a) = stop_step(f, StopEvent::Transcribed { result: Ok(s("raw words")), cancel_requested: false });
    assert_eq!(
        a,
        vec![
            FlowAction::Delete(FlowFile::Transcribed),
            FlowAction::Signal(FlowSignal::EnhancingStarted),
            FlowAction::Enhance(s("raw words")),
        ]
    );
    let (f, a) = stop_step(f, StopEvent::Enhanced(Err(s("HTTP 401 Unauthorized"))));
    assert_eq!(
        a,
        vec![
            FlowAction::Signal(FlowSignal::EnhancingFailed),
            FlowAction::Toast(s("Formatting failed: API key unauthorized"), 1500),
            FlowAction::Signal(FlowSignal::AuthErrorNotice),
            FlowAction::HidePill,
            FlowAction::Wait(50),
            FlowAction::ReadAutoPaste,
        ]
    );
    let (f, a) = stop_step(f, StopEvent::AutoPaste(false));
    assert_eq!(a, vec![FlowAction::CopyText(s("raw words"))]);
    let (_, a) = stop_step(f, StopEvent::Copied(true));
    assert_eq!(
        a,
        vec![
            FlowAction::Toast(s("Transcription copied"), 1500),
            FlowAction::SaveHistory(s("raw words"), s("base")),
            FlowAction::WriteState(RecordingState::Idle, None),
        ]
    );
}

#[test]
fn stop_with_ai_formatting_pastes_formatted_text() {
    let f = stop_until_transcribing(whisper_facts("base", &["base"], true));
    let (f, _) = stop_step(f, StopEvent::Transcribed { result: Ok(s("raw words")), cancel_requested: false });
    let (f, a) = stop_step(f, StopEvent::Enhanced(Ok(s("Raw words."))));
    assert_eq!(a[0], FlowAction::Signal(FlowSignal::EnhancingCompleted));
    let (f, _) = stop_step(f, StopEvent::AutoPaste(true));
    let (_, a) = stop_step(f, StopEvent::Pasted(Ok(())));
    assert_eq!(
        a,
        vec![
            FlowAction::SaveHistory(s("Raw words."), s("base")),
            FlowAction::WriteState(RecordingState::Idle, None),
        ]
    );
}

#[test]
fn stop_ignores_events_it_does_not_wait_for() {
    let f = StopFlow::new(StopRecordingIntent::Normal);
    let (g, a) = stop_step(f.clone(), StopEvent::AutoPaste(true));
    assert!(a.is_empty());
    assert_eq!(g, f);
}

#[test]
fn start_full_path_with_pending_stop() {
    let f = StartFlow::new();
    let (f, a) = start_step(f, StartEvent::Requested { state: RecordingState::Error });
    assert_eq!(a, vec![FlowAction::WriteState(RecordingState::Idle, Some(s("recover"))), FlowAction::Validate]);
    let (f, a) = start_step(f, StartEvent::Validated { result: Ok(()), cpu_decode_in_flight: false, ptt_released: false });
    assert_eq!(a, vec![FlowAction::WriteState(RecordingState::Starting, None), FlowAction::ReadState]);
    let (f, a) = start_step(f, StartEvent::StateRead(RecordingState::Starting));
    assert_eq!(a, vec![FlowAction::PrepareCapture]);
    let (f, a) = start_step(f, StartEvent::Prepared { media_paused: true, config: Ok((true, s("when_recording"))) });
    assert_eq!(a, vec![FlowAction::PrepareRecordingFile]);
    assert!(f.show_pill && f.media_paused);
    let (f, a) = start_step(f, StartEvent::RecordingFile(Ok(1_700_000_000)));
    assert_eq!(
        a,
        vec![
            FlowAction::ClearPendingStop,
            FlowAction::SetRecordingFile(s("recording_1700000000.wav")),
            FlowAction::StartRecorder,
        ]
    );
    let (f, a) = start_step(f, StartEvent::RecorderStarted(RecorderStart::Recording));
    assert_eq!(a, vec![FlowAction::ListenToRecorder, FlowAction::ClearCancellation, FlowAction::CheckPtt]);
    let (f, a) = start_step(f, StartEvent::PttChecked { released: false });
    assert_eq!(a, vec![FlowAction::WriteState(RecordingState::Recording, None), FlowAction::TakePendingStop]);
    let (f, a) = start_step(f, StartEvent::PendingStop(true));
    assert_eq!(
        a,
        vec![
            FlowAction::RequestStop,
            FlowAction::ShowPill,
            FlowAction::Signal(FlowSignal::RecordingStarted),
            FlowAction::ArmEscape,
            FlowAction::ReturnOk,
        ]
    );
    assert_eq!(f.phase, StartPhase::Done);
}

fn start_at_recorder(media_paused: bool, pill_mode: &str) -> StartFlow {
    let f = StartFlow::new();
    let (f, _) = start_step(f, StartEvent::Requested { state: RecordingState::Idle });
    let (f, _) = start_step(f, StartEvent::Validated { result: Ok(()), cpu_decode_in_flight: false, ptt_released: false });
    let (f, _) = start_step(f, StartEvent::StateRead(RecordingState::Starting));
    let (f, _) = start_step(f, StartEvent::Prepared { media_paused, config: Ok((true, s(pill_mode))) });
    let (f, _) = start_step(f, StartEvent::RecordingFile(Ok(5)));
    assert_eq!(f.phase, StartPhase::AwaitRecorder);
    f
}

#[test]
fn start_refusals_before_the_recorder() {
    let f = StartFlow::new();
    let (f, a) = start_step(f, StartEvent::Requested { state: RecordingState::Idle });
    assert_eq!(a, vec![FlowAction::Validate]);
    let (_, a) = start_step(f, StartEvent::Validated { result: Ok(()), cpu_decode_in_flight: true, ptt_released: true });
    assert_eq!(a, vec![FlowAction::ReturnErr(s(PREVIOUS_TRANSCRIPTION_STOPPING))]);
    let (_, a) = start_step(f, StartEvent::Validated { result: Ok(()), cpu_decode_in_flight: false, ptt_released: true });
    assert_eq!(a, vec![FlowAction::ReturnErr(s(PTT_START_ABORTED_AFTER_RELEASE))]);
    let (_, a) = start_step(f, StartEvent::Validated { result: Err(s("No models")), cpu_decode_in_flight: false, ptt_released: false });
    assert_eq!(a, vec![FlowAction::ReturnErr(s("No models"))]);
    let (g, _) = start_step(f, StartEvent::Validated { result: Ok(()), cpu_decode_in_flight: false, ptt_released: false });
    let (_, a) = start_step(g, StartEvent::StateRead(RecordingState::Recording));
    assert_eq!(a, vec![FlowAction::ReturnErr(s("Cannot start recording in current state"))]);
    let (g, _) = start_step(g, StartEvent::StateRead(RecordingState::Starting));
    let (_, a) = start_step(g, StartEvent::Prepared { media_paused: true, config: Err(s("bad store")) });
    assert_eq!(a, vec![FlowAction::ResumeMedia, FlowAction::ReturnErr(s("Configuration error: bad store"))]);
}

#[test]
fn start_recorder_failures() {
    let (_, a) = start_step(start_at_recorder(true, "always"), StartEvent::RecorderStarted(RecorderStart::Failed(s("permission denied"))));
    assert_eq!(
        a,
        vec![
            FlowAction::WriteState(RecordingState::Error, Some(s("permission denied"))),
            FlowAction::Toast(s("Microphone permission denied"), 1500),
            FlowAction::ResumeMedia,
            FlowAction::ReturnErr(s("permission denied")),
        ]
    );
    let (_, a) = start_step(start_at_recorder(false, "always"), StartEvent::RecorderStarted(RecorderStart::NotRecording));
    assert_eq!(
        a,
        vec![
            FlowAction::WriteState(RecordingState::Error, Some(s("Microphone initialization failed"))),
            FlowAction::Toast(s("Microphone access failed"), 1500),
            FlowAction::ReturnErr(s("Failed to start recording")),
        ]
    );
    let (_, a) = start_step(start_at_recorder(true, "always"), StartEvent::RecorderStarted(RecorderStart::AlreadyRecording));
    assert_eq!(a, vec![FlowAction::ResumeMedia, FlowAction::ReturnErr(s("Already recording"))]);
}

#[test]
fn start_aborted_when_ptt_released_early() {
    let f = start_at_recorder(false, "never");
    let (f, _) = start_step(f, StartEvent::RecorderStarted(RecorderStart::Recording));
    let (f, a) = start_step(f, StartEvent::PttChecked { released: true });
    assert_eq!(a, vec![FlowAction::StopRecorderQuietly]);
    let (_, a) = start_step(f, StartEvent::AbortStopped(Ok(())));
    assert_eq!(
        a,
        vec![
            FlowAction::ClearPendingStop,
            FlowAction::ResumeMedia,
            FlowAction::Delete(FlowFile::Capture),
            FlowAction::WriteState(RecordingState::Idle, None),
            FlowAction::ReturnErr(s(PTT_START_ABORTED_AFTER_RELEASE)),
        ]
    );
}

#[test]
fn start_never_mode_hides_pill() {
    let f = start_at_recorder(false, "never");
    assert!(!f.show_pill);
    let (f, _) = start_step(f, StartEvent::RecorderStarted(RecorderStart::Recording));
    let (f, _) = start_step(f, StartEvent::PttChecked { released: false });
    let (_, a) = start_step(f, StartEvent::PendingStop(false));
    assert_eq!(a, vec![FlowAction::Signal(FlowSignal::RecordingStarted), FlowAction::ArmEscape, FlowAction::ReturnOk]);
}
