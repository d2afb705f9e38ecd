//! The start and stop recording commands as state machines. Each step takes
//! what the previous action found out (an event) and decides the next state
//! and the actions to perform: state writes, toasts, file clean-up,
//! transcription, formatting, pasting and the command's own reply.
//! The code around the machine performs each action and reports back with
//! the next event; `stop_run` and `start_run` describe a whole command.
use vstd::prelude::*;
use crate::recording::{
    RecordingState, StopRecordingIntent, TranscriptionFailure, TranscriptionFailureToast, MissingModel,
    stop_should_reset_to_idle, should_discard_likely_silence, parakeet_model, soniox_model,
    whisper_model_choice, wav_has_samples, should_retry_transcription, non_retryable_spec,
    is_blank_transcript, is_blank_transcript_spec, transcription_failure, formatting_failure,
    formatting_failure_spec, fallback_model_spec, TRANSCRIPTION_TIMED_OUT, PREVIOUS_TRANSCRIPTION_STOPPING,
    PTT_START_ABORTED_AFTER_RELEASE, start_blocked_reason, recording_start_failure_message, recording_file_name,
};
use crate::text::{chars_of, string_of, concat2, concat3, contains_chars, contains_seq, str_eq, strings_contain, decimal};

verus! {

broadcast use vstd::string::group_string_axioms;

/// A file of a recording: the captured audio, its normalized copy, and the
/// file handed to the transcription engine.
#[derive(Debug, Clone, Copy, PartialEq, Eq, Structural)]
pub enum FlowFile {
    Capture,
    Normalized,
    Transcribed,
}

/// A notice to the windows that carries no text.
#[derive(Debug, Clone, Copy, PartialEq, Eq, Structural)]
pub enum FlowSignal {
    TranscriptionStarted,
    EnhancingStarted,
    EnhancingCompleted,
    EnhancingFailed,
    AuthErrorNotice,
    NoSpeech,
    RecordingStarted,
}

/// An action requested by a recording flow; `S` is the type of its texts.
#[derive(Debug, Clone, PartialEq, Eq)]
pub enum FlowAction<S> {
    /// Set the recording state, with an optional message.
    WriteState(RecordingState, Option<S>),
    /// Show a pill toast for the given milliseconds.
    Toast(S, u64),
    /// Hide the pill, where the indicator mode hides it when idle.
    HidePill,
    /// Show the pill.
    ShowPill,
    /// Sleep for the given milliseconds.
    Wait(u64),
    /// Send a notice to the windows.
    Signal(FlowSignal),
    /// Remove a recording file.
    Delete(FlowFile),
    /// Answer the command with success.
    ReturnOk,
    /// Answer the command with an error.
    ReturnErr(S),
    /// Stop the recorder, play the end sound and resume paused media.
    StopRecorder,
    /// Unregister the Escape shortcut and forget a first Escape press.
    DisarmEscape,
    /// Read the size of the captured file.
    CheckCapture,
    /// Load the recording configuration and what the engines offer.
    LoadEngineFacts,
    /// Look up the file of a Whisper model.
    LookupModelPath(S),
    /// Normalize the captured audio.
    Normalize,
    /// Measure the normalized audio.
    Inspect,
    /// Start the transcription task.
    StartTranscription,
    /// Run transcription attempt number `n` (from 1).
    Transcribe(u32),
    /// Tell the pill that a fallback model replaces the requested one.
    ModelFallback(S, S),
    /// Tell the main window that no model can transcribe.
    NoModels(S),
    /// Tell the pill that the recording was too short.
    TooShort(S),
    /// Format the transcript with AI.
    Enhance(S),
    /// Read whether transcripts are pasted.
    ReadAutoPaste,
    /// Paste the text at the cursor.
    PasteText(S),
    /// Copy the text to the clipboard.
    CopyText(S),
    /// Save the text, with the model that produced it, to the history.
    SaveHistory(S, S),
    /// Check that recording can start at all.
    Validate,
    /// Read the recording state back.
    ReadState,
    /// Play the start sound, pause media if asked, and load the configuration.
    PrepareCapture,
    /// Resume media that the flow paused.
    ResumeMedia,
    /// Make the recordings directory and read the clock.
    PrepareRecordingFile,
    /// Forget a stop requested while starting.
    ClearPendingStop,
    /// Remember the file the recording goes to.
    SetRecordingFile(S),
    /// Start the recorder on the remembered file.
    StartRecorder,
    /// Forward audio levels and silence events of the recorder.
    ListenToRecorder,
    /// Forget an earlier cancellation.
    ClearCancellation,
    /// Read whether the push-to-talk key is up again.
    CheckPtt,
    /// Stop the recorder without a stop flow.
    StopRecorderQuietly,
    /// Take (and clear) the stop requested while starting.
    TakePendingStop,
    /// Start a stop flow.
    RequestStop,
    /// Register the Escape shortcut and forget a first Escape press.
    ArmEscape,
}

/// An optional text by its characters.
pub open spec fn opt_text(o: Option<String>) -> Option<Seq<char>> {
    match o {
        Some(t) => Some(t@),
        None => None,
    }
}

/// A reply by the characters of its error.
pub open spec fn res_text(r: Result<(), String>) -> Result<(), Seq<char>> {
    match r {
        Ok(()) => Ok(()),
        Err(e) => Err(e@),
    }
}

impl View for FlowAction<String> {
    type V = FlowAction<Seq<char>>;

    open spec fn view(&self) -> FlowAction<Seq<char>> {
        match *self {
            FlowAction::WriteState(s, m) => FlowAction::WriteState(s, opt_text(m)),
            FlowAction::Toast(t, ms) => FlowAction::Toast(t@, ms),
            FlowAction::HidePill => FlowAction::HidePill,
            FlowAction::ShowPill => FlowAction::ShowPill,
            FlowAction::Wait(ms) => FlowAction::Wait(ms),
            FlowAction::Signal(s) => FlowAction::Signal(s),
            FlowAction::Delete(f) => FlowAction::Delete(f),
            FlowAction::ReturnOk => FlowAction::ReturnOk,
            FlowAction::ReturnErr(t) => FlowAction::ReturnErr(t@),
            FlowAction::StopRecorder => FlowAction::StopRecorder,
            FlowAction::DisarmEscape => FlowAction::DisarmEscape,
            FlowAction::CheckCapture => FlowAction::CheckCapture,
            FlowAction::LoadEngineFacts => FlowAction::LoadEngineFacts,
            FlowAction::LookupModelPath(m) => FlowAction::LookupModelPath(m@),
            FlowAction::Normalize => FlowAction::Normalize,
            FlowAction::Inspect => FlowAction::Inspect,
            FlowAction::StartTranscription => FlowAction::StartTranscription,
            FlowAction::Transcribe(n) => FlowAction::Transcribe(n),
            FlowAction::ModelFallback(a, b) => FlowAction::ModelFallback(a@, b@),
            FlowAction::NoModels(t) => FlowAction::NoModels(t@),
            FlowAction::TooShort(t) => FlowAction::TooShort(t@),
            FlowAction::Enhance(t) => FlowAction::Enhance(t@),
            FlowAction::ReadAutoPaste => FlowAction::ReadAutoPaste,
            FlowAction::PasteText(t) => FlowAction::PasteText(t@),
            FlowAction::CopyText(t) => FlowAction::CopyText(t@),
            FlowAction::SaveHistory(t, m) => FlowAction::SaveHistory(t@, m@),
            FlowAction::Validate => FlowAction::Validate,
            FlowAction::ReadState => FlowAction::ReadState,
            FlowAction::PrepareCapture => FlowAction::PrepareCapture,
            FlowAction::ResumeMedia => FlowAction::ResumeMedia,
            FlowAction::PrepareRecordingFile => FlowAction::PrepareRecordingFile,
            FlowAction::ClearPendingStop => FlowAction::ClearPendingStop,
            FlowAction::SetRecordingFile(t) => FlowAction::SetRecordingFile(t@),
            FlowAction::StartRecorder => FlowAction::StartRecorder,
            FlowAction::ListenToRecorder => FlowAction::ListenToRecorder,
            FlowAction::ClearCancellation => FlowAction::ClearCancellation,
            FlowAction::CheckPtt => FlowAction::CheckPtt,
            FlowAction::StopRecorderQuietly => FlowAction::StopRecorderQuietly,
            FlowAction::TakePendingStop => FlowAction::TakePendingStop,
            FlowAction::RequestStop => FlowAction::RequestStop,
            FlowAction::ArmEscape => FlowAction::ArmEscape,
        }
    }
}

/// The actions of a vector, by their views.
pub open spec fn actions_view(s: Seq<FlowAction<String>>) -> Seq<FlowAction<Seq<char>>> {
    s.map_values(|a: FlowAction<String>| a@)
}

/// The write of the idle state.
pub open spec fn idle() -> FlowAction<Seq<char>> {
    FlowAction::WriteState(RecordingState::Idle, None)
}

/// The successful reply.
pub open spec fn ret_ok() -> FlowAction<Seq<char>> {
    FlowAction::ReturnOk
}

/// A `String` with the characters of `s`.
fn lit(s: &str) -> (r: String)
    ensures
        r@ == s@,
{
    string_of(&chars_of(s))
}

fn idle_action() -> (r: FlowAction<String>)
    ensures
        r@ == idle(),
{
    FlowAction::WriteState(RecordingState::Idle, None)
}

fn ok_action() -> (r: FlowAction<String>)
    ensures
        r@ == ret_ok(),
{
    FlowAction::ReturnOk
}

// ---------------------------------------------------------------------------
// Stopping
// ---------------------------------------------------------------------------

/// Where a stop flow stands: which report it waits for.
#[derive(Debug, Clone, Copy, PartialEq, Eq, Structural)]
pub enum StopPhase {
    Begin,
    AwaitRecorder,
    AwaitCapture,
    AwaitEngineFacts,
    AwaitModelPath,
    AwaitNormalized,
    AwaitInspection,
    AwaitTaskStart,
    AwaitTranscript,
    AwaitEnhanced,
    AwaitAutoPaste,
    AwaitDelivery,
    Done,
}

/// The engine that transcribes a recording.
#[derive(Debug, Clone, Copy, PartialEq, Eq, Structural)]
pub enum EngineKind {
    Whisper,
    Parakeet,
    Soniox,
}

/// A stop flow: its phase and what it has learned so far.
#[derive(Debug, Clone, PartialEq, Eq)]
pub struct StopFlow<S> {
    pub phase: StopPhase,
    pub intent: StopRecordingIntent,
    pub engine: EngineKind,
    /// The model that transcribes.
    pub model: S,
    /// Whether the transcript is formatted with AI.
    pub ai_enabled: bool,
    /// The current transcription attempt (from 1).
    pub attempt: u32,
    /// The transcript as the engine gave it.
    pub transcript: S,
    /// The text that is pasted or copied and saved.
    pub final_text: S,
}

impl View for StopFlow<String> {
    type V = StopFlow<Seq<char>>;

    open spec fn view(&self) -> StopFlow<Seq<char>> {
        StopFlow {
            phase: self.phase,
            intent: self.intent,
            engine: self.engine,
            model: self.model@,
            ai_enabled: self.ai_enabled,
            attempt: self.attempt,
            transcript: self.transcript@,
            final_text: self.final_text@,
        }
    }
}

/// What the configuration and the engines offer when a recording is to be
/// transcribed.
pub struct EngineFacts {
    /// The configured engine ("parakeet", "soniox", anything else is Whisper).
    pub engine: String,
    /// The configured model (empty when none).
    pub model: String,
    pub ai_enabled: bool,
    /// Whether the Parakeet model is downloaded; `None` when it is not listed.
    pub parakeet_listed: Option<bool>,
    /// Whether a Soniox token is stored.
    pub soniox_token: bool,
    /// The downloaded Whisper models.
    pub downloaded: Vec<String>,
    /// The Whisper models in order of preference.
    pub priority: Vec<String>,
}

/// What the code around a stop flow reports.
pub enum StopEvent {
    /// The command was called: whether another stop is under way, the state
    /// at entry, and whether the recorder records.
    Requested { already_in_flight: bool, entry_state: RecordingState, recorder_active: bool },
    /// The recorder stopped: whether it failed, whether a cancel was asked
    /// for, and whether a captured file is known.
    RecorderStopped { errored: bool, cancel_requested: bool, capture_present: bool },
    /// The size of the captured file, when it could be read.
    CaptureSize(Option<u64>),
    /// The configuration could not be loaded.
    ConfigFailed(String),
    /// The configuration and what the engines offer.
    Engine(EngineFacts),
    /// Whether the chosen Whisper model has a file.
    ModelPathFound(bool),
    /// Whether normalization succeeded.
    Normalized(bool),
    /// The normalized audio: whether it is too short, whether it is likely
    /// silence; or why it could not be read.
    Inspected(Result<(bool, bool), String>),
    /// The transcription task runs: whether a cancel was asked for.
    TaskStarted { cancel_requested: bool },
    /// A cancel was found before a Whisper attempt.
    AttemptCancelled,
    /// The Parakeet model could not be loaded.
    ModelLoadFailed(String),
    /// The engine answered; whether a cancel was asked for meanwhile.
    Transcribed { result: Result<String, String>, cancel_requested: bool },
    /// The AI formatting answered.
    Enhanced(Result<String, String>),
    /// Whether transcripts are pasted.
    AutoPaste(bool),
    /// The paste answered.
    Pasted(Result<(), String>),
    /// Whether the copy succeeded.
    Copied(bool),
}

/// The Whisper attempts made at most.
pub const MAX_TRANSCRIPTION_ATTEMPTS: u32 = 3;

/// The flow moved to phase `p`.
pub open spec fn with_phase(f: StopFlow<Seq<char>>, p: StopPhase) -> StopFlow<Seq<char>> {
    StopFlow {
        phase: p,
        intent: f.intent,
        engine: f.engine,
        model: f.model,
        ai_enabled: f.ai_enabled,
        attempt: f.attempt,
        transcript: f.transcript,
        final_text: f.final_text,
    }
}

/// The Parakeet model to use, or the (logged, shown) reasons it cannot be.
pub open spec fn parakeet_choice(model: Seq<char>, listed: Option<bool>) -> Result<Seq<char>, (Seq<char>, Seq<char>)> {
    if model.len() == 0 {
        Err(("No Parakeet model selected"@, "Please select a Parakeet model before recording."@))
    } else {
        match listed {
            Some(true) => Ok(model),
            Some(false) => Err(
                (
                    "Selected Parakeet model is not downloaded"@,
                    "Please download the selected Parakeet model before recording."@,
                ),
            ),
            None => Err(
                (
                    "Selected Parakeet model is not available"@,
                    "The selected Parakeet model is unavailable. Please download it again."@,
                ),
            ),
        }
    }
}

/// The Soniox model to use, or the (logged, shown) reasons it cannot be.
pub open spec fn soniox_choice(model: Seq<char>, token: bool) -> Result<Seq<char>, (Seq<char>, Seq<char>)> {
    if model.len() == 0 {
        Err(("No Soniox model selected"@, "Please select the Soniox cloud model before recording."@))
    } else if !token {
        Err(("Soniox token not configured"@, "Please configure your Soniox token in Models before recording."@))
    } else {
        Ok(model)
    }
}

/// The Whisper model to use and whether it replaces the configured one, or
/// the (logged, shown) reasons none can be used.
pub open spec fn whisper_choice(downloaded: Seq<String>, model: Seq<char>, priority: Seq<String>) -> Result<
    (Seq<char>, bool),
    (Seq<char>, Seq<char>),
> {
    if downloaded.len() == 0 {
        Err(
            (
                "No speech recognition models installed"@,
                "Please download at least one speech recognition model from Models to use VoiceTypr."@,
            ),
        )
    } else if model.len() > 0 && strings_contain(downloaded, model) {
        Ok((model, false))
    } else if model.len() > 0 {
        Ok((fallback_model_spec(downloaded, model, priority), true))
    } else {
        Ok((fallback_model_spec(downloaded, Seq::empty(), priority), false))
    }
}

/// Where a transcription error leads, by its text.
pub open spec fn failure_kind(e: Seq<char>) -> TranscriptionFailure {
    if contains_seq(e, "cancelled"@) {
        TranscriptionFailure::Cancelled
    } else if contains_seq(e, "too short"@) {
        TranscriptionFailure::TooShort
    } else if e == TRANSCRIPTION_TIMED_OUT@ {
        TranscriptionFailure::Failed(TranscriptionFailureToast::TimedOut)
    } else {
        TranscriptionFailure::Failed(TranscriptionFailureToast::Generic)
    }
}

pub open spec fn failure_toast(t: TranscriptionFailureToast) -> Seq<char> {
    match t {
        TranscriptionFailureToast::TimedOut => TRANSCRIPTION_TIMED_OUT@,
        TranscriptionFailureToast::Generic => "Transcription failed"@,
    }
}

/// The toast of a failed paste.
pub open spec fn paste_failure_text(e: Seq<char>) -> Seq<char> {
    if contains_seq(e, "accessibility"@) || contains_seq(e, "permission"@) {
        "Text copied - grant permission to auto-paste"@
    } else {
        "Paste failed - text in clipboard"@
    }
}

/// What a stop does when no model can transcribe: the error state with the
/// user's message, the capture removed, the message shown and sent to the
/// main window, and back to idle.
pub open spec fn stop_abort(f: StopFlow<Seq<char>>, log: Seq<char>, user: Seq<char>) -> (
    StopFlow<Seq<char>>,
    Seq<FlowAction<Seq<char>>>,
) {
    (
        done(f),
        seq![
            FlowAction::WriteState(RecordingState::Error, Some(user)),
            FlowAction::Delete(FlowFile::Capture),
            FlowAction::Toast(user, 2000),
            FlowAction::NoModels(user),
            FlowAction::HidePill,
            idle(),
            FlowAction::ReturnErr(log),
        ],
    )
}

/// The flow moved to phase `p` with the engine and model that will
/// transcribe.
pub open spec fn chosen(f: StopFlow<Seq<char>>, p: StopPhase, engine: EngineKind, model: Seq<char>, ai: bool) -> StopFlow<
    Seq<char>,
> {
    StopFlow {
        phase: p,
        intent: f.intent,
        engine,
        model,
        ai_enabled: ai,
        attempt: f.attempt,
        transcript: f.transcript,
        final_text: f.final_text,
    }
}

/// What a stop does with the configuration: it picks the engine and model, or
/// gives up when none can transcribe.
pub open spec fn on_engine_facts(f: StopFlow<Seq<char>>, e: EngineFacts) -> (StopFlow<Seq<char>>, Seq<FlowAction<Seq<char>>>) {
    if e.engine@ == "parakeet"@ {
        match parakeet_choice(e.model@, e.parakeet_listed) {
            Err((l, u)) => stop_abort(f, l, u),
            Ok(m) => (
                chosen(f, StopPhase::AwaitNormalized, EngineKind::Parakeet, m, e.ai_enabled),
                seq![FlowAction::Normalize],
            ),
        }
    } else if e.engine@ == "soniox"@ {
        match soniox_choice(e.model@, e.soniox_token) {
            Err((l, u)) => stop_abort(f, l, u),
            Ok(m) => (
                chosen(f, StopPhase::AwaitTaskStart, EngineKind::Soniox, m, e.ai_enabled),
                seq![FlowAction::StartTranscription, ret_ok()],
            ),
        }
    } else {
        match whisper_choice(e.downloaded@, e.model@, e.priority@) {
            Err((l, u)) => stop_abort(f, l, u),
            Ok((c, fell_back)) => (
                chosen(f, StopPhase::AwaitModelPath, EngineKind::Whisper, c, e.ai_enabled),
                if fell_back {
                    seq![FlowAction::ModelFallback(e.model@, c), FlowAction::LookupModelPath(c)]
                } else {
                    seq![FlowAction::LookupModelPath(c)]
                },
            ),
        }
    }
}

/// What a stop flow does after a transcription failed for good.
pub open spec fn on_failure(f: StopFlow<Seq<char>>, e: Seq<char>) -> (StopFlow<Seq<char>>, Seq<FlowAction<Seq<char>>>) {
    (
        done(f),
        match failure_kind(e) {
            TranscriptionFailure::Cancelled => seq![
                FlowAction::Delete(FlowFile::Transcribed),
                FlowAction::HidePill,
                idle(),
            ],
            TranscriptionFailure::TooShort => seq![
                FlowAction::Delete(FlowFile::Transcribed),
                FlowAction::Delete(FlowFile::Transcribed),
                FlowAction::Toast(e, 1000),
                FlowAction::Wait(2500),
                FlowAction::HidePill,
                idle(),
            ],
            TranscriptionFailure::Failed(t) => seq![
                FlowAction::Delete(FlowFile::Transcribed),
                FlowAction::WriteState(RecordingState::Error, Some(e)),
                FlowAction::Toast(failure_toast(t), 1500),
                FlowAction::Wait(2000),
                FlowAction::HidePill,
                idle(),
            ],
        },
    )
}

/// Hands `text` on for delivery, after the actions `pre`.
pub open spec fn deliver(f: StopFlow<Seq<char>>, text: Seq<char>, pre: Seq<FlowAction<Seq<char>>>) -> (
    StopFlow<Seq<char>>,
    Seq<FlowAction<Seq<char>>>,
) {
    (
        StopFlow {
            phase: StopPhase::AwaitAutoPaste,
            intent: f.intent,
            engine: f.engine,
            model: f.model,
            ai_enabled: f.ai_enabled,
            attempt: f.attempt,
            transcript: f.transcript,
            final_text: text,
        },
        pre + seq![FlowAction::HidePill, FlowAction::Wait(50), FlowAction::ReadAutoPaste],
    )
}

/// The flow moved to phase `p`, holding the transcript `t`.
pub open spec fn with_transcript(f: StopFlow<Seq<char>>, p: StopPhase, t: Seq<char>) -> StopFlow<Seq<char>> {
    StopFlow {
        phase: p,
        intent: f.intent,
        engine: f.engine,
        model: f.model,
        ai_enabled: f.ai_enabled,
        attempt: f.attempt,
        transcript: t,
        final_text: f.final_text,
    }
}

/// What a stop does with the engine's answer: a Whisper error is retried
/// while attempts remain; a final error ends the flow; a transcript is
/// dropped (cancelled or no speech), formatted, or delivered.
pub open spec fn on_transcribed(f: StopFlow<Seq<char>>, result: Result<Seq<char>, Seq<char>>, cancel: bool) -> (
    StopFlow<Seq<char>>,
    Seq<FlowAction<Seq<char>>>,
) {
    match result {
        Err(e) => if f.engine == EngineKind::Whisper && !non_retryable_spec(e) && f.attempt
            < MAX_TRANSCRIPTION_ATTEMPTS {
            (
                StopFlow {
                    phase: StopPhase::AwaitTranscript,
                    intent: f.intent,
                    engine: f.engine,
                    model: f.model,
                    ai_enabled: f.ai_enabled,
                    attempt: (f.attempt + 1) as u32,
                    transcript: f.transcript,
                    final_text: f.final_text,
                },
                seq![FlowAction::Wait(500), FlowAction::Transcribe((f.attempt + 1) as u32)],
            )
        } else {
            on_failure(f, e)
        },
        Ok(t) => if cancel {
            (
                done(f),
                seq![FlowAction::Delete(FlowFile::Transcribed), FlowAction::HidePill, idle()],
            )
        } else if is_blank_transcript_spec(t) {
            (
                done(f),
                seq![
                    FlowAction::Delete(FlowFile::Transcribed),
                    FlowAction::Toast("No speech detected"@, 1500),
                    FlowAction::Wait(2500),
                    FlowAction::HidePill,
                    idle(),
                ],
            )
        } else if f.ai_enabled {
            (
                with_transcript(f, StopPhase::AwaitEnhanced, t),
                seq![
                    FlowAction::Delete(FlowFile::Transcribed),
                    FlowAction::Signal(FlowSignal::EnhancingStarted),
                    FlowAction::Enhance(t),
                ],
            )
        } else {
            deliver(with_transcript(f, f.phase, t), t, seq![FlowAction::Delete(FlowFile::Transcribed)])
        },
    }
}

/// What a stop does with the AI formatting's answer: the formatted text is
/// delivered, or on failure the transcript itself, after telling the user.
pub open spec fn on_enhanced(f: StopFlow<Seq<char>>, result: Result<Seq<char>, Seq<char>>) -> (
    StopFlow<Seq<char>>,
    Seq<FlowAction<Seq<char>>>,
) {
    match result {
        Ok(t) => deliver(f, t, seq![FlowAction::Signal(FlowSignal::EnhancingCompleted)]),
        Err(e) => {
            let (msg, auth) = formatting_failure_spec(e);
            deliver(
                f,
                f.transcript,
                if auth {
                    seq![
                        FlowAction::Signal(FlowSignal::EnhancingFailed),
                        FlowAction::Toast(msg, 1500),
                        FlowAction::Signal(FlowSignal::AuthErrorNotice),
                    ]
                } else {
                    seq![FlowAction::Signal(FlowSignal::EnhancingFailed), FlowAction::Toast(msg, 1500)]
                },
            )
        },
    }
}

/// Ends a stop flow after delivery: the text goes to the history and the
/// state back to idle.
pub open spec fn finish(f: StopFlow<Seq<char>>, pre: Seq<FlowAction<Seq<char>>>) -> (
    StopFlow<Seq<char>>,
    Seq<FlowAction<Seq<char>>>,
) {
    (done(f), pre + seq![FlowAction::SaveHistory(f.final_text, f.model), idle()])
}

/// The flow ended.
pub open spec fn done(f: StopFlow<Seq<char>>) -> StopFlow<Seq<char>> {
    with_phase(f, StopPhase::Done)
}

/// What a stop does when the command is called.
pub open spec fn on_requested(f: StopFlow<Seq<char>>, already_in_flight: bool, entry_state: RecordingState, recorder_active: bool) -> (
    StopFlow<Seq<char>>,
    Seq<FlowAction<Seq<char>>>,
) {
    if already_in_flight {
        (done(f), seq![ret_ok()])
    } else if !recorder_active {
        (
            done(f),
            if !(entry_state == RecordingState::Stopping || entry_state == RecordingState::Transcribing) {
                seq![FlowAction::WriteState(RecordingState::Stopping, None), idle(), ret_ok()]
            } else {
                seq![FlowAction::WriteState(RecordingState::Stopping, None), ret_ok()]
            },
        )
    } else {
        (
            with_phase(f, StopPhase::AwaitRecorder),
            seq![FlowAction::WriteState(RecordingState::Stopping, None), FlowAction::StopRecorder],
        )
    }
}

/// What a stop does once the recorder stopped.
pub open spec fn on_recorder_stopped(f: StopFlow<Seq<char>>, errored: bool, cancel_requested: bool, capture_present: bool) -> (
    StopFlow<Seq<char>>,
    Seq<FlowAction<Seq<char>>>,
) {
    if errored {
        (
            done(f),
            seq![
                FlowAction::DisarmEscape,
                FlowAction::Toast("Recording error"@, 1500),
                FlowAction::HidePill,
                idle(),
                ret_ok(),
            ],
        )
    } else if cancel_requested {
        (
            done(f),
            seq![
                FlowAction::DisarmEscape,
                FlowAction::Delete(FlowFile::Capture),
                FlowAction::HidePill,
                idle(),
                ret_ok(),
            ],
        )
    } else if !capture_present {
        (done(f), seq![FlowAction::DisarmEscape, idle(), ret_ok()])
    } else {
        (with_phase(f, StopPhase::AwaitCapture), seq![FlowAction::DisarmEscape, FlowAction::CheckCapture])
    }
}

/// What a stop does with the size of the captured file: a file without
/// samples is dropped.
pub open spec fn on_capture_size(f: StopFlow<Seq<char>>, size: Option<u64>) -> (StopFlow<Seq<char>>, Seq<FlowAction<Seq<char>>>) {
    if size is Some && size->0 <= 44 {
        (
            done(f),
            seq![
                FlowAction::Toast("No audio captured"@, 1000),
                FlowAction::Delete(FlowFile::Capture),
                idle(),
                ret_ok(),
            ],
        )
    } else {
        (with_phase(f, StopPhase::AwaitEngineFacts), seq![FlowAction::LoadEngineFacts])
    }
}

/// What a stop does once the Whisper model file was looked up.
pub open spec fn on_model_path(f: StopFlow<Seq<char>>, found: bool) -> (StopFlow<Seq<char>>, Seq<FlowAction<Seq<char>>>) {
    if found {
        (with_phase(f, StopPhase::AwaitNormalized), seq![FlowAction::Normalize])
    } else {
        (done(f), seq![FlowAction::ReturnErr("Model '"@ + f.model + "' path not found"@)])
    }
}

/// What a stop does once normalization ended.
pub open spec fn on_normalized(f: StopFlow<Seq<char>>, ok: bool) -> (StopFlow<Seq<char>>, Seq<FlowAction<Seq<char>>>) {
    if ok {
        (with_phase(f, StopPhase::AwaitInspection), seq![FlowAction::Delete(FlowFile::Capture), FlowAction::Inspect])
    } else {
        (
            done(f),
            seq![
                FlowAction::WriteState(RecordingState::Error, Some("Audio normalization failed"@)),
                FlowAction::Delete(FlowFile::Capture),
                FlowAction::ReturnErr("Audio normalization failed"@),
            ],
        )
    }
}

/// What a stop does with the measures of the normalized audio: too short or
/// (on a normal stop) silent audio is dropped.
pub open spec fn on_inspected(f: StopFlow<Seq<char>>, r: Result<(bool, bool), Seq<char>>) -> (
    StopFlow<Seq<char>>,
    Seq<FlowAction<Seq<char>>>,
) {
    match r {
        Err(msg) => (
            done(f),
            seq![
                FlowAction::WriteState(RecordingState::Error, Some("Audio inspection failed"@)),
                FlowAction::Delete(FlowFile::Normalized),
                FlowAction::ReturnErr(msg),
            ],
        ),
        Ok((too_short, silence)) => if too_short {
            (
                done(f),
                seq![
                    FlowAction::TooShort("Recording shorter than 0.5 seconds"@),
                    FlowAction::Delete(FlowFile::Normalized),
                    idle(),
                    ret_ok(),
                ],
            )
        } else if silence && f.intent == StopRecordingIntent::Normal {
            (
                done(f),
                seq![
                    FlowAction::Toast("No speech detected"@, 1500),
                    FlowAction::Signal(FlowSignal::NoSpeech),
                    FlowAction::Delete(FlowFile::Normalized),
                    idle(),
                    ret_ok(),
                ],
            )
        } else {
            (with_phase(f, StopPhase::AwaitTaskStart), seq![FlowAction::StartTranscription, ret_ok()])
        },
    }
}

/// What the transcription task does when it starts.
pub open spec fn on_task_started(f: StopFlow<Seq<char>>, cancel_requested: bool) -> (StopFlow<Seq<char>>, Seq<FlowAction<Seq<char>>>) {
    if cancel_requested {
        (
            done(f),
            seq![
                FlowAction::WriteState(RecordingState::Transcribing, None),
                FlowAction::Signal(FlowSignal::TranscriptionStarted),
                FlowAction::HidePill,
                idle(),
            ],
        )
    } else {
        (
            StopFlow {
                phase: StopPhase::AwaitTranscript,
                intent: f.intent,
                engine: f.engine,
                model: f.model,
                ai_enabled: f.ai_enabled,
                attempt: 1,
                transcript: f.transcript,
                final_text: f.final_text,
            },
            seq![
                FlowAction::WriteState(RecordingState::Transcribing, None),
                FlowAction::Signal(FlowSignal::TranscriptionStarted),
                FlowAction::Transcribe(1),
            ],
        )
    }
}

/// What the transcription task does when the Parakeet model fails to load.
pub open spec fn on_model_load_failed(f: StopFlow<Seq<char>>, msg: Seq<char>) -> (StopFlow<Seq<char>>, Seq<FlowAction<Seq<char>>>) {
    (
        done(f),
        seq![
            FlowAction::WriteState(RecordingState::Error, Some("Parakeet model load failed: "@ + msg)),
            FlowAction::Toast("Parakeet model load failed: "@ + msg, 1500),
        ],
    )
}

/// What a stop does once it knows whether to paste.
pub open spec fn on_auto_paste(f: StopFlow<Seq<char>>, paste: bool) -> (StopFlow<Seq<char>>, Seq<FlowAction<Seq<char>>>) {
    if paste {
        (with_phase(f, StopPhase::AwaitDelivery), seq![FlowAction::PasteText(f.final_text)])
    } else {
        (with_phase(f, StopPhase::AwaitDelivery), seq![FlowAction::CopyText(f.final_text)])
    }
}

/// What a stop does once the paste answered.
pub open spec fn on_pasted(f: StopFlow<Seq<char>>, r: Result<(), Seq<char>>) -> (StopFlow<Seq<char>>, Seq<FlowAction<Seq<char>>>) {
    match r {
        Ok(()) => finish(f, seq![]),
        Err(msg) => finish(f, seq![FlowAction::Toast(paste_failure_text(msg), 1500)]),
    }
}

/// What a stop does once the copy answered.
pub open spec fn on_copied(f: StopFlow<Seq<char>>, ok: bool) -> (StopFlow<Seq<char>>, Seq<FlowAction<Seq<char>>>) {
    if ok {
        finish(f, seq![FlowAction::Toast("Transcription copied"@, 1500)])
    } else {
        finish(f, seq![FlowAction::Toast("Copy failed"@, 1500)])
    }
}

/// A result by the characters of its texts.
pub open spec fn text_result(r: Result<String, String>) -> Result<Seq<char>, Seq<char>> {
    match r {
        Ok(t) => Ok(t@),
        Err(x) => Err(x@),
    }
}

/// Audio measures, or the characters of the error.
pub open spec fn inspection_view(r: Result<(bool, bool), String>) -> Result<(bool, bool), Seq<char>> {
    match r {
        Ok(x) => Ok(x),
        Err(msg) => Err(msg@),
    }
}

/// The phase in which a stop flow waits for an event.
pub open spec fn stop_phase_for(e: StopEvent) -> StopPhase {
    match e {
        StopEvent::Requested { .. } => StopPhase::Begin,
        StopEvent::RecorderStopped { .. } => StopPhase::AwaitRecorder,
        StopEvent::CaptureSize(_) => StopPhase::AwaitCapture,
        StopEvent::ConfigFailed(_) => StopPhase::AwaitEngineFacts,
        StopEvent::Engine(_) => StopPhase::AwaitEngineFacts,
        StopEvent::ModelPathFound(_) => StopPhase::AwaitModelPath,
        StopEvent::Normalized(_) => StopPhase::AwaitNormalized,
        StopEvent::Inspected(_) => StopPhase::AwaitInspection,
        StopEvent::TaskStarted { .. } => StopPhase::AwaitTaskStart,
        StopEvent::AttemptCancelled => StopPhase::AwaitTranscript,
        StopEvent::ModelLoadFailed(_) => StopPhase::AwaitTranscript,
        StopEvent::Transcribed { .. } => StopPhase::AwaitTranscript,
        StopEvent::Enhanced(_) => StopPhase::AwaitEnhanced,
        StopEvent::AutoPaste(_) => StopPhase::AwaitAutoPaste,
        StopEvent::Pasted(_) => StopPhase::AwaitDelivery,
        StopEvent::Copied(_) => StopPhase::AwaitDelivery,
    }
}

/// One step of a stop flow. An event that the phase does not wait for
/// changes nothing.
pub open spec fn stop_step_spec(f: StopFlow<Seq<char>>, e: StopEvent) -> (StopFlow<Seq<char>>, Seq<FlowAction<Seq<char>>>) {
    if f.phase != stop_phase_for(e) {
        (f, Seq::empty())
    } else {
        match e {
            StopEvent::Requested { already_in_flight, entry_state, recorder_active } => on_requested(
                f,
                already_in_flight,
                entry_state,
                recorder_active,
            ),
            StopEvent::RecorderStopped { errored, cancel_requested, capture_present } => on_recorder_stopped(
                f,
                errored,
                cancel_requested,
                capture_present,
            ),
            StopEvent::CaptureSize(size) => on_capture_size(f, size),
            StopEvent::ConfigFailed(msg) => (done(f), seq![FlowAction::ReturnErr("Configuration error: "@ + msg@)]),
            StopEvent::Engine(facts) => on_engine_facts(f, facts),
            StopEvent::ModelPathFound(found) => on_model_path(f, found),
            StopEvent::Normalized(ok) => on_normalized(f, ok),
            StopEvent::Inspected(r) => on_inspected(f, inspection_view(r)),
            StopEvent::TaskStarted { cancel_requested } => on_task_started(f, cancel_requested),
            StopEvent::AttemptCancelled => on_failure(f, "Transcription cancelled"@),
            StopEvent::ModelLoadFailed(msg) => on_model_load_failed(f, msg@),
            StopEvent::Transcribed { result, cancel_requested } => on_transcribed(f, text_result(result), cancel_requested),
            StopEvent::Enhanced(result) => on_enhanced(f, text_result(result)),
            StopEvent::AutoPaste(paste) => on_auto_paste(f, paste),
            StopEvent::Pasted(r) => on_pasted(f, res_text(r)),
            StopEvent::Copied(ok) => on_copied(f, ok),
        }
    }
}


type StepResult = (StopFlow<String>, Vec<FlowAction<String>>);

fn set_phase(f: StopFlow<String>, p: StopPhase) -> (r: StopFlow<String>)
    ensures
        r@ == with_phase(f@, p),
{
    StopFlow {
        phase: p,
        intent: f.intent,
        engine: f.engine,
        model: f.model,
        ai_enabled: f.ai_enabled,
        attempt: f.attempt,
        transcript: f.transcript,
        final_text: f.final_text,
    }
}

/// A stop flow that has not begun, for a stop with the given intent.
pub open spec fn new_stop_flow(intent: StopRecordingIntent) -> StopFlow<Seq<char>> {
    StopFlow {
        phase: StopPhase::Begin,
        intent,
        engine: EngineKind::Whisper,
        model: Seq::<char>::empty(),
        ai_enabled: false,
        attempt: 0u32,
        transcript: Seq::<char>::empty(),
        final_text: Seq::<char>::empty(),
    }
}

impl StopFlow<String> {
    /// A stop flow that has not begun, for a stop with the given intent.
    pub fn new(intent: StopRecordingIntent) -> (r: Self)
        ensures
            r@ == new_stop_flow(intent),
    {
        StopFlow {
            phase: StopPhase::Begin,
            intent,
            engine: EngineKind::Whisper,
            model: String::new(),
            ai_enabled: false,
            attempt: 0,
            transcript: String::new(),
            final_text: String::new(),
        }
    }
}

fn requested_step(f: StopFlow<String>, already: bool, entry: RecordingState, active: bool) -> (r: StepResult)
    ensures
        r.0@ == on_requested(f@, already, entry, active).0,
        actions_view(r.1@) == on_requested(f@, already, entry, active).1,
{
    let mut v: Vec<FlowAction<String>> = Vec::new();
    if already {
        v.push(ok_action());
        return (set_phase(f, StopPhase::Done), v);
    }
    v.push(FlowAction::WriteState(RecordingState::Stopping, None));
    if !active {
        if stop_should_reset_to_idle(entry) {
            v.push(idle_action());
        }
        v.push(ok_action());
        (set_phase(f, StopPhase::Done), v)
    } else {
        v.push(FlowAction::StopRecorder);
        (set_phase(f, StopPhase::AwaitRecorder), v)
    }
}

fn recorder_stopped_step(f: StopFlow<String>, errored: bool, cancel: bool, present: bool) -> (r: StepResult)
    ensures
        r.0@ == on_recorder_stopped(f@, errored, cancel, present).0,
        actions_view(r.1@) == on_recorder_stopped(f@, errored, cancel, present).1,
{
    let mut v: Vec<FlowAction<String>> = Vec::new();
    v.push(FlowAction::DisarmEscape);
    if errored {
        v.push(FlowAction::Toast(lit("Recording error"), 1500));
        v.push(FlowAction::HidePill);
        v.push(idle_action());
        v.push(ok_action());
        (set_phase(f, StopPhase::Done), v)
    } else if cancel {
        v.push(FlowAction::Delete(FlowFile::Capture));
        v.push(FlowAction::HidePill);
        v.push(idle_action());
        v.push(ok_action());
        (set_phase(f, StopPhase::Done), v)
    } else if !present {
        v.push(idle_action());
        v.push(ok_action());
        (set_phase(f, StopPhase::Done), v)
    } else {
        v.push(FlowAction::CheckCapture);
        (set_phase(f, StopPhase::AwaitCapture), v)
    }
}

fn capture_size_step(f: StopFlow<String>, size: Option<u64>) -> (r: StepResult)
    ensures
        r.0@ == on_capture_size(f@, size).0,
        actions_view(r.1@) == on_capture_size(f@, size).1,
{
    let mut v: Vec<FlowAction<String>> = Vec::new();
    let empty = match size {
        Some(n) => !wav_has_samples(n),
        None => false,
    };
    if empty {
        v.push(FlowAction::Toast(lit("No audio captured"), 1000));
        v.push(FlowAction::Delete(FlowFile::Capture));
        v.push(idle_action());
        v.push(ok_action());
        (set_phase(f, StopPhase::Done), v)
    } else {
        v.push(FlowAction::LoadEngineFacts);
        (set_phase(f, StopPhase::AwaitEngineFacts), v)
    }
}

fn abort_step(f: StopFlow<String>, m: MissingModel) -> (r: StepResult)
    ensures
        r.0@ == stop_abort(f@, m.log_message@, m.user_message@).0,
        actions_view(r.1@) == stop_abort(f@, m.log_message@, m.user_message@).1,
{
    let mut v: Vec<FlowAction<String>> = Vec::new();
    v.push(FlowAction::WriteState(RecordingState::Error, Some(lit(m.user_message))));
    v.push(FlowAction::Delete(FlowFile::Capture));
    v.push(FlowAction::Toast(lit(m.user_message), 2000));
    v.push(FlowAction::NoModels(lit(m.user_message)));
    v.push(FlowAction::HidePill);
    v.push(idle_action());
    v.push(FlowAction::ReturnErr(lit(m.log_message)));
    (set_phase(f, StopPhase::Done), v)
}

fn set_choice(f: StopFlow<String>, p: StopPhase, engine: EngineKind, model: String, ai: bool) -> (r: StopFlow<String>)
    ensures
        r@ == chosen(f@, p, engine, model@, ai),
{
    StopFlow {
        phase: p,
        intent: f.intent,
        engine,
        model,
        ai_enabled: ai,
        attempt: f.attempt,
        transcript: f.transcript,
        final_text: f.final_text,
    }
}

fn engine_step(f: StopFlow<String>, facts: EngineFacts) -> (r: StepResult)
    ensures
        r.0@ == on_engine_facts(f@, facts).0,
        actions_view(r.1@) == on_engine_facts(f@, facts).1,
{
    let mut v: Vec<FlowAction<String>> = Vec::new();
    if str_eq(facts.engine.as_str(), "parakeet") {
        match parakeet_model(facts.model.as_str(), facts.parakeet_listed) {
            Err(m) => abort_step(f, m),
            Ok(name) => {
                v.push(FlowAction::Normalize);
                (set_choice(f, StopPhase::AwaitNormalized, EngineKind::Parakeet, name, facts.ai_enabled), v)
            },
        }
    } else if str_eq(facts.engine.as_str(), "soniox") {
        match soniox_model(facts.model.as_str(), facts.soniox_token) {
            Err(m) => abort_step(f, m),
            Ok(name) => {
                v.push(FlowAction::StartTranscription);
                v.push(ok_action());
                (set_choice(f, StopPhase::AwaitTaskStart, EngineKind::Soniox, name, facts.ai_enabled), v)
            },
        }
    } else {
        match whisper_model_choice(facts.downloaded.as_slice(), facts.model.as_str(), facts.priority.as_slice()) {
            Err(m) => abort_step(f, m),
            Ok((name, fell_back)) => {
                if fell_back {
                    v.push(FlowAction::ModelFallback(facts.model, name.clone()));
                }
                v.push(FlowAction::LookupModelPath(name.clone()));
                (set_choice(f, StopPhase::AwaitModelPath, EngineKind::Whisper, name, facts.ai_enabled), v)
            },
        }
    }
}

fn model_path_step(f: StopFlow<String>, found: bool) -> (r: StepResult)
    ensures
        r.0@ == on_model_path(f@, found).0,
        actions_view(r.1@) == on_model_path(f@, found).1,
{
    let mut v: Vec<FlowAction<String>> = Vec::new();
    if found {
        v.push(FlowAction::Normalize);
        (set_phase(f, StopPhase::AwaitNormalized), v)
    } else {
        v.push(FlowAction::ReturnErr(concat3("Model '", f.model.as_str(), "' path not found")));
        (set_phase(f, StopPhase::Done), v)
    }
}

fn normalized_step(f: StopFlow<String>, ok: bool) -> (r: StepResult)
    ensures
        r.0@ == on_normalized(f@, ok).0,
        actions_view(r.1@) == on_normalized(f@, ok).1,
{
    let mut v: Vec<FlowAction<String>> = Vec::new();
    if ok {
        v.push(FlowAction::Delete(FlowFile::Capture));
        v.push(FlowAction::Inspect);
        (set_phase(f, StopPhase::AwaitInspection), v)
    } else {
        v.push(FlowAction::WriteState(RecordingState::Error, Some(lit("Audio normalization failed"))));
        v.push(FlowAction::Delete(FlowFile::Capture));
        v.push(FlowAction::ReturnErr(lit("Audio normalization failed")));
        (set_phase(f, StopPhase::Done), v)
    }
}

fn inspected_step(f: StopFlow<String>, r0: Result<(bool, bool), String>) -> (r: StepResult)
    ensures
        r.0@ == on_inspected(f@, inspection_view(r0)).0,
        actions_view(r.1@) == on_inspected(f@, inspection_view(r0)).1,
{
    let mut v: Vec<FlowAction<String>> = Vec::new();
    match r0 {
        Err(msg) => {
            v.push(FlowAction::WriteState(RecordingState::Error, Some(lit("Audio inspection failed"))));
            v.push(FlowAction::Delete(FlowFile::Normalized));
            v.push(FlowAction::ReturnErr(msg));
            (set_phase(f, StopPhase::Done), v)
        },
        Ok((too_short, silence)) => {
            if too_short {
                v.push(FlowAction::TooShort(lit("Recording shorter than 0.5 seconds")));
                v.push(FlowAction::Delete(FlowFile::Normalized));
                v.push(idle_action());
                v.push(ok_action());
                (set_phase(f, StopPhase::Done), v)
            } else if silence && should_discard_likely_silence(f.intent) {
                v.push(FlowAction::Toast(lit("No speech detected"), 1500));
                v.push(FlowAction::Signal(FlowSignal::NoSpeech));
                v.push(FlowAction::Delete(FlowFile::Normalized));
                v.push(idle_action());
                v.push(ok_action());
                (set_phase(f, StopPhase::Done), v)
            } else {
                v.push(FlowAction::StartTranscription);
                v.push(ok_action());
                (set_phase(f, StopPhase::AwaitTaskStart), v)
            }
        },
    }
}

fn task_started_step(f: StopFlow<String>, cancel: bool) -> (r: StepResult)
    ensures
        r.0@ == on_task_started(f@, cancel).0,
        actions_view(r.1@) == on_task_started(f@, cancel).1,
{
    let mut v: Vec<FlowAction<String>> = Vec::new();
    v.push(FlowAction::WriteState(RecordingState::Transcribing, None));
    v.push(FlowAction::Signal(FlowSignal::TranscriptionStarted));
    if cancel {
        v.push(FlowAction::HidePill);
        v.push(idle_action());
        (set_phase(f, StopPhase::Done), v)
    } else {
        v.push(FlowAction::Transcribe(1));
        (
            StopFlow {
                phase: StopPhase::AwaitTranscript,
                intent: f.intent,
                engine: f.engine,
                model: f.model,
                ai_enabled: f.ai_enabled,
                attempt: 1,
                transcript: f.transcript,
                final_text: f.final_text,
            },
            v,
        )
    }
}

fn failure_step(f: StopFlow<String>, e: String) -> (r: StepResult)
    ensures
        r.0@ == on_failure(f@, e@).0,
        actions_view(r.1@) == on_failure(f@, e@).1,
{
    let kind = transcription_failure(e.as_str());
    let mut v: Vec<FlowAction<String>> = Vec::new();
    v.push(FlowAction::Delete(FlowFile::Transcribed));
    match kind {
        TranscriptionFailure::Cancelled => {
            v.push(FlowAction::HidePill);
            v.push(idle_action());
        },
        TranscriptionFailure::TooShort => {
            v.push(FlowAction::Delete(FlowFile::Transcribed));
            v.push(FlowAction::Toast(e, 1000));
            v.push(FlowAction::Wait(2500));
            v.push(FlowAction::HidePill);
            v.push(idle_action());
        },
        TranscriptionFailure::Failed(t) => {
            v.push(FlowAction::WriteState(RecordingState::Error, Some(e)));
            v.push(FlowAction::Toast(lit(t.message()), 1500));
            v.push(FlowAction::Wait(2000));
            v.push(FlowAction::HidePill);
            v.push(idle_action());
        },
    }
    (set_phase(f, StopPhase::Done), v)
}

fn deliver_step(f: StopFlow<String>, text: String, pre: Vec<FlowAction<String>>) -> (r: StepResult)
    ensures
        r.0@ == deliver(f@, text@, actions_view(pre@)).0,
        actions_view(r.1@) == deliver(f@, text@, actions_view(pre@)).1,
{
    let mut v = pre;
    v.push(FlowAction::HidePill);
    v.push(FlowAction::Wait(50));
    v.push(FlowAction::ReadAutoPaste);
    (
        StopFlow {
            phase: StopPhase::AwaitAutoPaste,
            intent: f.intent,
            engine: f.engine,
            model: f.model,
            ai_enabled: f.ai_enabled,
            attempt: f.attempt,
            transcript: f.transcript,
            final_text: text,
        },
        v,
    )
}

fn transcribed_step(f: StopFlow<String>, result: Result<String, String>, cancel: bool) -> (r: StepResult)
    ensures
        r.0@ == on_transcribed(f@, text_result(result), cancel).0,
        actions_view(r.1@) == on_transcribed(f@, text_result(result), cancel).1,
{
    let mut v: Vec<FlowAction<String>> = Vec::new();
    match result {
        Err(e) => {
            if f.engine == EngineKind::Whisper && should_retry_transcription(
                f.attempt,
                MAX_TRANSCRIPTION_ATTEMPTS,
                e.as_str(),
            ) {
                let next = f.attempt + 1;
                v.push(FlowAction::Wait(500));
                v.push(FlowAction::Transcribe(next));
                (
                    StopFlow {
                        phase: StopPhase::AwaitTranscript,
                        intent: f.intent,
                        engine: f.engine,
                        model: f.model,
                        ai_enabled: f.ai_enabled,
                        attempt: next,
                        transcript: f.transcript,
                        final_text: f.final_text,
                    },
                    v,
                )
            } else {
                failure_step(f, e)
            }
        },
        Ok(t) => {
            v.push(FlowAction::Delete(FlowFile::Transcribed));
            if cancel {
                v.push(FlowAction::HidePill);
                v.push(idle_action());
                (set_phase(f, StopPhase::Done), v)
            } else if is_blank_transcript(t.as_str()) {
                v.push(FlowAction::Toast(lit("No speech detected"), 1500));
                v.push(FlowAction::Wait(2500));
                v.push(FlowAction::HidePill);
                v.push(idle_action());
                (set_phase(f, StopPhase::Done), v)
            } else if f.ai_enabled {
                v.push(FlowAction::Signal(FlowSignal::EnhancingStarted));
                v.push(FlowAction::Enhance(t.clone()));
                (
                    StopFlow {
                        phase: StopPhase::AwaitEnhanced,
                        intent: f.intent,
                        engine: f.engine,
                        model: f.model,
                        ai_enabled: f.ai_enabled,
                        attempt: f.attempt,
                        transcript: t,
                        final_text: f.final_text,
                    },
                    v,
                )
            } else {
                let g = StopFlow {
                    phase: f.phase,
                    intent: f.intent,
                    engine: f.engine,
                    model: f.model,
                    ai_enabled: f.ai_enabled,
                    attempt: f.attempt,
                    transcript: t.clone(),
                    final_text: f.final_text,
                };
                deliver_step(g, t, v)
            }
        },
    }
}

fn enhanced_step(f: StopFlow<String>, result: Result<String, String>) -> (r: StepResult)
    ensures
        r.0@ == on_enhanced(f@, text_result(result)).0,
        actions_view(r.1@) == on_enhanced(f@, text_result(result)).1,
{
    let mut v: Vec<FlowAction<String>> = Vec::new();
    match result {
        Ok(t) => {
            v.push(FlowAction::Signal(FlowSignal::EnhancingCompleted));
            deliver_step(f, t, v)
        },
        Err(e) => {
            let (msg, auth) = formatting_failure(e.as_str());
            v.push(FlowAction::Signal(FlowSignal::EnhancingFailed));
            v.push(FlowAction::Toast(lit(msg), 1500));
            if auth {
                v.push(FlowAction::Signal(FlowSignal::AuthErrorNotice));
            }
            let text = f.transcript.clone();
            deliver_step(f, text, v)
        },
    }
}

fn auto_paste_step(f: StopFlow<String>, paste: bool) -> (r: StepResult)
    ensures
        r.0@ == on_auto_paste(f@, paste).0,
        actions_view(r.1@) == on_auto_paste(f@, paste).1,
{
    let mut v: Vec<FlowAction<String>> = Vec::new();
    if paste {
        v.push(FlowAction::PasteText(f.final_text.clone()));
    } else {
        v.push(FlowAction::CopyText(f.final_text.clone()));
    }
    (set_phase(f, StopPhase::AwaitDelivery), v)
}

fn finish_step(f: StopFlow<String>, pre: Vec<FlowAction<String>>) -> (r: StepResult)
    ensures
        r.0@ == finish(f@, actions_view(pre@)).0,
        actions_view(r.1@) == finish(f@, actions_view(pre@)).1,
{
    let mut v = pre;
    v.push(FlowAction::SaveHistory(f.final_text.clone(), f.model.clone()));
    v.push(idle_action());
    (set_phase(f, StopPhase::Done), v)
}

/// The toast of a failed paste.
fn paste_failure_message(e: &str) -> (r: &'static str)
    ensures
        r@ == paste_failure_text(e@),
{
    let c = chars_of(e);
    if contains_chars(&c, &chars_of("accessibility")) || contains_chars(&c, &chars_of("permission")) {
        "Text copied - grant permission to auto-paste"
    } else {
        "Paste failed - text in clipboard"
    }
}

fn delivered_step(f: StopFlow<String>, pasted: Option<Result<(), String>>, copied: bool) -> (r: StepResult)
    ensures
        pasted is Some ==> r.0@ == on_pasted(f@, res_text(pasted->0)).0 && actions_view(r.1@) == on_pasted(
            f@,
            res_text(pasted->0),
        ).1,
        pasted is None ==> r.0@ == on_copied(f@, copied).0 && actions_view(r.1@) == on_copied(f@, copied).1,
{
    let mut v: Vec<FlowAction<String>> = Vec::new();
    match pasted {
        Some(Ok(())) => {},
        Some(Err(msg)) => {
            v.push(FlowAction::Toast(lit(paste_failure_message(msg.as_str())), 1500));
        },
        None => {
            if copied {
                v.push(FlowAction::Toast(lit("Transcription copied"), 1500));
            } else {
                v.push(FlowAction::Toast(lit("Copy failed"), 1500));
            }
        },
    }
    finish_step(f, v)
}

fn stop_phase_of(e: &StopEvent) -> (p: StopPhase)
    ensures
        p == stop_phase_for(*e),
{
    match e {
        StopEvent::Requested { .. } => StopPhase::Begin,
        StopEvent::RecorderStopped { .. } => StopPhase::AwaitRecorder,
        StopEvent::CaptureSize(_) => StopPhase::AwaitCapture,
        StopEvent::ConfigFailed(_) => StopPhase::AwaitEngineFacts,
        StopEvent::Engine(_) => StopPhase::AwaitEngineFacts,
        StopEvent::ModelPathFound(_) => StopPhase::AwaitModelPath,
        StopEvent::Normalized(_) => StopPhase::AwaitNormalized,
        StopEvent::Inspected(_) => StopPhase::AwaitInspection,
        StopEvent::TaskStarted { .. } => StopPhase::AwaitTaskStart,
        StopEvent::AttemptCancelled => StopPhase::AwaitTranscript,
        StopEvent::ModelLoadFailed(_) => StopPhase::AwaitTranscript,
        StopEvent::Transcribed { .. } => StopPhase::AwaitTranscript,
        StopEvent::Enhanced(_) => StopPhase::AwaitEnhanced,
        StopEvent::AutoPaste(_) => StopPhase::AwaitAutoPaste,
        StopEvent::Pasted(_) => StopPhase::AwaitDelivery,
        StopEvent::Copied(_) => StopPhase::AwaitDelivery,
    }
}

/// One step of the stop command: the next state of the flow and the
/// actions to perform, for what the last action found out.
pub fn stop_step(flow: StopFlow<String>, event: StopEvent) -> (r: (StopFlow<String>, Vec<FlowAction<String>>))
    ensures
        r.0@ == stop_step_spec(flow@, event).0,
        actions_view(r.1@) == stop_step_spec(flow@, event).1,
{
    if flow.phase != stop_phase_of(&event) {
        return (flow, Vec::new());
    }
    match event {
        StopEvent::Requested { already_in_flight, entry_state, recorder_active } => requested_step(
            flow,
            already_in_flight,
            entry_state,
            recorder_active,
        ),
        StopEvent::RecorderStopped { errored, cancel_requested, capture_present } => recorder_stopped_step(
            flow,
            errored,
            cancel_requested,
            capture_present,
        ),
        StopEvent::CaptureSize(size) => capture_size_step(flow, size),
        StopEvent::ConfigFailed(msg) => {
            let mut v: Vec<FlowAction<String>> = Vec::new();
            v.push(FlowAction::ReturnErr(concat2("Configuration error: ", msg.as_str())));
            (set_phase(flow, StopPhase::Done), v)
        },
        StopEvent::Engine(facts) => engine_step(flow, facts),
        StopEvent::ModelPathFound(found) => model_path_step(flow, found),
        StopEvent::Normalized(ok) => normalized_step(flow, ok),
        StopEvent::Inspected(r0) => inspected_step(flow, r0),
        StopEvent::TaskStarted { cancel_requested } => task_started_step(flow, cancel_requested),
        StopEvent::AttemptCancelled => failure_step(flow, lit("Transcription cancelled")),
        StopEvent::ModelLoadFailed(msg) => {
            let text = concat2("Parakeet model load failed: ", msg.as_str());
            let mut v: Vec<FlowAction<String>> = Vec::new();
            v.push(FlowAction::WriteState(RecordingState::Error, Some(text.clone())));
            v.push(FlowAction::Toast(text, 1500));
            (set_phase(flow, StopPhase::Done), v)
        },
        StopEvent::Transcribed { result, cancel_requested } => transcribed_step(flow, result, cancel_requested),
        StopEvent::Enhanced(result) => enhanced_step(flow, result),
        StopEvent::AutoPaste(paste) => auto_paste_step(flow, paste),
        StopEvent::Pasted(r0) => delivered_step(flow, Some(r0), false),
        StopEvent::Copied(ok) => delivered_step(flow, None, ok),
    }
}


// ---------------------------------------------------------------------------
// Starting
// ---------------------------------------------------------------------------

/// Where a start flow stands: which report it waits for.
#[derive(Debug, Clone, Copy, PartialEq, Eq, Structural)]
pub enum StartPhase {
    Begin,
    AwaitValidation,
    AwaitStateRead,
    AwaitPrepared,
    AwaitRecordingFile,
    AwaitRecorder,
    AwaitPttCheck,
    AwaitAbortStop,
    AwaitPendingStop,
    Done,
}

/// A start flow: its phase, whether it paused media, and whether the pill
/// is shown once recording runs.
#[derive(Debug, Clone, Copy, PartialEq, Eq, Structural)]
pub struct StartFlow {
    pub phase: StartPhase,
    pub media_paused: bool,
    pub show_pill: bool,
}

/// How the recorder answered the request to start.
pub enum RecorderStart {
    /// It records.
    Recording,
    /// It was recording already.
    AlreadyRecording,
    /// It accepted the request but does not record.
    NotRecording,
    /// It failed with this error.
    Failed(String),
    /// The request could not be made (lock or path), with this error.
    Refused(String),
}

/// What the code around a start flow reports.
pub enum StartEvent {
    /// The command was called in this state.
    Requested { state: RecordingState },
    /// The recording requirements were checked; whether a CPU transcription
    /// is still stopping, and whether the push-to-talk key is up again.
    Validated { result: Result<(), String>, cpu_decode_in_flight: bool, ptt_released: bool },
    /// The state read back after writing `Starting`.
    StateRead(RecordingState),
    /// Whether media was paused, and the configuration (whether the pill
    /// widget is on, and the pill indicator mode) or why it failed to load.
    Prepared { media_paused: bool, config: Result<(bool, String), String> },
    /// The start time in seconds since the epoch, or why the recordings
    /// directory or the clock failed.
    RecordingFile(Result<u64, String>),
    /// The recorder answered.
    RecorderStarted(RecorderStart),
    /// Whether the push-to-talk key is up again.
    PttChecked { released: bool },
    /// The recorder was stopped after an early key release.
    AbortStopped(Result<(), String>),
    /// Whether a stop was requested while starting.
    PendingStop(bool),
}

/// The phase in which a start flow waits for an event.
pub open spec fn start_phase_for(e: StartEvent) -> StartPhase {
    match e {
        StartEvent::Requested { .. } => StartPhase::Begin,
        StartEvent::Validated { .. } => StartPhase::AwaitValidation,
        StartEvent::StateRead(_) => StartPhase::AwaitStateRead,
        StartEvent::Prepared { .. } => StartPhase::AwaitPrepared,
        StartEvent::RecordingFile(_) => StartPhase::AwaitRecordingFile,
        StartEvent::RecorderStarted(_) => StartPhase::AwaitRecorder,
        StartEvent::PttChecked { .. } => StartPhase::AwaitPttCheck,
        StartEvent::AbortStopped(_) => StartPhase::AwaitAbortStop,
        StartEvent::PendingStop(_) => StartPhase::AwaitPendingStop,
    }
}

/// The start flow moved to phase `p`.
pub open spec fn start_with(f: StartFlow, p: StartPhase) -> StartFlow {
    StartFlow { phase: p, media_paused: f.media_paused, show_pill: f.show_pill }
}

/// Resuming media, where the flow paused it.
pub open spec fn resume_if_paused(f: StartFlow) -> Seq<FlowAction<Seq<char>>> {
    if f.media_paused {
        seq![FlowAction::ResumeMedia]
    } else {
        seq![]
    }
}

/// The toast of a recorder that failed to start.
pub open spec fn start_failure_text(e: Seq<char>) -> Seq<char> {
    if contains_seq(e, "permission"@) || contains_seq(e, "access"@) {
        "Microphone permission denied"@
    } else if contains_seq(e, "device"@) || contains_seq(e, "not found"@) {
        "No microphone found"@
    } else if contains_seq(e, "in use"@) || contains_seq(e, "busy"@) {
        "Microphone busy"@
    } else {
        "Recording failed"@
    }
}

/// What a start does when the command is called: an error state is cleared
/// first.
pub open spec fn on_start_requested(f: StartFlow, state: RecordingState) -> (StartFlow, Seq<FlowAction<Seq<char>>>) {
    (
        start_with(f, StartPhase::AwaitValidation),
        if state == RecordingState::Error {
            seq![FlowAction::WriteState(RecordingState::Idle, Some("recover"@)), FlowAction::Validate]
        } else {
            seq![FlowAction::Validate]
        },
    )
}

/// What a start does once the requirements were checked.
pub open spec fn on_validated(f: StartFlow, result: Result<(), Seq<char>>, cpu_decode_in_flight: bool, ptt_released: bool) -> (
    StartFlow,
    Seq<FlowAction<Seq<char>>>,
) {
    let done = start_with(f, StartPhase::Done);
    match result {
        Err(msg) => (done, seq![FlowAction::ReturnErr(msg)]),
        Ok(()) => if cpu_decode_in_flight {
            (done, seq![FlowAction::ReturnErr(PREVIOUS_TRANSCRIPTION_STOPPING@)])
        } else if ptt_released {
            (done, seq![FlowAction::ReturnErr(PTT_START_ABORTED_AFTER_RELEASE@)])
        } else {
            (
                start_with(f, StartPhase::AwaitStateRead),
                seq![FlowAction::WriteState(RecordingState::Starting, None), FlowAction::ReadState],
            )
        },
    }
}

/// What a start does with the state read back.
pub open spec fn on_state_read(f: StartFlow, state: RecordingState) -> (StartFlow, Seq<FlowAction<Seq<char>>>) {
    if state != RecordingState::Starting {
        (start_with(f, StartPhase::Done), seq![FlowAction::ReturnErr("Cannot start recording in current state"@)])
    } else {
        (start_with(f, StartPhase::AwaitPrepared), seq![FlowAction::PrepareCapture])
    }
}

/// The configuration by the characters of its texts.
pub open spec fn config_view(c: Result<(bool, String), String>) -> Result<(bool, Seq<char>), Seq<char>> {
    match c {
        Ok((show, mode)) => Ok((show, mode@)),
        Err(msg) => Err(msg@),
    }
}

/// What a start does once the capture is prepared: the pill is shown unless
/// the widget is off or its mode is "never".
pub open spec fn on_prepared(f: StartFlow, media_paused: bool, config: Result<(bool, Seq<char>), Seq<char>>) -> (
    StartFlow,
    Seq<FlowAction<Seq<char>>>,
) {
    let g = StartFlow { phase: f.phase, media_paused, show_pill: f.show_pill };
    match config {
        Err(msg) => (
            start_with(g, StartPhase::Done),
            resume_if_paused(g) + seq![FlowAction::ReturnErr("Configuration error: "@ + msg)],
        ),
        Ok((show, mode)) => (
            StartFlow { phase: StartPhase::AwaitRecordingFile, media_paused, show_pill: show && mode != "never"@ },
            seq![FlowAction::PrepareRecordingFile],
        ),
    }
}

/// What a start does once the file name's time is known.
pub open spec fn on_recording_file(f: StartFlow, r: Result<u64, Seq<char>>) -> (StartFlow, Seq<FlowAction<Seq<char>>>) {
    match r {
        Err(msg) => (start_with(f, StartPhase::Done), resume_if_paused(f) + seq![FlowAction::ReturnErr(msg)]),
        Ok(ts) => (
            start_with(f, StartPhase::AwaitRecorder),
            seq![
                FlowAction::ClearPendingStop,
                FlowAction::SetRecordingFile("recording_"@ + decimal(ts as nat) + ".wav"@),
                FlowAction::StartRecorder,
            ],
        ),
    }
}

/// What a start does with the recorder's answer.
pub open spec fn on_recorder_started(f: StartFlow, st: RecorderStart) -> (StartFlow, Seq<FlowAction<Seq<char>>>) {
    let done = start_with(f, StartPhase::Done);
    match st {
        RecorderStart::Recording => (
            start_with(f, StartPhase::AwaitPttCheck),
            seq![FlowAction::ListenToRecorder, FlowAction::ClearCancellation, FlowAction::CheckPtt],
        ),
        RecorderStart::AlreadyRecording => (done, resume_if_paused(f) + seq![FlowAction::ReturnErr("Already recording"@)]),
        RecorderStart::NotRecording => (
            done,
            seq![
                FlowAction::WriteState(RecordingState::Error, Some("Microphone initialization failed"@)),
                FlowAction::Toast("Microphone access failed"@, 1500),
            ] + resume_if_paused(f) + seq![FlowAction::ReturnErr("Failed to start recording"@)],
        ),
        RecorderStart::Failed(msg) => (
            done,
            seq![
                FlowAction::WriteState(RecordingState::Error, Some(msg@)),
                FlowAction::Toast(start_failure_text(msg@), 1500),
            ] + resume_if_paused(f) + seq![FlowAction::ReturnErr(msg@)],
        ),
        RecorderStart::Refused(msg) => (done, resume_if_paused(f) + seq![FlowAction::ReturnErr(msg@)]),
    }
}

/// What a start does once it knows whether the push-to-talk key is up again.
pub open spec fn on_ptt_checked(f: StartFlow, released: bool) -> (StartFlow, Seq<FlowAction<Seq<char>>>) {
    if released {
        (start_with(f, StartPhase::AwaitAbortStop), seq![FlowAction::StopRecorderQuietly])
    } else {
        (
            start_with(f, StartPhase::AwaitPendingStop),
            seq![FlowAction::WriteState(RecordingState::Recording, None), FlowAction::TakePendingStop],
        )
    }
}

/// What a start does once the recorder was stopped after an early key
/// release.
pub open spec fn on_abort_stopped(f: StartFlow, r: Result<(), Seq<char>>) -> (StartFlow, Seq<FlowAction<Seq<char>>>) {
    (
        start_with(f, StartPhase::Done),
        seq![FlowAction::ClearPendingStop, FlowAction::ResumeMedia, FlowAction::Delete(FlowFile::Capture)]
            + match r {
            Err(msg) => seq![FlowAction::ReturnErr(msg)],
            Ok(()) => seq![idle(), FlowAction::ReturnErr(PTT_START_ABORTED_AFTER_RELEASE@)],
        },
    )
}

/// What a start does once it knows whether a stop was asked for while
/// starting.
pub open spec fn on_pending_stop(f: StartFlow, pending: bool) -> (StartFlow, Seq<FlowAction<Seq<char>>>) {
    (
        start_with(f, StartPhase::Done),
        (if pending {
            seq![FlowAction::RequestStop]
        } else {
            seq![]
        }) + (if f.show_pill {
            seq![FlowAction::ShowPill]
        } else {
            seq![]
        }) + seq![FlowAction::Signal(FlowSignal::RecordingStarted), FlowAction::ArmEscape, ret_ok()],
    )
}

/// One step of a start flow. An event that the phase does not wait for
/// changes nothing.
pub open spec fn start_step_spec(f: StartFlow, e: StartEvent) -> (StartFlow, Seq<FlowAction<Seq<char>>>) {
    if f.phase != start_phase_for(e) {
        (f, Seq::empty())
    } else {
        match e {
            StartEvent::Requested { state } => on_start_requested(f, state),
            StartEvent::Validated { result, cpu_decode_in_flight, ptt_released } => on_validated(
                f,
                res_text(result),
                cpu_decode_in_flight,
                ptt_released,
            ),
            StartEvent::StateRead(state) => on_state_read(f, state),
            StartEvent::Prepared { media_paused, config } => on_prepared(f, media_paused, config_view(config)),
            StartEvent::RecordingFile(r) => on_recording_file(
                f,
                match r {
                    Ok(ts) => Ok(ts),
                    Err(msg) => Err(msg@),
                },
            ),
            StartEvent::RecorderStarted(st) => on_recorder_started(f, st),
            StartEvent::PttChecked { released } => on_ptt_checked(f, released),
            StartEvent::AbortStopped(r) => on_abort_stopped(f, res_text(r)),
            StartEvent::PendingStop(pending) => on_pending_stop(f, pending),
        }
    }
}

/// A start flow that has not begun.
pub open spec fn new_start_flow() -> StartFlow {
    StartFlow { phase: StartPhase::Begin, media_paused: false, show_pill: false }
}

impl StartFlow {
    /// A start flow that has not begun.
    pub fn new() -> (r: Self)
        ensures
            r == new_start_flow(),
    {
        StartFlow { phase: StartPhase::Begin, media_paused: false, show_pill: false }
    }
}

fn push_resume(v: &mut Vec<FlowAction<String>>, f: StartFlow)
    ensures
        actions_view(final(v)@) == actions_view(old(v)@) + resume_if_paused(f),
{
    if f.media_paused {
        v.push(FlowAction::ResumeMedia);
    }
}

fn start_phase_of(e: &StartEvent) -> (p: StartPhase)
    ensures
        p == start_phase_for(*e),
{
    match e {
        StartEvent::Requested { .. } => StartPhase::Begin,
        StartEvent::Validated { .. } => StartPhase::AwaitValidation,
        StartEvent::StateRead(_) => StartPhase::AwaitStateRead,
        StartEvent::Prepared { .. } => StartPhase::AwaitPrepared,
        StartEvent::RecordingFile(_) => StartPhase::AwaitRecordingFile,
        StartEvent::RecorderStarted(_) => StartPhase::AwaitRecorder,
        StartEvent::PttChecked { .. } => StartPhase::AwaitPttCheck,
        StartEvent::AbortStopped(_) => StartPhase::AwaitAbortStop,
        StartEvent::PendingStop(_) => StartPhase::AwaitPendingStop,
    }
}

fn validated_step(f: StartFlow, result: Result<(), String>, cpu: bool, ptt: bool) -> (r: (StartFlow, Vec<FlowAction<String>>))
    ensures
        r.0 == on_validated(f, res_text(result), cpu, ptt).0,
        actions_view(r.1@) == on_validated(f, res_text(result), cpu, ptt).1,
{
    let mut v: Vec<FlowAction<String>> = Vec::new();
    let done = StartFlow { phase: StartPhase::Done, media_paused: f.media_paused, show_pill: f.show_pill };
    match result {
        Err(msg) => {
            v.push(FlowAction::ReturnErr(msg));
            (done, v)
        },
        Ok(()) => match start_blocked_reason(cpu, ptt) {
            Some(reason) => {
                v.push(FlowAction::ReturnErr(lit(reason)));
                (done, v)
            },
            None => {
                v.push(FlowAction::WriteState(RecordingState::Starting, None));
                v.push(FlowAction::ReadState);
                (StartFlow { phase: StartPhase::AwaitStateRead, media_paused: f.media_paused, show_pill: f.show_pill }, v)
            },
        },
    }
}

fn prepared_step(f: StartFlow, media_paused: bool, config: Result<(bool, String), String>) -> (r: (StartFlow, Vec<FlowAction<String>>))
    ensures
        r.0 == on_prepared(f, media_paused, config_view(config)).0,
        actions_view(r.1@) == on_prepared(f, media_paused, config_view(config)).1,
{
    let mut v: Vec<FlowAction<String>> = Vec::new();
    let g = StartFlow { phase: f.phase, media_paused, show_pill: f.show_pill };
    match config {
        Err(msg) => {
            push_resume(&mut v, g);
            v.push(FlowAction::ReturnErr(concat2("Configuration error: ", msg.as_str())));
            (StartFlow { phase: StartPhase::Done, media_paused, show_pill: f.show_pill }, v)
        },
        Ok((show, mode)) => {
            v.push(FlowAction::PrepareRecordingFile);
            let show_pill = show && !str_eq(mode.as_str(), "never");
            (StartFlow { phase: StartPhase::AwaitRecordingFile, media_paused, show_pill }, v)
        },
    }
}

/// `v`, then resuming media where the flow paused it, then the error reply.
fn refuse(v: Vec<FlowAction<String>>, f: StartFlow, err: String) -> (r: Vec<FlowAction<String>>)
    ensures
        actions_view(r@) == actions_view(v@) + resume_if_paused(f) + seq![FlowAction::ReturnErr(err@)],
{
    let mut w = v;
    push_resume(&mut w, f);
    let ghost mid = actions_view(w@);
    w.push(FlowAction::ReturnErr(err));
    assert(actions_view(w@) =~= mid + seq![FlowAction::ReturnErr(err@)]);
    w
}

fn recorder_started_step(f: StartFlow, st: RecorderStart) -> (r: (StartFlow, Vec<FlowAction<String>>))
    ensures
        r.0 == on_recorder_started(f, st).0,
        actions_view(r.1@) == on_recorder_started(f, st).1,
{
    let mut v: Vec<FlowAction<String>> = Vec::new();
    let done = StartFlow { phase: StartPhase::Done, media_paused: f.media_paused, show_pill: f.show_pill };
    match st {
        RecorderStart::Recording => {
            v.push(FlowAction::ListenToRecorder);
            v.push(FlowAction::ClearCancellation);
            v.push(FlowAction::CheckPtt);
            (StartFlow { phase: StartPhase::AwaitPttCheck, media_paused: f.media_paused, show_pill: f.show_pill }, v)
        },
        RecorderStart::AlreadyRecording => {
            assert(actions_view(v@) =~= seq![]);
            (done, refuse(v, f, lit("Already recording")))
        },
        RecorderStart::NotRecording => {
            v.push(FlowAction::WriteState(RecordingState::Error, Some(lit("Microphone initialization failed"))));
            v.push(FlowAction::Toast(lit("Microphone access failed"), 1500));
            assert(actions_view(v@) =~= seq![
                FlowAction::WriteState(RecordingState::Error, Some("Microphone initialization failed"@)),
                FlowAction::Toast("Microphone access failed"@, 1500),
            ]);
            (done, refuse(v, f, lit("Failed to start recording")))
        },
        RecorderStart::Failed(msg) => {
            let toast = recording_start_failure_message(msg.as_str());
            v.push(FlowAction::WriteState(RecordingState::Error, Some(msg.clone())));
            v.push(FlowAction::Toast(lit(toast), 1500));
            assert(actions_view(v@) =~= seq![
                FlowAction::WriteState(RecordingState::Error, Some(msg@)),
                FlowAction::Toast(start_failure_text(msg@), 1500),
            ]);
            (done, refuse(v, f, msg))
        },
        RecorderStart::Refused(msg) => {
            assert(actions_view(v@) =~= seq![]);
            (done, refuse(v, f, msg))
        },
    }
}

fn abort_stopped_step(f: StartFlow, r0: Result<(), String>) -> (r: (StartFlow, Vec<FlowAction<String>>))
    ensures
        r.0 == on_abort_stopped(f, res_text(r0)).0,
        actions_view(r.1@) == on_abort_stopped(f, res_text(r0)).1,
{
    let mut v: Vec<FlowAction<String>> = Vec::new();
    v.push(FlowAction::ClearPendingStop);
    v.push(FlowAction::ResumeMedia);
    v.push(FlowAction::Delete(FlowFile::Capture));
    match r0 {
        Err(msg) => {
            v.push(FlowAction::ReturnErr(msg));
        },
        Ok(()) => {
            v.push(idle_action());
            v.push(FlowAction::ReturnErr(lit(PTT_START_ABORTED_AFTER_RELEASE)));
        },
    }
    (StartFlow { phase: StartPhase::Done, media_paused: f.media_paused, show_pill: f.show_pill }, v)
}

fn pending_stop_step(f: StartFlow, pending: bool) -> (r: (StartFlow, Vec<FlowAction<String>>))
    ensures
        r.0 == on_pending_stop(f, pending).0,
        actions_view(r.1@) == on_pending_stop(f, pending).1,
{
    let mut v: Vec<FlowAction<String>> = Vec::new();
    if pending {
        v.push(FlowAction::RequestStop);
    }
    if f.show_pill {
        v.push(FlowAction::ShowPill);
    }
    v.push(FlowAction::Signal(FlowSignal::RecordingStarted));
    v.push(FlowAction::ArmEscape);
    v.push(ok_action());
    (StartFlow { phase: StartPhase::Done, media_paused: f.media_paused, show_pill: f.show_pill }, v)
}

/// One step of the start command: the next state of the flow and the
/// actions to perform, for what the last action found out.
pub fn start_step(flow: StartFlow, event: StartEvent) -> (r: (StartFlow, Vec<FlowAction<String>>))
    ensures
        r.0 == start_step_spec(flow, event).0,
        actions_view(r.1@) == start_step_spec(flow, event).1,
{
    if flow.phase != start_phase_of(&event) {
        return (flow, Vec::new());
    }
    let mut v: Vec<FlowAction<String>> = Vec::new();
    match event {
        StartEvent::Requested { state } => {
            if state == RecordingState::Error {
                v.push(FlowAction::WriteState(RecordingState::Idle, Some(lit("recover"))));
            }
            v.push(FlowAction::Validate);
            (StartFlow { phase: StartPhase::AwaitValidation, media_paused: flow.media_paused, show_pill: flow.show_pill }, v)
        },
        StartEvent::Validated { result, cpu_decode_in_flight, ptt_released } => validated_step(
            flow,
            result,
            cpu_decode_in_flight,
            ptt_released,
        ),
        StartEvent::StateRead(state) => {
            if state != RecordingState::Starting {
                v.push(FlowAction::ReturnErr(lit("Cannot start recording in current state")));
                (StartFlow { phase: StartPhase::Done, media_paused: flow.media_paused, show_pill: flow.show_pill }, v)
            } else {
                v.push(FlowAction::PrepareCapture);
                (StartFlow { phase: StartPhase::AwaitPrepared, media_paused: flow.media_paused, show_pill: flow.show_pill }, v)
            }
        },
        StartEvent::Prepared { media_paused, config } => prepared_step(flow, media_paused, config),
        StartEvent::RecordingFile(r0) => match r0 {
            Err(msg) => {
                push_resume(&mut v, flow);
                v.push(FlowAction::ReturnErr(msg));
                (StartFlow { phase: StartPhase::Done, media_paused: flow.media_paused, show_pill: flow.show_pill }, v)
            },
            Ok(ts) => {
                v.push(FlowAction::ClearPendingStop);
                v.push(FlowAction::SetRecordingFile(recording_file_name(ts)));
                v.push(FlowAction::StartRecorder);
                (StartFlow { phase: StartPhase::AwaitRecorder, media_paused: flow.media_paused, show_pill: flow.show_pill }, v)
            },
        },
        StartEvent::RecorderStarted(st) => recorder_started_step(flow, st),
        StartEvent::PttChecked { released } => {
            if released {
                v.push(FlowAction::StopRecorderQuietly);
                (StartFlow { phase: StartPhase::AwaitAbortStop, media_paused: flow.media_paused, show_pill: flow.show_pill }, v)
            } else {
                v.push(FlowAction::WriteState(RecordingState::Recording, None));
                v.push(FlowAction::TakePendingStop);
                (StartFlow { phase: StartPhase::AwaitPendingStop, media_paused: flow.media_paused, show_pill: flow.show_pill }, v)
            }
        },
        StartEvent::AbortStopped(r0) => abort_stopped_step(flow, r0),
        StartEvent::PendingStop(pending) => pending_stop_step(flow, pending),
    }
}


// ---------------------------------------------------------------------------
// Laws
// ---------------------------------------------------------------------------

/// Whether an action answers the command.
pub open spec fn is_reply(a: FlowAction<Seq<char>>) -> bool {
    a is ReturnOk || a is ReturnErr
}

/// Whether no action answers the command.
pub open spec fn has_no_reply(s: Seq<FlowAction<Seq<char>>>) -> bool {
    forall|i: int| 0 <= i < s.len() ==> !is_reply(#[trigger] s[i])
}

/// Whether the last action, and only it, answers the command.
pub open spec fn replies_last(s: Seq<FlowAction<Seq<char>>>) -> bool {
    s.len() > 0 && is_reply(s.last()) && has_no_reply(s.drop_last())
}

/// The phases of a stop flow before the transcription task takes over.
pub open spec fn before_task(p: StopPhase) -> bool {
    p == StopPhase::Begin || p == StopPhase::AwaitRecorder || p == StopPhase::AwaitCapture || p
        == StopPhase::AwaitEngineFacts || p == StopPhase::AwaitModelPath || p == StopPhase::AwaitNormalized || p
        == StopPhase::AwaitInspection
}

/// The start command is answered exactly once: the step that ends the flow
/// answers it with its last action, and no other step answers.
pub proof fn law_start_replies_when_done(f: StartFlow, e: StartEvent)
    ensures
        f.phase != StartPhase::Done && start_step_spec(f, e).0.phase == StartPhase::Done ==> replies_last(
            start_step_spec(f, e).1,
        ),
        start_step_spec(f, e).0.phase != StartPhase::Done ==> has_no_reply(start_step_spec(f, e).1),
{
    let acts = start_step_spec(f, e).1;
    if f.phase == start_phase_for(e) {
        match e {
            StartEvent::RecorderStarted(st) => {
                assert(acts.drop_last() =~= acts.subrange(0, acts.len() - 1));
            },
            StartEvent::PendingStop(pending) => {
                assert(acts.drop_last() =~= acts.subrange(0, acts.len() - 1));
            },
            _ => {},
        }
    }
}

/// The stop command is answered exactly once: the step that stops the
/// flow, or hands the recording to the transcription task, answers it with
/// its last action; no other step answers, and the transcription task never
/// does.
pub proof fn law_stop_replies_once(f: StopFlow<Seq<char>>, e: StopEvent)
    ensures
        before_task(f.phase) && (stop_step_spec(f, e).0.phase == StopPhase::Done || stop_step_spec(f, e).0.phase
            == StopPhase::AwaitTaskStart) ==> replies_last(stop_step_spec(f, e).1),
        before_task(f.phase) && !(stop_step_spec(f, e).0.phase == StopPhase::Done || stop_step_spec(f, e).0.phase
            == StopPhase::AwaitTaskStart) ==> has_no_reply(stop_step_spec(f, e).1),
        !before_task(f.phase) ==> has_no_reply(stop_step_spec(f, e).1),
{
}

/// Once the transcription task has taken over, every step that ends the flow
/// leaves the state idle as its last action; the one exception is a
/// Parakeet model that fails to load, which leaves the error state.
pub proof fn law_task_ends_idle(f: StopFlow<Seq<char>>, e: StopEvent)
    requires
        !before_task(f.phase),
        f.phase != StopPhase::Done,
        stop_step_spec(f, e).0.phase == StopPhase::Done,
        !(e is ModelLoadFailed),
    ensures
        stop_step_spec(f, e).1.len() > 0,
        stop_step_spec(f, e).1.last() == idle(),
{
}

/// A recording cancelled with Escape is discarded: once the recorder has
/// stopped with a cancel pending, the captured file is removed, the state
/// returns to idle, the command succeeds and nothing is transcribed.
pub proof fn law_cancelled_recording_is_discarded(f: StopFlow<Seq<char>>, capture_present: bool)
    requires
        f.phase == StopPhase::AwaitRecorder,
    ensures
        stop_step_spec(f, StopEvent::RecorderStopped { errored: false, cancel_requested: true, capture_present })
            == (done(f), seq![
            FlowAction::DisarmEscape,
            FlowAction::Delete(FlowFile::Capture),
            FlowAction::HidePill,
            idle(),
            ret_ok(),
        ]),
{
}

/// A cancel that arrives while the transcript is made stops the flow before
/// anything is formatted, pasted, copied or saved: the engine's file is
/// removed and the state returns to idle.
pub proof fn law_cancel_during_transcription_discards_text(f: StopFlow<Seq<char>>, text: String)
    requires
        f.phase == StopPhase::AwaitTranscript,
    ensures
        stop_step_spec(f, StopEvent::Transcribed { result: Ok(text), cancel_requested: true }) == (done(f), seq![
            FlowAction::Delete(FlowFile::Transcribed),
            FlowAction::HidePill,
            idle(),
        ]),
{
}

/// Whether an action passes a transcript on: to formatting, to the paste
/// decision, to the cursor, to the clipboard or to the history.
pub open spec fn passes_text_on(a: FlowAction<Seq<char>>) -> bool {
    a is Enhance || a is ReadAutoPaste || a is PasteText || a is CopyText || a is SaveHistory
}

/// A transcript without speech (empty, whitespace only, the silence marker
/// `[BLANK_AUDIO]` or the noise marker `[SOUND]`) ends the flow: the
/// engine's file is removed, "No speech detected" is shown, the state
/// returns to idle, and nothing is formatted, pasted, copied or saved.
pub proof fn law_no_speech_is_not_delivered(f: StopFlow<Seq<char>>, text: String)
    requires
        f.phase == StopPhase::AwaitTranscript,
        crate::text::all_whitespace(text@) || text@ == "[BLANK_AUDIO]"@ || text@ == "[SOUND]"@,
    ensures
        stop_step_spec(f, StopEvent::Transcribed { result: Ok(text), cancel_requested: false }) == (done(f), seq![
            FlowAction::Delete(FlowFile::Transcribed),
            FlowAction::Toast("No speech detected"@, 1500),
            FlowAction::Wait(2500),
            FlowAction::HidePill,
            idle(),
        ]),
        forall|i: int|
            0 <= i < stop_step_spec(f, StopEvent::Transcribed { result: Ok(text), cancel_requested: false }).1.len()
                ==> !passes_text_on(
                #[trigger] stop_step_spec(f, StopEvent::Transcribed { result: Ok(text), cancel_requested: false }).1[i],
            ),
{
    crate::text::lemma_trim_empty_iff_whitespace(text@);
    let acts = stop_step_spec(f, StopEvent::Transcribed { result: Ok(text), cancel_requested: false }).1;
    assert forall|i: int| 0 <= i < acts.len() implies !passes_text_on(#[trigger] acts[i]) by {}
}

/// When AI formatting fails, whatever the error, the user still gets the
/// transcript that was sent to formatting: it becomes the text to deliver,
/// it is what is pasted or copied, and it is what the history saves with
/// the model. When formatting succeeds, the formatted text takes its place.
pub proof fn law_failed_formatting_delivers_transcript(
    f: StopFlow<Seq<char>>,
    error: String,
    formatted: String,
    paste: bool,
    pasted: Result<(), String>,
    copied: bool,
)
    requires
        f.phase == StopPhase::AwaitEnhanced,
    ensures
        ({
            let g = stop_step_spec(f, StopEvent::Enhanced(Err(error)));
            let h = stop_step_spec(g.0, StopEvent::AutoPaste(paste));
            let k = stop_step_spec(h.0, if paste { StopEvent::Pasted(pasted) } else { StopEvent::Copied(copied) });
            &&& g.0.phase == StopPhase::AwaitAutoPaste
            &&& g.0.final_text == f.transcript
            &&& g.1.len() > 0 && g.1.last() == FlowAction::<Seq<char>>::ReadAutoPaste
            &&& h.1 == (if paste {
                seq![FlowAction::PasteText(f.transcript)]
            } else {
                seq![FlowAction::CopyText(f.transcript)]
            })
            &&& k.0.phase == StopPhase::Done
            &&& k.1.len() >= 2 && k.1[k.1.len() - 2] == FlowAction::SaveHistory(f.transcript, f.model)
        }),
        stop_step_spec(f, StopEvent::Enhanced(Ok(formatted))).0.final_text == formatted@,
{
}

/// A second stop while one is under way changes nothing: it only answers
/// with success.
pub proof fn law_stop_is_not_reentrant(f: StopFlow<Seq<char>>, entry_state: RecordingState, recorder_active: bool)
    requires
        f.phase == StopPhase::Begin,
    ensures
        stop_step_spec(f, StopEvent::Requested { already_in_flight: true, entry_state, recorder_active }) == (
            done(f),
            seq![ret_ok()],
        ),
{
}

/// A stop that finds no recording never forces the state back to idle while
/// a stop or a transcription is under way.
pub proof fn law_idle_stop_keeps_work_in_progress(f: StopFlow<Seq<char>>, entry_state: RecordingState)
    requires
        f.phase == StopPhase::Begin,
        entry_state == RecordingState::Stopping || entry_state == RecordingState::Transcribing,
    ensures
        !stop_step_spec(f, StopEvent::Requested { already_in_flight: false, entry_state, recorder_active: false }).1.contains(
            idle(),
        ),
{
    let acts = stop_step_spec(f, StopEvent::Requested { already_in_flight: false, entry_state, recorder_active: false }).1;
    assert(acts =~= seq![FlowAction::WriteState(RecordingState::Stopping, None), ret_ok()]);
    assert forall|i: int| 0 <= i < acts.len() implies acts[i] != idle() by {}
}

// ---------------------------------------------------------------------------
// Whole runs
// ---------------------------------------------------------------------------

/// How many actions answer the command.
pub open spec fn reply_count(s: Seq<FlowAction<Seq<char>>>) -> nat
    decreases s.len(),
{
    if s.len() == 0 {
        0
    } else {
        reply_count(s.drop_last()) + if is_reply(s.last()) {
            1nat
        } else {
            0nat
        }
    }
}

proof fn lemma_reply_count_concat(a: Seq<FlowAction<Seq<char>>>, b: Seq<FlowAction<Seq<char>>>)
    ensures
        reply_count(a + b) == reply_count(a) + reply_count(b),
    decreases b.len(),
{
    if b.len() == 0 {
        assert(a + b =~= a);
    } else {
        lemma_reply_count_concat(a, b.drop_last());
        assert((a + b).drop_last() =~= a + b.drop_last());
        assert((a + b).last() == b.last());
    }
}

proof fn lemma_reply_count_none(s: Seq<FlowAction<Seq<char>>>)
    requires
        has_no_reply(s),
    ensures
        reply_count(s) == 0,
    decreases s.len(),
{
    if s.len() > 0 {
        assert(!is_reply(s[s.len() - 1]));
        assert(has_no_reply(s.drop_last())) by {
            assert forall|i: int| 0 <= i < s.drop_last().len() implies !is_reply(#[trigger] s.drop_last()[i]) by {
                assert(s.drop_last()[i] == s[i]);
            }
        }
        lemma_reply_count_none(s.drop_last());
    }
}

proof fn lemma_reply_count_last(s: Seq<FlowAction<Seq<char>>>)
    requires
        replies_last(s),
    ensures
        reply_count(s) == 1,
{
    lemma_reply_count_none(s.drop_last());
}

/// A whole stop run: the flow `f` takes the events in order; the result is
/// the last state and every action asked for, in order.
pub open spec fn stop_run(f: StopFlow<Seq<char>>, events: Seq<StopEvent>) -> (StopFlow<Seq<char>>, Seq<FlowAction<Seq<char>>>)
    decreases events.len(),
{
    if events.len() == 0 {
        (f, Seq::empty())
    } else {
        let (f1, a1) = stop_step_spec(f, events[0]);
        let (f2, a2) = stop_run(f1, events.skip(1));
        (f2, a1 + a2)
    }
}

/// A whole start run, as `stop_run`.
pub open spec fn start_run(f: StartFlow, events: Seq<StartEvent>) -> (StartFlow, Seq<FlowAction<Seq<char>>>)
    decreases events.len(),
{
    if events.len() == 0 {
        (f, Seq::empty())
    } else {
        let (f1, a1) = start_step_spec(f, events[0]);
        let (f2, a2) = start_run(f1, events.skip(1));
        (f2, a1 + a2)
    }
}

proof fn lemma_stop_stays_past_task(f: StopFlow<Seq<char>>, e: StopEvent)
    requires
        !before_task(f.phase),
    ensures
        !before_task(stop_step_spec(f, e).0.phase),
{
}

proof fn lemma_stop_run_replies(f: StopFlow<Seq<char>>, events: Seq<StopEvent>)
    ensures
        before_task(f.phase) ==> reply_count(stop_run(f, events).1) == if before_task(stop_run(f, events).0.phase) {
            0nat
        } else {
            1nat
        },
        !before_task(f.phase) ==> reply_count(stop_run(f, events).1) == 0 && !before_task(
            stop_run(f, events).0.phase,
        ),
    decreases events.len(),
{
    if events.len() > 0 {
        let e = events[0];
        let (f1, a1) = stop_step_spec(f, e);
        law_stop_replies_once(f, e);
        if !before_task(f.phase) {
            lemma_stop_stays_past_task(f, e);
        }
        lemma_stop_run_replies(f1, events.skip(1));
        let (f2, a2) = stop_run(f1, events.skip(1));
        lemma_reply_count_concat(a1, a2);
        if has_no_reply(a1) {
            lemma_reply_count_none(a1);
        } else {
            lemma_reply_count_last(a1);
        }
    }
}

/// A stop command is answered exactly once over a whole run: whatever the
/// reports, a run from a fresh flow answers once if it gets past the point
/// where transcription takes over (or stops before), and not at all if it
/// is left waiting earlier; never twice.
pub proof fn law_stop_run_answers_once(intent: StopRecordingIntent, events: Seq<StopEvent>)
    ensures
        reply_count(stop_run(new_stop_flow(intent), events).1) == if before_task(
            stop_run(new_stop_flow(intent), events).0.phase,
        ) {
            0nat
        } else {
            1nat
        },
{
    lemma_stop_run_replies(new_stop_flow(intent), events);
}

proof fn lemma_start_run_replies(f: StartFlow, events: Seq<StartEvent>)
    ensures
        f.phase != StartPhase::Done ==> reply_count(start_run(f, events).1) == if start_run(f, events).0.phase
            == StartPhase::Done {
            1nat
        } else {
            0nat
        },
        f.phase == StartPhase::Done ==> reply_count(start_run(f, events).1) == 0 && start_run(f, events).0.phase
            == StartPhase::Done,
    decreases events.len(),
{
    if events.len() > 0 {
        let e = events[0];
        let (f1, a1) = start_step_spec(f, e);
        law_start_replies_when_done(f, e);
        lemma_start_run_replies(f1, events.skip(1));
        let (f2, a2) = start_run(f1, events.skip(1));
        lemma_reply_count_concat(a1, a2);
        if has_no_reply(a1) {
            lemma_reply_count_none(a1);
        } else {
            lemma_reply_count_last(a1);
        }
    }
}

/// A start command is answered exactly once over a whole run: a run from a
/// fresh flow has answered once when it has ended, and not at all before.
pub proof fn law_start_run_answers_once(events: Seq<StartEvent>)
    ensures
        reply_count(start_run(new_start_flow(), events).1) == if start_run(new_start_flow(), events).0.phase
            == StartPhase::Done {
            1nat
        } else {
            0nat
        },
{
    lemma_start_run_replies(new_start_flow(), events);
}

} // verus!
