//! Decisions of the recording flow: which state changes a stop may make,
//! which transcription errors are retried, which fallback model is used,
//! how silence-detector events are routed, how pill toasts are numbered and
//! cleared, and when cached settings or a cached license still count.
use vstd::prelude::*;
use crate::text::{
    chars_of, concat3, contains_chars, contains_seq, contains_string, split_once, split_once_chars, starts_with,
    starts_with_chars, str_eq, string_of, strings_contain, to_lowercase, lowercase_of, concat, decimal, decimal_chars,
    chars_le, lemma_seq_le_total, lemma_seq_le_trans, seq_le,
};

verus! {

broadcast use vstd::string::group_string_axioms;

/// The state of the recording flow.
#[derive(Debug, Clone, Copy, PartialEq, Eq, Structural)]
pub enum RecordingState {
    Idle,
    Starting,
    Recording,
    Stopping,
    Transcribing,
    Error,
}

/// How the recording hotkey behaves.
#[derive(Debug, Clone, Copy, PartialEq, Eq, Structural)]
pub enum RecordingMode {
    Toggle,
    PushToTalk,
}

/// Whether a stop that finds no active recorder may force the state back
/// to idle: not while a stop or transcription flow is under way.
pub fn stop_should_reset_to_idle(current: RecordingState) -> (r: bool)
    ensures
        r == !(current == RecordingState::Stopping || current == RecordingState::Transcribing),
{
    !matches!(current, RecordingState::Stopping | RecordingState::Transcribing)
}

/// The error of a transcription that timed out.
pub const TRANSCRIPTION_TIMED_OUT: &'static str = "Transcription timed out";

/// The error of a transcription refused because the previous CPU decode is
/// still stopping.
pub const PREVIOUS_TRANSCRIPTION_STOPPING: &'static str = "Previous transcription is still stopping";

/// The error of a push-to-talk start whose key was released first.
pub const PTT_START_ABORTED_AFTER_RELEASE: &'static str = "PTT key released before recording could start";

/// Errors that a retry cannot fix: cancellations, timeouts, and a decode
/// that is still stopping.
pub open spec fn non_retryable_spec(error: Seq<char>) -> bool {
    contains_seq(error, "cancelled"@) || error == TRANSCRIPTION_TIMED_OUT@ || error
        == PREVIOUS_TRANSCRIPTION_STOPPING@
}

/// Whether a failed transcription must not be retried.
pub fn is_non_retryable_transcription_error(error: &str) -> (r: bool)
    ensures
        r == non_retryable_spec(error@),
{
    contains_chars(&chars_of(error), &chars_of("cancelled")) || str_eq(error, TRANSCRIPTION_TIMED_OUT) || str_eq(
        error,
        PREVIOUS_TRANSCRIPTION_STOPPING,
    )
}

/// The slot that allows one CPU decode of a recording at a time.
pub struct DecodeSlot {
    in_flight: bool,
}

impl DecodeSlot {
    /// Whether a decode holds the slot.
    pub closed spec fn busy(&self) -> bool {
        self.in_flight
    }

    /// A free slot.
    pub fn new() -> (r: Self)
        ensures
            !r.busy(),
    {
        DecodeSlot { in_flight: false }
    }

    /// Takes the slot for a decode; refused while another decode still
    /// holds it.
    pub fn try_acquire(&mut self) -> (r: Result<(), String>)
        ensures
            r is Ok == !old(self).busy(),
            r matches Err(e) ==> e@ == PREVIOUS_TRANSCRIPTION_STOPPING@,
            final(self).busy(),
    {
        if self.in_flight {
            Err(string_of(&chars_of(PREVIOUS_TRANSCRIPTION_STOPPING)))
        } else {
            self.in_flight = true;
            Ok(())
        }
    }

    /// Frees the slot when the decode ends.
    pub fn release(&mut self)
        ensures
            !final(self).busy(),
    {
        self.in_flight = false;
    }
}

/// The flag that keeps a second stop from running while one is in flight.
pub struct InFlightFlag {
    set: bool,
}

impl InFlightFlag {
    /// The value of the flag.
    pub closed spec fn value(&self) -> bool {
        self.set
    }

    /// A cleared flag.
    pub fn new() -> (r: Self)
        ensures
            !r.value(),
    {
        InFlightFlag { set: false }
    }

    /// Stores `v` and returns the previous value.
    pub fn swap(&mut self, v: bool) -> (prev: bool)
        ensures
            prev == old(self).value(),
            final(self).value() == v,
    {
        let prev = self.set;
        self.set = v;
        prev
    }

    /// The current value.
    pub fn load(&self) -> (r: bool)
        ensures
            r == self.value(),
    {
        self.set
    }
}

/// The guard of a stop in flight; releasing it clears the flag.
pub struct StopInFlightGuard;

impl StopInFlightGuard {
    /// Guards the stop that set the flag.
    pub fn new() -> (r: Self) {
        StopInFlightGuard
    }

    /// Ends the stop: the flag is cleared so that the next stop can run.
    pub fn release(self, flag: &mut InFlightFlag)
        ensures
            !final(flag).value(),
    {
        flag.set = false;
    }
}

// ---------------------------------------------------------------------------
// Pill toasts
// ---------------------------------------------------------------------------

/// Show or clear, for the unified toast event.
#[derive(Debug, Clone, Copy, PartialEq, Eq, Structural)]
pub enum PillToastAction {
    Show,
    Clear,
}

/// Visual variant of a pill toast.
#[derive(Debug, Clone, Copy, PartialEq, Eq, Structural)]
pub enum PillToastVariant {
    Info,
    Warning,
}

/// The payload of a toast event.
#[derive(Debug, Clone)]
pub struct PillToastPayload {
    pub id: u64,
    pub action: PillToastAction,
    pub message: String,
    pub duration_ms: u64,
    pub variant: PillToastVariant,
    pub persistent: bool,
}

/// The payload that shows a toast.
pub fn show_toast_payload(id: u64, message: &str, duration_ms: u64, variant: PillToastVariant, persistent: bool) -> (r: PillToastPayload)
    ensures
        r.id == id,
        r.action == PillToastAction::Show,
        r.message@ == message@,
        r.duration_ms == duration_ms,
        r.variant == variant,
        r.persistent == persistent,
{
    PillToastPayload {
        id,
        action: PillToastAction::Show,
        message: string_of(&chars_of(message)),
        duration_ms,
        variant,
        persistent,
    }
}

/// The payload that clears the toast `id`.
pub fn clear_toast_payload(id: u64) -> (r: PillToastPayload)
    ensures
        r.id == id,
        r.action == PillToastAction::Clear,
        r.message@.len() == 0,
        r.duration_ms == 0,
        r.variant == PillToastVariant::Info,
        !r.persistent,
{
    PillToastPayload {
        id,
        action: PillToastAction::Clear,
        message: String::new(),
        duration_ms: 0,
        variant: PillToastVariant::Info,
        persistent: false,
    }
}

/// `x + 1`, wrapping at `u64::MAX`.
pub open spec fn wrapping_succ(x: u64) -> u64 {
    if x == u64::MAX {
        0
    } else {
        (x + 1) as u64
    }
}

/// The id counter of pill toasts: it holds the id of the newest toast.
pub struct ToastCounter {
    current: u64,
}

impl ToastCounter {
    /// The id of the newest toast.
    pub closed spec fn current_spec(&self) -> u64 {
        self.current
    }

    /// A counter whose newest id is `current`.
    pub fn starting_at(current: u64) -> (r: Self)
        ensures
            r.current_spec() == current,
    {
        ToastCounter { current }
    }

    /// The id of the newest toast.
    pub fn current(&self) -> (r: u64)
        ensures
            r == self.current_spec(),
    {
        self.current
    }

    /// The id of a new toast, which becomes the newest.
    pub fn next_pill_toast_id(&mut self) -> (id: u64)
        ensures
            id == wrapping_succ(old(self).current_spec()),
            final(self).current_spec() == id,
    {
        self.current = self.current.wrapping_add(1);
        self.current
    }

    /// Whether a clear of toast `toast_id` may hide the toast window: only
    /// when it is the newest toast, and then only once (the counter moves
    /// on).
    pub fn pill_toast_clear_may_hide_window(&mut self, toast_id: u64) -> (r: bool)
        ensures
            (r, final(self).current_spec()) == clear_spec(old(self).current_spec(), toast_id),
    {
        if self.current == toast_id {
            self.current = toast_id.wrapping_add(1);
            true
        } else {
            false
        }
    }
}

/// A clear of toast `toast_id` against the newest id `current`: whether it
/// may hide the window, and the counter afterwards.
pub open spec fn clear_spec(current: u64, toast_id: u64) -> (bool, u64) {
    if current == toast_id {
        (true, wrapping_succ(toast_id))
    } else {
        (false, current)
    }
}

/// A clear hides only the newest toast, and only once: after a new toast,
/// its clear hides the window, a second clear of it does nothing, and a
/// clear of any other toast does nothing.
pub proof fn law_toast_clear_only_newest(current: u64, other: u64)
    ensures
        clear_spec(wrapping_succ(current), wrapping_succ(current)).0,
        !clear_spec(clear_spec(wrapping_succ(current), wrapping_succ(current)).1, wrapping_succ(current)).0,
        other != wrapping_succ(current) ==> !clear_spec(wrapping_succ(current), other).0,
{
}

/// Whether the pill hides once recording ends, for a pill indicator mode:
/// it stays only in mode `always`.
pub fn should_hide_pill_when_idle(mode: &str) -> (r: bool)
    ensures
        r == (mode@ != "always"@),
{
    !str_eq(mode, "always")
}

// ---------------------------------------------------------------------------
// Silence detection
// ---------------------------------------------------------------------------

/// Why a recording is being stopped.
#[derive(Debug, Clone, Copy, PartialEq, Eq, Structural)]
pub enum StopRecordingIntent {
    Normal,
    LongSilenceWithSpeech,
}

/// Whether audio judged to be silence is discarded: on a normal stop, but
/// never after a long silence that followed speech.
pub fn should_discard_likely_silence(intent: StopRecordingIntent) -> (r: bool)
    ensures
        r == (intent == StopRecordingIntent::Normal),
{
    matches!(intent, StopRecordingIntent::Normal)
}

/// Whether a silence warning applies in this state.
pub fn silence_state_allows_warning_event(state: RecordingState) -> (r: bool)
    ensures
        r == (state == RecordingState::Recording || state == RecordingState::Starting),
{
    matches!(state, RecordingState::Recording | RecordingState::Starting)
}

/// Whether a silence timeout may still end the recording in this state.
pub fn silence_state_allows_terminal_event(state: RecordingState) -> (r: bool)
    ensures
        r == (state == RecordingState::Recording || state == RecordingState::Starting),
{
    matches!(state, RecordingState::Recording | RecordingState::Starting)
}

/// Events of the silence detector.
#[derive(Debug, Clone, Copy, PartialEq, Eq, Structural)]
pub enum SilenceDetectorEvent {
    DeadMicWarn,
    LongSilenceWarn,
    Clear,
    TimeoutWithSpeech,
    TimeoutNoSpeech,
}

impl SilenceDetectorEvent {
    /// Whether the event ends the recording.
    pub open spec fn is_terminal_spec(self) -> bool {
        self == SilenceDetectorEvent::TimeoutWithSpeech || self == SilenceDetectorEvent::TimeoutNoSpeech
    }

    /// Whether the event ends the recording.
    pub fn is_terminal(&self) -> (r: bool)
        ensures
            r == self.is_terminal_spec(),
    {
        matches!(self, SilenceDetectorEvent::TimeoutWithSpeech | SilenceDetectorEvent::TimeoutNoSpeech)
    }
}

/// What the silence listener does with one event.
#[derive(Debug, Clone, Copy, PartialEq, Eq, Structural)]
pub enum SilenceAction {
    /// Nothing: a warning outside recording.
    Ignore,
    /// The flow moved on: clear the warning and stop listening.
    StopListening,
    /// Show this persistent warning.
    Warn(SilenceWarning),
    /// Clear the shown warning.
    ClearWarning,
    /// Clear the warning, say the recording ended after a long silence,
    /// stop and transcribe; stop listening.
    StopAndTranscribe,
    /// Clear the warning, cancel and discard the recording; stop listening.
    CancelAndDiscard,
}

/// The persistent silence warnings.
#[derive(Debug, Clone, Copy, PartialEq, Eq, Structural)]
pub enum SilenceWarning {
    DeadMic,
    LongSilence,
}

impl SilenceWarning {
    /// The text of the warning.
    pub fn message(&self) -> (r: &'static str)
        ensures
            r@ == match self {
                SilenceWarning::DeadMic => "No audio detected — check your microphone"@,
                SilenceWarning::LongSilence => "Long silence detected"@,
            },
    {
        match self {
            SilenceWarning::DeadMic => "No audio detected — check your microphone",
            SilenceWarning::LongSilence => "Long silence detected",
        }
    }
}

/// The action for `event` in recording state `state`.
pub open spec fn silence_action_spec(event: SilenceDetectorEvent, state: RecordingState) -> SilenceAction {
    let live = state == RecordingState::Recording || state == RecordingState::Starting;
    if !live {
        if event.is_terminal_spec() {
            SilenceAction::StopListening
        } else {
            SilenceAction::Ignore
        }
    } else {
        match event {
            SilenceDetectorEvent::DeadMicWarn => SilenceAction::Warn(SilenceWarning::DeadMic),
            SilenceDetectorEvent::LongSilenceWarn => SilenceAction::Warn(SilenceWarning::LongSilence),
            SilenceDetectorEvent::Clear => SilenceAction::ClearWarning,
            SilenceDetectorEvent::TimeoutWithSpeech => SilenceAction::StopAndTranscribe,
            SilenceDetectorEvent::TimeoutNoSpeech => SilenceAction::CancelAndDiscard,
        }
    }
}

/// Routes one silence-detector event.
pub fn silence_event_action(event: SilenceDetectorEvent, state: RecordingState) -> (r: SilenceAction)
    ensures
        r == silence_action_spec(event, state),
{
    if event.is_terminal() {
        if !silence_state_allows_terminal_event(state) {
            return SilenceAction::StopListening;
        }
    } else if !silence_state_allows_warning_event(state) {
        return SilenceAction::Ignore;
    }
    match event {
        SilenceDetectorEvent::DeadMicWarn => SilenceAction::Warn(SilenceWarning::DeadMic),
        SilenceDetectorEvent::LongSilenceWarn => SilenceAction::Warn(SilenceWarning::LongSilence),
        SilenceDetectorEvent::Clear => SilenceAction::ClearWarning,
        SilenceDetectorEvent::TimeoutWithSpeech => SilenceAction::StopAndTranscribe,
        SilenceDetectorEvent::TimeoutNoSpeech => SilenceAction::CancelAndDiscard,
    }
}

/// A long silence after speech keeps the audio and transcribes it; a
/// timeout without speech discards; a terminal event after the stop flow
/// began changes nothing but the listener.
pub proof fn law_silence_routing(state: RecordingState)
    ensures
        (state == RecordingState::Recording || state == RecordingState::Starting) ==> silence_action_spec(
            SilenceDetectorEvent::TimeoutWithSpeech,
            state,
        ) == SilenceAction::StopAndTranscribe,
        (state == RecordingState::Recording || state == RecordingState::Starting) ==> silence_action_spec(
            SilenceDetectorEvent::TimeoutNoSpeech,
            state,
        ) == SilenceAction::CancelAndDiscard,
        !(state == RecordingState::Recording || state == RecordingState::Starting) ==> silence_action_spec(
            SilenceDetectorEvent::TimeoutWithSpeech,
            state,
        ) == SilenceAction::StopListening,
{
}

// ---------------------------------------------------------------------------
// Push to talk
// ---------------------------------------------------------------------------

/// Whether a push-to-talk start must be aborted: the key is no longer held.
pub fn ptt_key_released(mode: RecordingMode, ptt_key_held: bool) -> (r: bool)
    ensures
        r == (mode == RecordingMode::PushToTalk && !ptt_key_held),
{
    mode == RecordingMode::PushToTalk && !ptt_key_held
}

// ---------------------------------------------------------------------------
// Model fallback
// ---------------------------------------------------------------------------

/// The family of a model name: the text before its first `-`.
pub open spec fn model_family(requested: Seq<char>) -> Seq<char> {
    match split_once(requested, '-') {
        Some((family, _)) => family,
        None => requested,
    }
}

/// The first model of `priority` that is available and, when a family is
/// given, belongs to it.
pub open spec fn first_available(priority: Seq<String>, available: Seq<String>, family: Option<Seq<char>>) -> Option<Seq<char>>
    decreases priority.len(),
{
    if priority.len() == 0 {
        None
    } else if strings_contain(available, priority[0]@) && (family matches Some(f) ==> starts_with(priority[0]@, f)) {
        Some(priority[0]@)
    } else {
        first_available(priority.drop_first(), available, family)
    }
}

/// The model used in place of a missing one: the first available model of
/// the priority order within the requested model's family, else the first
/// available model of the priority order, else the first available model,
/// else `base.en`.
pub open spec fn fallback_model_spec(available: Seq<String>, requested: Seq<char>, priority: Seq<String>) -> Seq<char> {
    let in_family = if requested.len() > 0 {
        first_available(priority, available, Some(model_family(requested)))
    } else {
        None
    };
    match in_family {
        Some(m) => m,
        None => match first_available(priority, available, None) {
            Some(m) => m,
            None => if available.len() > 0 {
                available[0]@
            } else {
                "base.en"@
            },
        },
    }
}

fn first_available_exec(priority: &[String], available: &[String], family: &Option<Vec<char>>) -> (r: Option<String>)
    ensures
        match r {
            Some(m) => first_available(priority@, available@, opt_chars(family)) == Some(m@),
            None => first_available(priority@, available@, opt_chars(family)) is None,
        },
{
    let ghost fam = opt_chars(family);
    let mut i: usize = 0;
    assert(priority@.skip(0) == priority@);
    while i < priority.len()
        invariant
            i <= priority@.len(),
            fam == opt_chars(family),
            first_available(priority@, available@, fam) == first_available(priority@.skip(i as int), available@, fam),
        decreases priority@.len() - i,
    {
        let ghost rest = priority@.skip(i as int);
        assert(rest[0] == priority@[i as int]);
        assert(rest.drop_first() == priority@.skip(i + 1));
        let p = &priority[i];
        let avail = contains_string_slice(available, p.as_str());
        let fits = match family {
            Some(f) => starts_with_chars(&chars_of(p.as_str()), f),
            None => true,
        };
        if avail && fits {
            return Some(string_of(&chars_of(p.as_str())));
        }
        i += 1;
    }
    None
}

/// The view of optional characters.
pub open spec fn opt_chars(o: &Option<Vec<char>>) -> Option<Seq<char>> {
    match o {
        Some(v) => Some(v@),
        None => None,
    }
}

fn contains_string_slice(v: &[String], x: &str) -> (r: bool)
    ensures
        r == strings_contain(v@, x@),
{
    let mut i: usize = 0;
    while i < v.len()
        invariant
            i <= v@.len(),
            forall|j: int| 0 <= j < i ==> (#[trigger] v@[j])@ != x@,
        decreases v@.len() - i,
    {
        if str_eq(v[i].as_str(), x) {
            return true;
        }
        i += 1;
    }
    false
}

/// Selects the best fallback model in the given priority order.
pub fn select_best_fallback_model(available_models: &[String], requested: &str, model_priority: &[String]) -> (r: String)
    ensures
        r@ == fallback_model_spec(available_models@, requested@, model_priority@),
{
    let req = chars_of(requested);
    if req.len() > 0 {
        let family = match split_once_chars(&req, '-') {
            Some((f, _)) => f,
            None => req,
        };
        let fam = Some(family);
        if let Some(m) = first_available_exec(model_priority, available_models, &fam) {
            return m;
        }
    }
    let none: Option<Vec<char>> = None;
    if let Some(m) = first_available_exec(model_priority, available_models, &none) {
        return m;
    }
    if available_models.len() > 0 {
        string_of(&chars_of(available_models[0].as_str()))
    } else {
        string_of(&chars_of("base.en"))
    }
}

/// The engine that will transcribe, and its model.
#[derive(Debug, Clone)]
pub enum ActiveEngineSelection {
    Whisper { model_name: String, model_path: String },
    Parakeet { model_name: String },
    Soniox { model_name: String },
}

impl ActiveEngineSelection {
    /// The engine's name.
    pub fn engine_name(&self) -> (r: &'static str)
        ensures
            r@ == match self {
                ActiveEngineSelection::Whisper { .. } => "whisper"@,
                ActiveEngineSelection::Parakeet { .. } => "parakeet"@,
                ActiveEngineSelection::Soniox { .. } => "soniox"@,
            },
    {
        match self {
            ActiveEngineSelection::Whisper { .. } => "whisper",
            ActiveEngineSelection::Parakeet { .. } => "parakeet",
            ActiveEngineSelection::Soniox { .. } => "soniox",
        }
    }

    /// The selected model's name.
    pub fn model_name(&self) -> (r: &str)
        ensures
            r@ == match self {
                ActiveEngineSelection::Whisper { model_name, .. } => model_name@,
                ActiveEngineSelection::Parakeet { model_name } => model_name@,
                ActiveEngineSelection::Soniox { model_name } => model_name@,
            },
    {
        match self {
            ActiveEngineSelection::Whisper { model_name, .. } => model_name.as_str(),
            ActiveEngineSelection::Parakeet { model_name } => model_name.as_str(),
            ActiveEngineSelection::Soniox { model_name } => model_name.as_str(),
        }
    }
}

// ---------------------------------------------------------------------------
// Cached license and settings
// ---------------------------------------------------------------------------

/// How long, in seconds, cached recording settings stay fresh.
pub const RECORDING_CONFIG_MAX_AGE_SECS: u64 = 300;

/// Recording-relevant settings, read from the store in one go.
#[derive(Debug)]
pub struct RecordingConfig {
    pub show_pill_widget: bool,
    pub pill_indicator_mode: String,
    pub ai_enabled: bool,
    pub ai_provider: String,
    pub ai_model: String,
    pub current_model: String,
    pub current_engine: String,
    pub language: String,
    pub translate_to_english: bool,
    pub show_recording_status: bool,
    /// When the settings were read.
    pub loaded_at: std::time::Instant,
}

/// `std::time::Instant`, carried opaquely.
#[verifier::external_type_specification]
#[verifier::external_body]
pub struct ExInstant(std::time::Instant);

/// Calls `std::time::Instant::now`; what it returns depends on the clock,
/// so nothing is stated of it.
#[verifier::external_body]
fn instant_now() -> std::time::Instant {
    std::time::Instant::now()
}

/// Calls `std::time::Instant::elapsed`; the clock decides the value, so
/// nothing is stated of it.
#[verifier::external_body]
fn instant_elapsed(since: &std::time::Instant) -> std::time::Duration {
    since.elapsed()
}

/// Calls `std::time::Duration::as_secs`, the whole seconds of a duration.
/// A duration is opaque here, so nothing is stated of the result.
#[verifier::external_body]
fn duration_secs(d: &std::time::Duration) -> u64 {
    d.as_secs()
}

/// Whether settings loaded `age_secs` whole seconds ago are still fresh.
pub fn config_age_is_fresh(age_secs: u64) -> (r: bool)
    ensures
        r == (age_secs < RECORDING_CONFIG_MAX_AGE_SECS),
{
    age_secs < RECORDING_CONFIG_MAX_AGE_SECS
}

impl RecordingConfig {
    /// The settings as loaded now.
    pub fn loaded_now(
        show_pill_widget: bool,
        pill_indicator_mode: String,
        ai_enabled: bool,
        ai_provider: String,
        ai_model: String,
        current_model: String,
        current_engine: String,
        language: String,
        translate_to_english: bool,
        show_recording_status: bool,
    ) -> (r: Self)
        ensures
            r.show_pill_widget == show_pill_widget,
            r.pill_indicator_mode == pill_indicator_mode,
            r.ai_enabled == ai_enabled,
            r.ai_provider == ai_provider,
            r.ai_model == ai_model,
            r.current_model == current_model,
            r.current_engine == current_engine,
            r.language == language,
            r.translate_to_english == translate_to_english,
            r.show_recording_status == show_recording_status,
    {
        RecordingConfig {
            show_pill_widget,
            pill_indicator_mode,
            ai_enabled,
            ai_provider,
            ai_model,
            current_model,
            current_engine,
            language,
            translate_to_english,
            show_recording_status,
            loaded_at: instant_now(),
        }
    }

    /// Whether this cache entry is still fresh (younger than five minutes).
    /// The age comes from the clock: the result is `config_age_is_fresh`
    /// of whatever age the clock reports.
    pub fn is_fresh(&self) -> (r: bool) {
        let age = instant_elapsed(&self.loaded_at);
        config_age_is_fresh(duration_secs(&age))
    }
}

/// The answer to a recording-state query.
#[derive(Debug, Clone)]
pub struct RecordingStateResponse {
    pub state: String,
    pub error: Option<String>,
}

/// The name of a recording state as the frontend knows it.
pub open spec fn state_name_spec(state: RecordingState) -> Seq<char> {
    match state {
        RecordingState::Idle => "idle"@,
        RecordingState::Starting => "starting"@,
        RecordingState::Recording => "recording"@,
        RecordingState::Stopping => "stopping"@,
        RecordingState::Transcribing => "transcribing"@,
        RecordingState::Error => "error"@,
    }
}

/// The answer for the current state: its name and no error.
pub fn recording_state_response(state: RecordingState) -> (r: RecordingStateResponse)
    ensures
        r.state@ == state_name_spec(state),
        r.error is None,
{
    let name = match state {
        RecordingState::Idle => "idle",
        RecordingState::Starting => "starting",
        RecordingState::Recording => "recording",
        RecordingState::Stopping => "stopping",
        RecordingState::Transcribing => "transcribing",
        RecordingState::Error => "error",
    };
    RecordingStateResponse { state: string_of(&chars_of(name)), error: None }
}

// ---------------------------------------------------------------------------
// Stopping and transcribing
// ---------------------------------------------------------------------------

/// Why no model can transcribe a recording: what is logged, and what the
/// user is told.
#[derive(Debug, Clone, Copy, PartialEq, Eq)]
pub struct MissingModel {
    pub log_message: &'static str,
    pub user_message: &'static str,
}

/// The Parakeet model of the settings, if it can be used: it must be chosen,
/// listed (`listed_downloaded` is `None` when the manager does not list it)
/// and downloaded.
pub fn parakeet_model(current_model: &str, listed_downloaded: Option<bool>) -> (r: Result<String, MissingModel>)
    ensures
        current_model@.len() == 0 ==> (r matches Err(m) && m.user_message@
            == "Please select a Parakeet model before recording."@ && m.log_message@ == "No Parakeet model selected"@),
        current_model@.len() > 0 && listed_downloaded is None ==> (r matches Err(m) && m.user_message@
            == "The selected Parakeet model is unavailable. Please download it again."@ && m.log_message@
            == "Selected Parakeet model is not available"@),
        current_model@.len() > 0 && listed_downloaded == Some(false) ==> (r matches Err(m) && m.user_message@
            == "Please download the selected Parakeet model before recording."@ && m.log_message@
            == "Selected Parakeet model is not downloaded"@),
        current_model@.len() > 0 && listed_downloaded == Some(true) ==> (r matches Ok(m) && m@ == current_model@),
{
    if current_model.unicode_len() == 0 {
        return Err(
            MissingModel {
                log_message: "No Parakeet model selected",
                user_message: "Please select a Parakeet model before recording.",
            },
        );
    }
    match listed_downloaded {
        Some(true) => Ok(string_of(&chars_of(current_model))),
        Some(false) => Err(
            MissingModel {
                log_message: "Selected Parakeet model is not downloaded",
                user_message: "Please download the selected Parakeet model before recording.",
            },
        ),
        None => Err(
            MissingModel {
                log_message: "Selected Parakeet model is not available",
                user_message: "The selected Parakeet model is unavailable. Please download it again.",
            },
        ),
    }
}

/// The Soniox model of the settings, if it can be used: it must be chosen
/// and a Soniox token configured.
pub fn soniox_model(current_model: &str, token_configured: bool) -> (r: Result<String, MissingModel>)
    ensures
        current_model@.len() == 0 ==> (r matches Err(m) && m.user_message@
            == "Please select the Soniox cloud model before recording."@ && m.log_message@ == "No Soniox model selected"@),
        current_model@.len() > 0 && !token_configured ==> (r matches Err(m) && m.user_message@
            == "Please configure your Soniox token in Models before recording."@ && m.log_message@
            == "Soniox token not configured"@),
        current_model@.len() > 0 && token_configured ==> (r matches Ok(m) && m@ == current_model@),
{
    if current_model.unicode_len() == 0 {
        return Err(
            MissingModel {
                log_message: "No Soniox model selected",
                user_message: "Please select the Soniox cloud model before recording.",
            },
        );
    }
    if !token_configured {
        return Err(
            MissingModel {
                log_message: "Soniox token not configured",
                user_message: "Please configure your Soniox token in Models before recording.",
            },
        );
    }
    Ok(string_of(&chars_of(current_model)))
}

/// The Whisper model chosen to transcribe, and whether it replaced the
/// configured one: the configured model when it is downloaded; otherwise
/// the best fallback (for the configured model's family, or overall when
/// none is configured). Nothing can be chosen without downloaded models.
pub fn whisper_model_choice(downloaded: &[String], configured: &str, priority: &[String]) -> (r: Result<(String, bool), MissingModel>)
    ensures
        downloaded@.len() == 0 ==> (r matches Err(m) && m.user_message@
            == "Please download at least one speech recognition model from Models to use VoiceTypr."@ && m.log_message@
            == "No speech recognition models installed"@),
        downloaded@.len() > 0 && configured@.len() > 0 && strings_contain(downloaded@, configured@) ==> (r matches Ok(
            c,
        ) && c.0@ == configured@ && !c.1),
        downloaded@.len() > 0 && configured@.len() > 0 && !strings_contain(downloaded@, configured@) ==> (r matches Ok(
            c,
        ) && c.0@ == fallback_model_spec(downloaded@, configured@, priority@) && c.1),
        downloaded@.len() > 0 && configured@.len() == 0 ==> (r matches Ok(c) && c.0@ == fallback_model_spec(
            downloaded@,
            Seq::empty(),
            priority@,
        ) && !c.1),
{
    if downloaded.len() == 0 {
        return Err(
            MissingModel {
                log_message: "No speech recognition models installed",
                user_message: "Please download at least one speech recognition model from Models to use VoiceTypr.",
            },
        );
    }
    if configured.unicode_len() > 0 {
        if contains_string_slice(downloaded, configured) {
            Ok((string_of(&chars_of(configured)), false))
        } else {
            Ok((select_best_fallback_model(downloaded, configured, priority), true))
        }
    } else {
        proof {
            assert(configured@ == Seq::<char>::empty());
        }
        Ok((select_best_fallback_model(downloaded, configured, priority), false))
    }
}

/// The language hint of a recording: none when the setting is empty.
pub fn recording_language(language: &str) -> (r: Option<String>)
    ensures
        match r {
            Some(l) => language@.len() > 0 && l@ == language@,
            None => language@.len() == 0,
        },
{
    if language.unicode_len() == 0 {
        None
    } else {
        Some(string_of(&chars_of(language)))
    }
}

/// Whether a WAV file of `len` bytes holds samples (more than its 44-byte
/// header).
pub fn wav_has_samples(len: u64) -> (r: bool)
    ensures
        r == (len > 44),
{
    len > 44
}

/// Whether a failed transcription attempt `attempt` (from 1) of at most
/// `max_attempts` is tried again.
pub fn should_retry_transcription(attempt: u32, max_attempts: u32, error: &str) -> (r: bool)
    ensures
        r == (!non_retryable_spec(error@) && attempt < max_attempts),
{
    !is_non_retryable_transcription_error(error) && attempt < max_attempts
}

/// Whether a transcript counts as no speech: blank, or a blank-audio or
/// sound marker.
pub open spec fn is_blank_transcript_spec(text: Seq<char>) -> bool {
    crate::text::trim(text).len() == 0 || text == "[BLANK_AUDIO]"@ || text == "[SOUND]"@
}

/// Whether a transcript counts as no speech.
pub fn is_blank_transcript(text: &str) -> (r: bool)
    ensures
        r == is_blank_transcript_spec(text@),
{
    crate::text::trim_chars(&chars_of(text)).len() == 0 || str_eq(text, "[BLANK_AUDIO]") || str_eq(text, "[SOUND]")
}

/// The transcripts that count as no speech are exactly: the empty text and
/// texts of whitespace only, the silence marker `[BLANK_AUDIO]` and the
/// noise marker `[SOUND]`. Any other text, a marker with surrounding
/// whitespace among them, is speech.
pub proof fn law_no_speech_transcripts(text: Seq<char>)
    ensures
        is_blank_transcript_spec(text) <==> (crate::text::all_whitespace(text) || text == "[BLANK_AUDIO]"@
            || text == "[SOUND]"@),
        is_blank_transcript_spec("[SOUND]"@),
        is_blank_transcript_spec("[BLANK_AUDIO]"@),
        is_blank_transcript_spec(Seq::empty()),
        !is_blank_transcript_spec(" [SOUND]"@),
{
    crate::text::lemma_trim_empty_iff_whitespace(text);
    crate::text::lemma_trim_empty_iff_whitespace(Seq::empty());
    crate::text::lemma_trim_empty_iff_whitespace("[SOUND]"@);
    crate::text::lemma_trim_empty_iff_whitespace("[BLANK_AUDIO]"@);
    crate::text::lemma_trim_empty_iff_whitespace(" [SOUND]"@);
    reveal_strlit(" [SOUND]");
    reveal_strlit("[SOUND]");
    reveal_strlit("[BLANK_AUDIO]");
    assert(!crate::text::is_whitespace(" [SOUND]"@[1]));
    assert(" [SOUND]"@ != "[SOUND]"@) by {
        assert(" [SOUND]"@.len() != "[SOUND]"@.len());
    }
    assert(" [SOUND]"@ != "[BLANK_AUDIO]"@) by {
        assert(" [SOUND]"@[0] != "[BLANK_AUDIO]"@[0]);
    }
}

/// Where a failed transcription goes.
#[derive(Debug, Clone, Copy, PartialEq, Eq, Structural)]
pub enum TranscriptionFailure {
    /// Cancelled: back to idle quietly.
    Cancelled,
    /// The audio was too short: its file is removed, back to idle.
    TooShort,
    /// Any other error: the error state, with a toast.
    Failed(TranscriptionFailureToast),
}

/// The toast of a failed transcription.
#[derive(Debug, Clone, Copy, PartialEq, Eq, Structural)]
pub enum TranscriptionFailureToast {
    TimedOut,
    Generic,
}

impl TranscriptionFailureToast {
    /// The toast text.
    pub fn message(&self) -> (r: &'static str)
        ensures
            r@ == match self {
                TranscriptionFailureToast::TimedOut => TRANSCRIPTION_TIMED_OUT@,
                TranscriptionFailureToast::Generic => "Transcription failed"@,
            },
    {
        match self {
            TranscriptionFailureToast::TimedOut => TRANSCRIPTION_TIMED_OUT,
            TranscriptionFailureToast::Generic => "Transcription failed",
        }
    }
}

/// Routes a transcription error by its text.
pub fn transcription_failure(error: &str) -> (r: TranscriptionFailure)
    ensures
        r == if contains_seq(error@, "cancelled"@) {
            TranscriptionFailure::Cancelled
        } else if contains_seq(error@, "too short"@) {
            TranscriptionFailure::TooShort
        } else if error@ == TRANSCRIPTION_TIMED_OUT@ {
            TranscriptionFailure::Failed(TranscriptionFailureToast::TimedOut)
        } else {
            TranscriptionFailure::Failed(TranscriptionFailureToast::Generic)
        },
{
    let e = chars_of(error);
    if contains_chars(&e, &chars_of("cancelled")) {
        TranscriptionFailure::Cancelled
    } else if contains_chars(&e, &chars_of("too short")) {
        TranscriptionFailure::TooShort
    } else if str_eq(error, TRANSCRIPTION_TIMED_OUT) {
        TranscriptionFailure::Failed(TranscriptionFailureToast::TimedOut)
    } else {
        TranscriptionFailure::Failed(TranscriptionFailureToast::Generic)
    }
}

/// What the user is told when AI formatting failed, and whether the main
/// window is asked to check the API key.
pub open spec fn formatting_failure_spec(error: Seq<char>) -> (Seq<char>, bool) {
    let bad_request = contains_seq(error, "400"@) || contains_seq(error, "Bad Request"@);
    let unauthorized = contains_seq(error, "401"@) || contains_seq(error, "Unauthorized"@);
    (
        if bad_request {
            "Formatting failed: API key missing or invalid"@
        } else if unauthorized {
            "Formatting failed: API key unauthorized"@
        } else if contains_seq(error, "429"@) {
            "Formatting failed: Rate limit exceeded"@
        } else if contains_seq(error, "network"@) || contains_seq(error, "connection"@) {
            "Formatting failed: Network error"@
        } else {
            "Formatting failed: Service unavailable"@
        },
        bad_request || unauthorized,
    )
}

/// The feedback for a failed AI formatting.
pub fn formatting_failure(error: &str) -> (r: (&'static str, bool))
    ensures
        (r.0@, r.1) == formatting_failure_spec(error@),
{
    let e = chars_of(error);
    let bad_request = contains_chars(&e, &chars_of("400")) || contains_chars(&e, &chars_of("Bad Request"));
    let unauthorized = contains_chars(&e, &chars_of("401")) || contains_chars(&e, &chars_of("Unauthorized"));
    let message = if bad_request {
        "Formatting failed: API key missing or invalid"
    } else if unauthorized {
        "Formatting failed: API key unauthorized"
    } else if contains_chars(&e, &chars_of("429")) {
        "Formatting failed: Rate limit exceeded"
    } else if contains_chars(&e, &chars_of("network")) || contains_chars(&e, &chars_of("connection")) {
        "Formatting failed: Network error"
    } else {
        "Formatting failed: Service unavailable"
    };
    (message, bad_request || unauthorized)
}

/// What the user is told when the microphone could not start.
pub fn recording_start_failure_message(error: &str) -> (r: &'static str)
    ensures
        r@ == if contains_seq(error@, "permission"@) || contains_seq(error@, "access"@) {
            "Microphone permission denied"@
        } else if contains_seq(error@, "device"@) || contains_seq(error@, "not found"@) {
            "No microphone found"@
        } else if contains_seq(error@, "in use"@) || contains_seq(error@, "busy"@) {
            "Microphone busy"@
        } else {
            "Recording failed"@
        },
{
    let e = chars_of(error);
    if contains_chars(&e, &chars_of("permission")) || contains_chars(&e, &chars_of("access")) {
        "Microphone permission denied"
    } else if contains_chars(&e, &chars_of("device")) || contains_chars(&e, &chars_of("not found")) {
        "No microphone found"
    } else if contains_chars(&e, &chars_of("in use")) || contains_chars(&e, &chars_of("busy")) {
        "Microphone busy"
    } else {
        "Recording failed"
    }
}

/// Why no engine can record: the error returned, and the message shown.
pub fn no_engine_error(soniox_selected: bool, soniox_ready: bool) -> (r: (&'static str, &'static str))
    ensures
        soniox_selected && !soniox_ready ==> r.0@ == "Soniox token missing"@ && r.1@
            == "Please configure your Soniox token in Models before recording."@,
        !(soniox_selected && !soniox_ready) ==> r.0@
            == "No speech recognition models installed. Please download a model first."@ && r.1@
            == "Please download at least one model from Models before recording."@,
{
    if soniox_selected && !soniox_ready {
        ("Soniox token missing", "Please configure your Soniox token in Models before recording.")
    } else {
        (
            "No speech recognition models installed. Please download a model first.",
            "Please download at least one model from Models before recording.",
        )
    }
}


// ---------------------------------------------------------------------------
// Engine of a model
// ---------------------------------------------------------------------------

/// The engine name and model path of a selection (the path is empty for
/// engines without one).
pub open spec fn selection_view(s: ActiveEngineSelection) -> (Seq<char>, Seq<char>, Seq<char>) {
    match s {
        ActiveEngineSelection::Whisper { model_name, model_path } => ("whisper"@, model_name@, model_path@),
        ActiveEngineSelection::Parakeet { model_name } => ("parakeet"@, model_name@, Seq::empty()),
        ActiveEngineSelection::Soniox { model_name } => ("soniox"@, model_name@, Seq::empty()),
    }
}

/// The error of a Soniox selection without a token.
pub open spec fn soniox_token_missing_msg() -> Seq<char> {
    "Soniox token not configured. Please configure it in Models."@
}

/// Which engine runs `model`: `hint` is the (lowercased) engine the caller
/// named, if any; `soniox_token` whether a Soniox token is stored;
/// `whisper_path` the Whisper registry's file for `model`; and
/// `parakeet_downloaded` whether the Parakeet registry lists `model` as
/// downloaded (`None` when it does not list it). The result is the engine
/// name, the model and the model path, or the error.
pub open spec fn engine_selection_spec(
    model: Seq<char>,
    hint: Option<Seq<char>>,
    soniox_token: bool,
    whisper_path: Option<Seq<char>>,
    parakeet_downloaded: Option<bool>,
) -> Result<(Seq<char>, Seq<char>, Seq<char>), Seq<char>> {
    match hint {
        Some(e) => if e == "soniox"@ {
            if soniox_token {
                Ok(("soniox"@, model, Seq::empty()))
            } else {
                Err(soniox_token_missing_msg())
            }
        } else if e == "parakeet"@ {
            match parakeet_downloaded {
                Some(true) => Ok(("parakeet"@, model, Seq::empty())),
                Some(false) => Err("Parakeet model '"@ + model + "' is not downloaded. Please download it first."@),
                None => Err("Parakeet model '"@ + model + "' not found in registry."@),
            }
        } else if e == "whisper"@ || e == "whisper.cpp"@ {
            match whisper_path {
                Some(p) => Ok(("whisper"@, model, p)),
                None => Err("Whisper model '"@ + model + "' not found"@),
            }
        } else {
            Err("Unknown model engine '"@ + e + "'."@)
        },
        None => if model == "soniox"@ {
            if soniox_token {
                Ok(("soniox"@, model, Seq::empty()))
            } else {
                Err(soniox_token_missing_msg())
            }
        } else {
            match whisper_path {
                Some(p) => Ok(("whisper"@, model, p)),
                None => match parakeet_downloaded {
                    Some(true) => Ok(("parakeet"@, model, Seq::empty())),
                    Some(false) => Err(
                        "Model '"@ + model + "' is a Parakeet model but not downloaded. Please download it first."@,
                    ),
                    None => Err("Model '"@ + model + "' not found in Whisper or Parakeet registries"@),
                },
            }
        },
    }
}

/// Whether `r` is the selection or error that `spec` describes.
pub open spec fn selection_matches(
    r: Result<ActiveEngineSelection, String>,
    spec: Result<(Seq<char>, Seq<char>, Seq<char>), Seq<char>>,
) -> bool {
    match r {
        Ok(sel) => spec == Ok::<(Seq<char>, Seq<char>, Seq<char>), Seq<char>>(selection_view(sel)),
        Err(e) => spec == Err::<(Seq<char>, Seq<char>, Seq<char>), Seq<char>>(e@),
    }
}

fn soniox_selection(model_name: &str, soniox_token: bool) -> (r: Result<ActiveEngineSelection, String>)
    ensures
        soniox_token ==> (r matches Ok(ActiveEngineSelection::Soniox { model_name: m }) && m@ == model_name@),
        !soniox_token ==> (r matches Err(e) && e@ == soniox_token_missing_msg()),
{
    if soniox_token {
        Ok(ActiveEngineSelection::Soniox { model_name: string_of(&chars_of(model_name)) })
    } else {
        Err(string_of(&chars_of("Soniox token not configured. Please configure it in Models.")))
    }
}

fn whisper_selection(model_name: &str, p: String) -> (r: ActiveEngineSelection)
    ensures
        selection_view(r) == ("whisper"@, model_name@, p@),
{
    ActiveEngineSelection::Whisper { model_name: string_of(&chars_of(model_name)), model_path: p }
}

/// Selects the engine of `model_name` given the lowercased engine hint and
/// what the registries report (see `engine_selection_spec`).
pub fn engine_selection(
    model_name: &str,
    hint: Option<&str>,
    soniox_token: bool,
    whisper_path: Option<String>,
    parakeet_downloaded: Option<bool>,
) -> (r: Result<ActiveEngineSelection, String>)
    ensures
        selection_matches(
            r,
            engine_selection_spec(
                model_name@,
                match hint {
                    Some(h) => Some(h@),
                    None => None,
                },
                soniox_token,
                match whisper_path {
                    Some(p) => Some(p@),
                    None => None,
                },
                parakeet_downloaded,
            ),
        ),
{
    match hint {
        Some(e) => {
            if str_eq(e, "soniox") {
                soniox_selection(model_name, soniox_token)
            } else if str_eq(e, "parakeet") {
                match parakeet_downloaded {
                    Some(true) => Ok(ActiveEngineSelection::Parakeet { model_name: string_of(&chars_of(model_name)) }),
                    Some(false) => Err(concat3("Parakeet model '", model_name, "' is not downloaded. Please download it first.")),
                    None => Err(concat3("Parakeet model '", model_name, "' not found in registry.")),
                }
            } else if str_eq(e, "whisper") || str_eq(e, "whisper.cpp") {
                match whisper_path {
                    Some(p) => Ok(whisper_selection(model_name, p)),
                    None => Err(concat3("Whisper model '", model_name, "' not found")),
                }
            } else {
                Err(concat3("Unknown model engine '", e, "'."))
            }
        },
        None => {
            if str_eq(model_name, "soniox") {
                return soniox_selection(model_name, soniox_token);
            }
            match whisper_path {
                Some(p) => Ok(whisper_selection(model_name, p)),
                None => match parakeet_downloaded {
                    Some(true) => Ok(ActiveEngineSelection::Parakeet { model_name: string_of(&chars_of(model_name)) }),
                    Some(false) => Err(
                        concat3("Model '", model_name, "' is a Parakeet model but not downloaded. Please download it first."),
                    ),
                    None => Err(concat3("Model '", model_name, "' not found in Whisper or Parakeet registries")),
                },
            }
        },
    }
}

/// Resolves the engine of `model_name`: the hint, when given, is compared
/// in lowercase (`str::to_lowercase`); see `engine_selection`.
pub fn resolve_engine_for_model(
    model_name: &str,
    engine_hint: Option<&str>,
    soniox_token: bool,
    whisper_path: Option<String>,
    parakeet_downloaded: Option<bool>,
) -> (r: Result<ActiveEngineSelection, String>)
    ensures
        selection_matches(
            r,
            engine_selection_spec(
                model_name@,
                match engine_hint {
                    Some(h) => Some(lowercase_of(h@)),
                    None => None,
                },
                soniox_token,
                match whisper_path {
                    Some(p) => Some(p@),
                    None => None,
                },
                parakeet_downloaded,
            ),
        ),
{
    match engine_hint {
        Some(h) => {
            let lower = to_lowercase(h);
            engine_selection(model_name, Some(lower.as_str()), soniox_token, whisper_path, parakeet_downloaded)
        },
        None => engine_selection(model_name, None, soniox_token, whisper_path, parakeet_downloaded),
    }
}


// ---------------------------------------------------------------------------
// Cancelling
// ---------------------------------------------------------------------------

/// What a cancellation does besides stopping the recorder.
#[derive(Debug, Clone)]
pub struct CancelPlan {
    /// Abort the transcription task. Not while a CPU Whisper decode runs:
    /// that task observes the cancellation and stops cooperatively.
    pub abort_transcription_task: bool,
    /// Abort the GPU decoder process (a transcription is running).
    pub abort_gpu_process: bool,
    /// The state changes to announce, in order, with their error text.
    pub transitions: Vec<(RecordingState, Option<String>)>,
}

/// The plan of a cancellation in `state`, `cpu_decode_in_flight` telling
/// whether a CPU Whisper decode runs: a recording passes through Stopping,
/// a transcription through Error ("Transcription cancelled"), and every
/// cancellation ends Idle.
pub fn cancel_plan(state: RecordingState, cpu_decode_in_flight: bool) -> (r: CancelPlan)
    ensures
        r.abort_transcription_task == !(state == RecordingState::Transcribing && cpu_decode_in_flight),
        r.abort_gpu_process == (state == RecordingState::Transcribing),
        r.transitions@.len() > 0,
        r.transitions@.last() == (RecordingState::Idle, None::<String>),
        state == RecordingState::Recording ==> r.transitions@.len() == 2 && r.transitions@[0] == (
            RecordingState::Stopping,
            None::<String>,
        ),
        state == RecordingState::Transcribing ==> r.transitions@.len() == 2 && r.transitions@[0].0
            == RecordingState::Error && (r.transitions@[0].1 matches Some(m) && m@ == "Transcription cancelled"@),
        state != RecordingState::Recording && state != RecordingState::Transcribing ==> r.transitions@.len() == 1,
{
    let transcribing = state == RecordingState::Transcribing;
    let mut transitions: Vec<(RecordingState, Option<String>)> = Vec::new();
    match state {
        RecordingState::Recording => {
            transitions.push((RecordingState::Stopping, None));
        },
        RecordingState::Transcribing => {
            transitions.push((RecordingState::Error, Some(string_of(&chars_of("Transcription cancelled")))));
        },
        _ => {},
    }
    transitions.push((RecordingState::Idle, None));
    CancelPlan {
        abort_transcription_task: !(transcribing && cpu_decode_in_flight),
        abort_gpu_process: transcribing,
        transitions,
    }
}

// ---------------------------------------------------------------------------
// Saving a transcription
// ---------------------------------------------------------------------------

/// Whether `i` is the position of a greatest key.
pub open spec fn is_latest(keys: Seq<String>, i: int) -> bool {
    0 <= i < keys.len() && forall|j: int| 0 <= j < keys.len() ==> seq_le(#[trigger] keys[j]@, keys[i]@)
}

/// The position of the greatest key (the first of equal ones), or `None`
/// when there is none: transcriptions are keyed by timestamp, so this is
/// the most recent one.
pub fn latest_transcription_key(keys: &Vec<String>) -> (r: Option<usize>)
    ensures
        match r {
            Some(i) => is_latest(keys@, i as int) && forall|j: int| 0 <= j < i ==> !seq_le(
                keys@[i as int]@,
                #[trigger] keys@[j]@,
            ),
            None => keys@.len() == 0,
        },
{
    if keys.len() == 0 {
        return None;
    }
    let mut best: usize = 0;
    let mut i: usize = 1;
    proof {
        lemma_seq_le_total(keys@[0]@, keys@[0]@);
    }
    while i < keys.len()
        invariant
            1 <= i <= keys@.len(),
            best < i,
            forall|j: int| 0 <= j < i ==> seq_le(#[trigger] keys@[j]@, keys@[best as int]@),
            forall|j: int| 0 <= j < best ==> !seq_le(keys@[best as int]@, #[trigger] keys@[j]@),
        decreases keys@.len() - i,
    {
        if !chars_le(&chars_of(keys[i].as_str()), &chars_of(keys[best].as_str())) {
            proof {
                lemma_seq_le_total(keys@[i as int]@, keys@[best as int]@);
                assert forall|j: int| 0 <= j < i + 1 implies seq_le(#[trigger] keys@[j]@, keys@[i as int]@) by {
                    if j < i {
                        lemma_seq_le_trans(keys@[j]@, keys@[best as int]@, keys@[i as int]@);
                    } else {
                        lemma_seq_le_total(keys@[i as int]@, keys@[i as int]@);
                    }
                }
                assert forall|j: int| 0 <= j < i implies !seq_le(keys@[i as int]@, #[trigger] keys@[j]@) by {
                    if seq_le(keys@[i as int]@, keys@[j]@) {
                        lemma_seq_le_trans(keys@[i as int]@, keys@[j]@, keys@[best as int]@);
                    }
                }
            }
            best = i;
        }
        i += 1;
    }
    Some(best)
}

/// The keys listed newest first (greatest first).
pub open spec fn keys_newest_first(keys: Seq<String>) -> bool {
    forall|i: int, j: int| 0 <= i < j < keys.len() ==> seq_le((#[trigger] keys[j])@, (#[trigger] keys[i])@)
}

/// The transcription history: the keys newest first, at most `limit` of
/// them (50 by default).
pub fn transcription_history_keys(keys: Vec<String>, limit: Option<usize>) -> (r: Vec<String>)
    ensures
        keys_newest_first(r@),
        r@.len() == vstd::math::min(
            keys@.len() as int,
            match limit {
                Some(l) => l as int,
                None => 50,
            },
        ),
        forall|k: int| 0 <= k < r@.len() ==> keys@.contains(#[trigger] r@[k]),
        keys@.len() <= match limit {
            Some(l) => l as int,
            None => 50,
        } ==> r@.to_multiset() == keys@.to_multiset(),
        forall|k: int, j: int| 0 <= k < r@.len() && 0 <= j < keys@.len() && !r@.contains(keys@[j]) ==> seq_le(
            (#[trigger] keys@[j])@,
            (#[trigger] r@[k])@,
        ),
{
    broadcast use vstd::seq_lib::group_to_multiset_ensures;

    let limit: usize = match limit {
        Some(l) => l,
        None => 50,
    };
    let mut out: Vec<String> = Vec::new();
    let mut rest = keys;
    let ghost orig = rest@;
    let ghost mut done: Seq<String> = Seq::empty();
    while rest.len() > 0
        invariant
            orig == done + rest@,
            keys_newest_first(out@),
            out@.to_multiset() == done.to_multiset(),
        decreases rest@.len(),
    {
        let x = rest.remove(0);
        let xc = chars_of(x.as_str());
        let mut p: usize = 0;
        while p < out.len() && chars_le(&xc, &chars_of(out[p].as_str()))
            invariant
                p <= out@.len(),
                xc@ == x@,
                forall|k: int| 0 <= k < p ==> seq_le(x@, (#[trigger] out@[k])@),
            decreases out@.len() - p,
        {
            p += 1;
        }
        proof {
            if p < out@.len() {
                lemma_seq_le_total(x@, out@[p as int]@);
            }
        }
        let ghost before = out@;
        out.insert(p, x);
        proof {
            assert forall|i: int, j: int| 0 <= i < j < out@.len() implies seq_le(
                (#[trigger] out@[j])@,
                (#[trigger] out@[i])@,
            ) by {
                if j < p {
                    assert(out@[i] == before[i] && out@[j] == before[j]);
                } else if j == p {
                    assert(out@[i] == before[i]);
                } else if i == p {
                    assert(out@[j] == before[j - 1]);
                    if p < before.len() {
                        if j - 1 > p {
                            lemma_seq_le_trans(before[j - 1]@, before[p as int]@, x@);
                        }
                    }
                } else if i < p {
                    assert(out@[i] == before[i] && out@[j] == before[j - 1]);
                } else {
                    assert(out@[i] == before[i - 1] && out@[j] == before[j - 1]);
                }
            }
            vstd::seq_lib::to_multiset_insert(before, p as int, x);
            vstd::seq_lib::to_multiset_build(done, x);
            assert(orig == done.push(x) + rest@);
            done = done.push(x);
        }
    }
    assert(done == orig);
    let ghost sorted = out@;
    proof {
        assert(sorted.to_multiset().len() == sorted.len());
        assert(orig.to_multiset().len() == orig.len());
        assert(sorted.len() == orig.len());
        assert forall|k: int| 0 <= k < sorted.len() implies orig.contains(#[trigger] sorted[k]) by {
            assert(sorted.to_multiset().count(sorted[k]) > 0);
        }
        assert forall|j: int| 0 <= j < orig.len() implies sorted.contains(#[trigger] orig[j]) by {
            assert(orig.to_multiset().count(orig[j]) > 0);
        }
    }
    out.truncate(limit);
    proof {
        if limit <= sorted.len() {
            assert(out@ == sorted.subrange(0, limit as int));
        } else {
            assert(out@ == sorted);
        }
        assert forall|k: int, j: int| 0 <= k < out@.len() && 0 <= j < orig.len() && !out@.contains(orig[j]) implies seq_le(
            (#[trigger] orig[j])@,
            (#[trigger] out@[k])@,
        ) by {
            let m = choose|m: int| 0 <= m < sorted.len() && sorted[m] == orig[j];
            if m < out@.len() {
                assert(out@[m] == sorted[m]);
                assert(out@.contains(orig[j]));
            }
            assert(out@[k] == sorted[k]);
        }
        if orig.len() <= limit {
            assert(out@ =~= sorted);
        }
    }
    out
}

/// Whether a save repeats the most recent transcription: same text and
/// model, stored within two seconds (`age_secs` is the distance between its
/// timestamp and now, `None` when the timestamp does not parse).
pub fn is_duplicate_transcription(
    latest_text: Option<&str>,
    latest_model: Option<&str>,
    age_secs: Option<u64>,
    text: &str,
    model: &str,
) -> (r: bool)
    ensures
        r == ((latest_text matches Some(t) && t@ == text@) && (latest_model matches Some(m) && m@ == model@) && (
        age_secs matches Some(a) && a <= 2)),
{
    let same_text = match latest_text {
        Some(t) => str_eq(t, text),
        None => false,
    };
    let same_model = match latest_model {
        Some(m) => str_eq(m, model),
        None => false,
    };
    let recent = match age_secs {
        Some(a) => a <= 2,
        None => false,
    };
    same_text && same_model && recent
}


// ---------------------------------------------------------------------------
// Starting
// ---------------------------------------------------------------------------

/// Why a validated start must not go on, if it must not: a CPU Whisper
/// decode of the previous recording still runs, or (push-to-talk) the key
/// was released while the start was being validated.
pub fn start_blocked_reason(cpu_decode_in_flight: bool, ptt_released: bool) -> (r: Option<&'static str>)
    ensures
        cpu_decode_in_flight ==> r == Some(PREVIOUS_TRANSCRIPTION_STOPPING),
        !cpu_decode_in_flight && ptt_released ==> r == Some(PTT_START_ABORTED_AFTER_RELEASE),
        !cpu_decode_in_flight && !ptt_released ==> r is None,
{
    if cpu_decode_in_flight {
        Some(PREVIOUS_TRANSCRIPTION_STOPPING)
    } else if ptt_released {
        Some(PTT_START_ABORTED_AFTER_RELEASE)
    } else {
        None
    }
}

/// The file a recording started at `timestamp` (seconds since the epoch)
/// is written to, inside the recordings directory.
pub fn recording_file_name(timestamp: u64) -> (r: String)
    ensures
        r@ == "recording_"@ + decimal(timestamp as nat) + ".wav"@,
{
    let v = concat(&chars_of("recording_"), &decimal_chars(timestamp));
    string_of(&concat(&v, &chars_of(".wav")))
}


// ---------------------------------------------------------------------------
// GPU acceleration
// ---------------------------------------------------------------------------

/// Whether a transcription first tries the GPU decoder, given the
/// acceleration mode (`cpu`, `gpu` or `auto`) and what the decoder reported
/// about the GPU: never in `cpu` mode, always in `gpu` mode, and otherwise
/// unless the GPU is known to be unavailable.
pub fn should_try_gpu(mode: &str, gpu_available: Option<bool>) -> (r: bool)
    ensures
        r == (mode@ != "cpu"@ && (mode@ == "gpu"@ || gpu_available != Some(false))),
{
    !str_eq(mode, "cpu") && (str_eq(mode, "gpu") || gpu_available != Some(false))
}

/// What follows a failed GPU decode.
#[derive(Debug, Clone, Copy, PartialEq, Eq)]
pub enum GpuFailure {
    /// The transcription was cancelled: stop the decoder and give up.
    Cancelled,
    /// Fall back to the CPU, telling the user when they asked for the GPU.
    FallBackToCpu { toast: Option<&'static str> },
}

/// The message shown when the GPU was asked for and could not be used.
pub const GPU_UNAVAILABLE_TOAST: &'static str =
    "GPU acceleration is unavailable. Using CPU mode for this transcription.";

/// The step after the GPU decoder failed with `error` in acceleration mode
/// `mode`.
pub fn gpu_failure_step(mode: &str, error: &str) -> (r: GpuFailure)
    ensures
        error@ == "Transcription cancelled"@ ==> r == GpuFailure::Cancelled,
        error@ != "Transcription cancelled"@ ==> r == (GpuFailure::FallBackToCpu {
            toast: if mode@ == "gpu"@ {
                Some(GPU_UNAVAILABLE_TOAST)
            } else {
                None
            },
        }),
{
    if str_eq(error, "Transcription cancelled") {
        GpuFailure::Cancelled
    } else if str_eq(mode, "gpu") {
        GpuFailure::FallBackToCpu { toast: Some(GPU_UNAVAILABLE_TOAST) }
    } else {
        GpuFailure::FallBackToCpu { toast: None }
    }
}


// ---------------------------------------------------------------------------
// Transcription timestamps
// ---------------------------------------------------------------------------

/// The instant an RFC 3339 timestamp names, as whole seconds since the Unix
/// epoch and the nanoseconds past them, as `chrono` parses it; `None` when
/// it does not parse.
pub uninterp spec fn rfc3339_instant(s: Seq<char>) -> Option<(i64, u32)>;

/// Calls `chrono::DateTime::parse_from_rfc3339` and reads the result's
/// `timestamp` and `timestamp_subsec_nanos`. The contract names the result.
#[verifier::external_body]
fn parse_rfc3339(s: &str) -> (r: Option<(i64, u32)>)
    ensures
        r == rfc3339_instant(s@),
{
    match chrono::DateTime::parse_from_rfc3339(s) {
        Ok(t) => Some((t.timestamp(), t.timestamp_subsec_nanos())),
        Err(_) => None,
    }
}

/// Whether instant `a` comes before instant `b`.
pub open spec fn instant_before(a: (i64, u32), b: (i64, u32)) -> bool {
    a.0 < b.0 || (a.0 == b.0 && a.1 < b.1)
}

/// Whether the transcription keyed `key` is older than `cutoff`: its key
/// parses as a timestamp before it.
pub open spec fn transcription_expired(key: Seq<char>, cutoff: (i64, u32)) -> bool {
    rfc3339_instant(key) matches Some(t) && instant_before(t, cutoff)
}

/// The keys of the transcriptions older than `cutoff` (keys that are not
/// timestamps are kept), in order.
pub fn expired_transcription_keys(keys: &Vec<String>, cutoff: (i64, u32)) -> (r: Vec<String>)
    ensures
        r@.map_values(|k: String| k@) == keys@.map_values(|k: String| k@).filter(
            |k: Seq<char>| transcription_expired(k, cutoff),
        ),
{
    broadcast use Seq::lemma_filter_push;

    let ghost pred = |k: Seq<char>| transcription_expired(k, cutoff);
    let ghost views = keys@.map_values(|k: String| k@);
    let mut r: Vec<String> = Vec::new();
    let mut i: usize = 0;
    while i < keys.len()
        invariant
            i <= keys@.len(),
            views == keys@.map_values(|k: String| k@),
            pred == (|k: Seq<char>| transcription_expired(k, cutoff)),
            r@.map_values(|k: String| k@) == views.take(i as int).filter(pred),
        decreases keys@.len() - i,
    {
        proof {
            assert(views.take(i + 1) == views.take(i as int).push(keys@[i as int]@));
        }
        let expired = match parse_rfc3339(keys[i].as_str()) {
            Some(t) => t.0 < cutoff.0 || (t.0 == cutoff.0 && t.1 < cutoff.1),
            None => false,
        };
        proof {
            assert(expired == pred(keys@[i as int]@));
            views.take(i as int).lemma_filter_push(keys@[i as int]@, pred);
        }
        if expired {
            r.push(string_of(&chars_of(keys[i].as_str())));
            proof {
                assert(r@.map_values(|k: String| k@) =~= views.take(i as int).filter(pred).push(keys@[i as int]@));
            }
        }
        i += 1;
    }
    proof {
        assert(views.take(keys@.len() as int) == views);
    }
    r
}

/// The whole seconds between two instants, truncated toward zero, without
/// sign.
pub open spec fn whole_seconds_apart(a: (i64, u32), b: (i64, u32)) -> int {
    let nanos = (a.0 - b.0) * 1_000_000_000 + (a.1 - b.1);
    let secs = if nanos >= 0 {
        nanos / 1_000_000_000
    } else {
        -((-nanos) / 1_000_000_000)
    };
    if secs >= 0 {
        secs
    } else {
        -secs
    }
}

/// How many whole seconds lie between the transcription keyed `key` and
/// `now` (either way, at most `u64::MAX`), or `None` when the key is not a
/// timestamp.
pub fn transcription_age_secs(key: &str, now: (i64, u32)) -> (r: Option<u64>)
    ensures
        match rfc3339_instant(key@) {
            Some(t) => r matches Some(a) && a == vstd::math::min(whole_seconds_apart(t, now), u64::MAX as int),
            None => r is None,
        },
{
    match parse_rfc3339(key) {
        None => None,
        Some(t) => {
            let nanos: i128 = (t.0 as i128 - now.0 as i128) * 1_000_000_000 + (t.1 as i128 - now.1 as i128);
            let secs: i128 = if nanos >= 0 {
                nanos / 1_000_000_000
            } else {
                -((-nanos) / 1_000_000_000)
            };
            let abs: i128 = if secs >= 0 {
                secs
            } else {
                -secs
            };
            if abs > u64::MAX as i128 {
                Some(u64::MAX)
            } else {
                Some(abs as u64)
            }
        },
    }
}

} // verus!
