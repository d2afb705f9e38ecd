//! Custom shortcut bindings: what each action is, which trigger it may use,
//! how conflicting bindings are detected, and how press and release events
//! of registered shortcuts turn into actions.
use vstd::prelude::*;
use crate::key_normalizer::{normalize_shortcut_keys, normalized_shortcut};
use crate::text::{chars_of, concat, str_eq, string_of, strings_contain};

verus! {

broadcast use vstd::string::group_string_axioms;

/// The actions a custom shortcut can run.
#[derive(Debug, Clone, Copy, PartialEq, Eq, Structural)]
pub enum ShortcutAction {
    ToggleRecording,
    HoldToRecord,
    CancelRecording,
    CopyLastTranscription,
    PasteLastTranscription,
    CycleFormattingMode,
    ToggleAiFormatting,
    SetPersonalDictation,
    SetCleanDictation,
    SetWriting,
    SetNotes,
    SetMessage,
    SetCode,
    OpenDashboard,
}

/// When a shortcut fires: on press, or while held.
#[derive(Debug, Clone, Copy, PartialEq, Eq, Structural)]
pub enum ShortcutTrigger {
    Pressed,
    Hold,
}

/// How a binding is triggered. `Combo` (the default) is a key combination
/// registered with the global shortcut registry; the other kinds are
/// recognised by the native trigger engine.
#[derive(Debug, Clone, Copy, PartialEq, Eq, Structural)]
pub enum TriggerKind {
    Combo,
    ModifierHold,
    DoubleTap,
    IsolatedTap,
}

impl Default for TriggerKind {
    fn default() -> (r: Self)
        ensures
            r == TriggerKind::Combo,
    {
        TriggerKind::Combo
    }
}

/// A side-specific modifier for native bindings.
#[derive(Debug, Clone, Copy, PartialEq, Eq, Structural)]
pub struct ModifierSpec {
    pub modifier: ModifierKind,
    pub side: SideKind,
}

#[derive(Debug, Clone, Copy, PartialEq, Eq, Structural)]
pub enum ModifierKind {
    Alt,
    Control,
    Meta,
    Shift,
}

#[derive(Debug, Clone, Copy, PartialEq, Eq, Structural)]
pub enum SideKind {
    Left,
    Right,
    Either,
}

/// One user-defined shortcut.
#[derive(Debug, Clone, PartialEq, Eq)]
pub struct ShortcutBinding {
    pub id: String,
    pub action: ShortcutAction,
    pub shortcut: String,
    pub trigger: ShortcutTrigger,
    pub enabled: bool,
    pub allow_risky_combo: bool,
    pub trigger_kind: TriggerKind,
    pub modifier: Option<ModifierSpec>,
    pub double_tap_ms: Option<u64>,
}

/// All custom shortcut bindings.
#[derive(Debug, Clone, PartialEq, Eq)]
pub struct ShortcutSettings {
    pub bindings: Vec<ShortcutBinding>,
}

impl Default for ShortcutSettings {
    fn default() -> (r: Self)
        ensures
            r.bindings@.len() == 0,
    {
        ShortcutSettings { bindings: Vec::new() }
    }
}

/// How an action is presented in the shortcut editor.
#[derive(Debug, Clone)]
pub struct ShortcutActionDefinition {
    pub action: ShortcutAction,
    pub label: &'static str,
    pub description: &'static str,
    pub section: &'static str,
    pub recommended_trigger: ShortcutTrigger,
    pub allows_single_key: bool,
}

/// The app-wide recording hotkeys that custom bindings must not repeat.
#[derive(Debug, Clone)]
pub struct ExistingShortcutStrings {
    pub primary_hotkey: Option<String>,
    pub ptt_hotkey: Option<String>,
}

impl Default for ExistingShortcutStrings {
    fn default() -> (r: Self)
        ensures
            r.primary_hotkey is None,
            r.ptt_hotkey is None,
    {
        ExistingShortcutStrings { primary_hotkey: None, ptt_hotkey: None }
    }
}

/// The formatting presets of AI enhancement.
#[derive(Debug, Clone, Copy, PartialEq, Eq, Structural)]
pub enum EnhancementPreset {
    PersonalDictation,
    CleanDictation,
    Writing,
    Notes,
    Message,
    Code,
}

/// The preset that a "set formatting" action selects.
pub open spec fn action_preset_spec(action: ShortcutAction) -> Option<EnhancementPreset> {
    match action {
        ShortcutAction::SetPersonalDictation => Some(EnhancementPreset::PersonalDictation),
        ShortcutAction::SetCleanDictation => Some(EnhancementPreset::CleanDictation),
        ShortcutAction::SetWriting => Some(EnhancementPreset::Writing),
        ShortcutAction::SetNotes => Some(EnhancementPreset::Notes),
        ShortcutAction::SetMessage => Some(EnhancementPreset::Message),
        ShortcutAction::SetCode => Some(EnhancementPreset::Code),
        _ => None,
    }
}

/// The preset that a "set formatting" action selects; `None` for other
/// actions.
pub fn action_preset(action: ShortcutAction) -> (r: Option<EnhancementPreset>)
    ensures
        r == action_preset_spec(action),
{
    match action {
        ShortcutAction::SetPersonalDictation => Some(EnhancementPreset::PersonalDictation),
        ShortcutAction::SetCleanDictation => Some(EnhancementPreset::CleanDictation),
        ShortcutAction::SetWriting => Some(EnhancementPreset::Writing),
        ShortcutAction::SetNotes => Some(EnhancementPreset::Notes),
        ShortcutAction::SetMessage => Some(EnhancementPreset::Message),
        ShortcutAction::SetCode => Some(EnhancementPreset::Code),
        _ => None,
    }
}

/// The preset after `p` in the formatting cycle.
pub open spec fn next_preset_spec(p: EnhancementPreset) -> EnhancementPreset {
    match p {
        EnhancementPreset::PersonalDictation => EnhancementPreset::CleanDictation,
        EnhancementPreset::CleanDictation => EnhancementPreset::Writing,
        EnhancementPreset::Writing => EnhancementPreset::Notes,
        EnhancementPreset::Notes => EnhancementPreset::Message,
        EnhancementPreset::Message => EnhancementPreset::Code,
        EnhancementPreset::Code => EnhancementPreset::PersonalDictation,
    }
}

/// The preset that cycling the formatting mode moves to from `current`.
pub fn next_formatting_preset(current: EnhancementPreset) -> (r: EnhancementPreset)
    ensures
        r == next_preset_spec(current),
{
    match current {
        EnhancementPreset::PersonalDictation => EnhancementPreset::CleanDictation,
        EnhancementPreset::CleanDictation => EnhancementPreset::Writing,
        EnhancementPreset::Writing => EnhancementPreset::Notes,
        EnhancementPreset::Notes => EnhancementPreset::Message,
        EnhancementPreset::Message => EnhancementPreset::Code,
        EnhancementPreset::Code => EnhancementPreset::PersonalDictation,
    }
}

/// The preset a stored preset name stands for: the current names, the
/// retired names of the code preset, and personal dictation for anything
/// else.
pub open spec fn preset_from_name_spec(name: Seq<char>) -> EnhancementPreset {
    if name == "PersonalDictation"@ {
        EnhancementPreset::PersonalDictation
    } else if name == "CleanDictation"@ {
        EnhancementPreset::CleanDictation
    } else if name == "Writing"@ {
        EnhancementPreset::Writing
    } else if name == "Notes"@ {
        EnhancementPreset::Notes
    } else if name == "Message"@ {
        EnhancementPreset::Message
    } else if name == "Code"@ || name == "Coding"@ || name == "Prompts"@ || name == "Commit"@ {
        EnhancementPreset::Code
    } else {
        EnhancementPreset::PersonalDictation
    }
}

/// Reads a stored preset name.
pub fn preset_from_name(name: &str) -> (r: EnhancementPreset)
    ensures
        r == preset_from_name_spec(name@),
{
    if str_eq(name, "PersonalDictation") {
        EnhancementPreset::PersonalDictation
    } else if str_eq(name, "CleanDictation") {
        EnhancementPreset::CleanDictation
    } else if str_eq(name, "Writing") {
        EnhancementPreset::Writing
    } else if str_eq(name, "Notes") {
        EnhancementPreset::Notes
    } else if str_eq(name, "Message") {
        EnhancementPreset::Message
    } else if str_eq(name, "Code") || str_eq(name, "Coding") || str_eq(name, "Prompts") || str_eq(name, "Commit") {
        EnhancementPreset::Code
    } else {
        EnhancementPreset::PersonalDictation
    }
}

/// The formatting cycle returns to its start after six steps and visits six
/// different presets (all of them) on the way.
pub proof fn law_formatting_cycle_period(p: EnhancementPreset)
    ensures
        iterate_next(p, 6) == p,
        forall|i: nat, j: nat| #![trigger iterate_next(p, i), iterate_next(p, j)] i < j < 6 ==> iterate_next(p, i)
            != iterate_next(p, j),
{
    reveal_with_fuel(iterate_next, 7);
}

/// Each "set formatting" action selects the preset of its own name, so
/// every preset has exactly one action that selects it; the other actions
/// select none.
pub proof fn law_set_actions_select_their_presets(a: ShortcutAction, b: ShortcutAction, p: EnhancementPreset)
    ensures
        action_preset_spec(ShortcutAction::SetPersonalDictation) == Some(EnhancementPreset::PersonalDictation),
        action_preset_spec(ShortcutAction::SetCleanDictation) == Some(EnhancementPreset::CleanDictation),
        action_preset_spec(ShortcutAction::SetWriting) == Some(EnhancementPreset::Writing),
        action_preset_spec(ShortcutAction::SetNotes) == Some(EnhancementPreset::Notes),
        action_preset_spec(ShortcutAction::SetMessage) == Some(EnhancementPreset::Message),
        action_preset_spec(ShortcutAction::SetCode) == Some(EnhancementPreset::Code),
        action_preset_spec(a) is Some && action_preset_spec(a) == action_preset_spec(b) ==> a == b,
        exists|c: ShortcutAction| action_preset_spec(c) == Some(p),
        action_preset_spec(a) is None <==> !(a == ShortcutAction::SetPersonalDictation || a
            == ShortcutAction::SetCleanDictation || a == ShortcutAction::SetWriting || a == ShortcutAction::SetNotes
            || a == ShortcutAction::SetMessage || a == ShortcutAction::SetCode),
{
    let c = match p {
        EnhancementPreset::PersonalDictation => ShortcutAction::SetPersonalDictation,
        EnhancementPreset::CleanDictation => ShortcutAction::SetCleanDictation,
        EnhancementPreset::Writing => ShortcutAction::SetWriting,
        EnhancementPreset::Notes => ShortcutAction::SetNotes,
        EnhancementPreset::Message => ShortcutAction::SetMessage,
        EnhancementPreset::Code => ShortcutAction::SetCode,
    };
    assert(action_preset_spec(c) == Some(p));
}

/// `k` steps of the formatting cycle from `p`.
pub open spec fn iterate_next(p: EnhancementPreset, k: nat) -> EnhancementPreset
    decreases k,
{
    if k == 0 {
        p
    } else {
        next_preset_spec(iterate_next(p, (k - 1) as nat))
    }
}

/// What AI formatting becomes when toggled: disabling is always allowed;
/// enabling only with a usable AI setup (`None` refuses).
pub fn next_ai_enabled(current: bool, can_enable: bool) -> (r: Option<bool>)
    ensures
        r == if current {
            Some(false)
        } else if can_enable {
            Some(true)
        } else {
            None
        },
{
    if current {
        Some(false)
    } else if can_enable {
        Some(true)
    } else {
        None
    }
}


/// The effect of the toggle-AI-formatting shortcut: the new setting, if
/// it changes, and the toast shown with its duration in milliseconds.
#[derive(Debug, Clone, Copy, PartialEq, Eq)]
pub struct AiFormattingToggle {
    pub enabled: Option<bool>,
    pub toast: &'static str,
    pub toast_ms: u64,
}

/// Toggles AI formatting from the current AI settings: it can be enabled
/// only with a key and a model.
pub fn toggle_ai_formatting(enabled: bool, has_api_key: bool, model: &str) -> (r: AiFormattingToggle)
    ensures
        r.enabled == if enabled {
            Some(false)
        } else if has_api_key && model@.len() > 0 {
            Some(true)
        } else {
            None
        },
        r.enabled == Some(true) ==> r.toast@ == "AI formatting on"@ && r.toast_ms == 2500,
        r.enabled == Some(false) ==> r.toast@ == "AI formatting off"@ && r.toast_ms == 2500,
        r.enabled is None ==> r.toast@ == "Set up an AI model in Settings to use formatting"@ && r.toast_ms == 3500,
{
    match next_ai_enabled(enabled, has_api_key && model.unicode_len() > 0) {
        Some(true) => AiFormattingToggle { enabled: Some(true), toast: "AI formatting on", toast_ms: 2500 },
        Some(false) => AiFormattingToggle { enabled: Some(false), toast: "AI formatting off", toast_ms: 2500 },
        None => AiFormattingToggle {
            enabled: None,
            toast: "Set up an AI model in Settings to use formatting",
            toast_ms: 3500,
        },
    }
}

/// Whether the trigger of a binding fits its action.
pub open spec fn trigger_error_spec(action: ShortcutAction, trigger: ShortcutTrigger) -> Option<Seq<char>> {
    match (action, trigger) {
        (ShortcutAction::HoldToRecord, ShortcutTrigger::Hold) => None,
        (ShortcutAction::HoldToRecord, ShortcutTrigger::Pressed) => Some(
            "Hold-to-record shortcuts must use the hold trigger"@,
        ),
        (_, ShortcutTrigger::Pressed) => None,
        (_, ShortcutTrigger::Hold) => Some("Only hold-to-record shortcuts can use the hold trigger"@),
    }
}

/// Hold-to-record must use the hold trigger, and only it may.
pub fn validate_trigger_matches_action(binding: &ShortcutBinding) -> (r: Result<(), String>)
    ensures
        match trigger_error_spec(binding.action, binding.trigger) {
            None => r is Ok,
            Some(m) => r matches Err(e) && e@ == m,
        },
{
    match (binding.action, binding.trigger) {
        (ShortcutAction::HoldToRecord, ShortcutTrigger::Hold) => Ok(()),
        (ShortcutAction::HoldToRecord, ShortcutTrigger::Pressed) => Err(
            string_of(&chars_of("Hold-to-record shortcuts must use the hold trigger")),
        ),
        (_, ShortcutTrigger::Pressed) => Ok(()),
        (_, ShortcutTrigger::Hold) => Err(
            string_of(&chars_of("Only hold-to-record shortcuts can use the hold trigger")),
        ),
    }
}

/// Whether a binding may be a single key: the user accepted risky combos.
pub fn allows_single_key(binding: &ShortcutBinding) -> (r: bool)
    ensures
        r == binding.allow_risky_combo,
{
    binding.allow_risky_combo
}

// ---------------------------------------------------------------------------
// Conflicts
// ---------------------------------------------------------------------------

/// Whether `b` is enabled and normalizes to the shortcut `n`.
pub open spec fn binding_conflicts(b: ShortcutBinding, n: Seq<char>) -> bool {
    b.enabled && normalized_shortcut(b.shortcut@) == n
}

/// The id of the first enabled binding whose shortcut normalizes to
/// `normalized_shortcut`, if any.
pub fn normalized_custom_shortcut_conflict(normalized_shortcut: &str, settings: &ShortcutSettings) -> (r: Option<String>)
    ensures
        match r {
            Some(id) => exists|i: int| 0 <= i < settings.bindings@.len() && #[trigger] binding_conflicts(
                settings.bindings@[i],
                normalized_shortcut@,
            ) && id@ == settings.bindings@[i].id@ && forall|j: int| 0 <= j < i ==> !#[trigger] binding_conflicts(
                settings.bindings@[j],
                normalized_shortcut@,
            ),
            None => forall|i: int| 0 <= i < settings.bindings@.len() ==> !#[trigger] binding_conflicts(
                settings.bindings@[i],
                normalized_shortcut@,
            ),
        },
{
    let mut i: usize = 0;
    while i < settings.bindings.len()
        invariant
            i <= settings.bindings@.len(),
            forall|j: int| 0 <= j < i ==> !#[trigger] binding_conflicts(settings.bindings@[j], normalized_shortcut@),
        decreases settings.bindings@.len() - i,
    {
        let b = &settings.bindings[i];
        if b.enabled {
            let n = normalize_shortcut_keys(b.shortcut.as_str());
            if str_eq(n.as_str(), normalized_shortcut) {
                let id = string_of(&chars_of(b.id.as_str()));
                assert(binding_conflicts(settings.bindings@[i as int], normalized_shortcut@));
                return Some(id);
            }
        }
        i += 1;
    }
    None
}

/// A finite set of strings, kept as a list without repeats.
pub struct StringSet {
    items: Vec<String>,
}


impl StringSet {
    /// The strings in the set.
    pub closed spec fn set(&self) -> Set<Seq<char>> {
        Set::new(|x: Seq<char>| strings_contain(self.items@, x))
    }

    /// No string is listed twice.
    pub closed spec fn wf(&self) -> bool {
        forall|i: int, j: int| 0 <= i < j < self.items@.len() ==> (#[trigger] self.items@[i])@ != (
        #[trigger] self.items@[j])@
    }

    /// The empty set.
    pub fn new() -> (r: Self)
        ensures
            r.wf(),
            r.set() == Set::<Seq<char>>::empty(),
    {
        let r = StringSet { items: Vec::new() };
        assert(r.set() =~= Set::<Seq<char>>::empty());
        r
    }

    /// Whether `x` is in the set.
    pub fn contains(&self, x: &str) -> (r: bool)
        ensures
            r == self.set().contains(x@),
    {
        self.find(x).is_some()
    }

    fn find(&self, x: &str) -> (r: Option<usize>)
        ensures
            match r {
                Some(i) => i < self.items@.len() && self.items@[i as int]@ == x@,
                None => !self.set().contains(x@),
            },
    {
        let mut i: usize = 0;
        while i < self.items.len()
            invariant
                i <= self.items@.len(),
                forall|j: int| 0 <= j < i ==> (#[trigger] self.items@[j])@ != x@,
            decreases self.items@.len() - i,
        {
            if str_eq(self.items[i].as_str(), x) {
                return Some(i);
            }
            i += 1;
        }
        None
    }

    /// Adds `x`; `true` when it was not in the set before.
    pub fn insert(&mut self, x: &str) -> (added: bool)
        requires
            old(self).wf(),
        ensures
            final(self).wf(),
            added == !old(self).set().contains(x@),
            final(self).set() == old(self).set().insert(x@),
    {
        match self.find(x) {
            Some(_) => {
                assert(self.set() =~= self.set().insert(x@));
                false
            },
            None => {
                let ghost before = self.items@;
                self.items.push(string_of(&chars_of(x)));
                proof {
                    assert forall|y: Seq<char>| #[trigger] strings_contain(self.items@, y) == (strings_contain(before, y) || y == x@) by {
                        if strings_contain(before, y) {
                            let i = choose|i: int| 0 <= i < before.len() && #[trigger] before[i]@ == y;
                            assert(self.items@[i] == before[i]);
                        }
                        if y == x@ {
                            assert(self.items@[before.len() as int]@ == y);
                        }
                        if strings_contain(self.items@, y) && y != x@ {
                            let i = choose|i: int| 0 <= i < self.items@.len() && #[trigger] self.items@[i]@ == y;
                            assert(self.items@[i] == before[i]);
                        }
                    }
                    assert(self.set() =~= old(self).set().insert(x@));
                    assert forall|i: int, j: int| 0 <= i < j < self.items@.len() implies (#[trigger] self.items@[i])@
                        != (#[trigger] self.items@[j])@ by {
                        if j == before.len() {
                            assert(self.items@[i] == before[i]);
                            assert(strings_contain(before, before[i]@));
                        } else {
                            assert(self.items@[i] == before[i]);
                            assert(self.items@[j] == before[j]);
                        }
                    }
                }
                true
            },
        }
    }

    /// Removes `x`; `true` when it was in the set.
    pub fn remove(&mut self, x: &str) -> (removed: bool)
        requires
            old(self).wf(),
        ensures
            final(self).wf(),
            removed == old(self).set().contains(x@),
            final(self).set() == old(self).set().remove(x@),
    {
        match self.find(x) {
            Some(k) => {
                let ghost before = self.items@;
                self.items.remove(k);
                proof {
                    assert forall|y: Seq<char>| #[trigger] strings_contain(self.items@, y) == (strings_contain(before, y) && y != x@) by {
                        if strings_contain(self.items@, y) {
                            let i = choose|i: int| 0 <= i < self.items@.len() && #[trigger] self.items@[i]@ == y;
                            if i < k {
                                assert(self.items@[i] == before[i]);
                                assert(before[k as int]@ == x@);
                            } else {
                                assert(self.items@[i] == before[i + 1]);
                                assert(before[k as int]@ == x@);
                            }
                        }
                        if strings_contain(before, y) && y != x@ {
                            let i = choose|i: int| 0 <= i < before.len() && #[trigger] before[i]@ == y;
                            if i < k {
                                assert(self.items@[i] == before[i]);
                            } else {
                                assert(i != k);
                                assert(self.items@[i - 1] == before[i]);
                            }
                        }
                    }
                    assert(self.set() =~= old(self).set().remove(x@));
                    assert forall|i: int, j: int| 0 <= i < j < self.items@.len() implies (#[trigger] self.items@[i])@
                        != (#[trigger] self.items@[j])@ by {
                        let bi = if i < k { i } else { i + 1 };
                        let bj = if j < k { j } else { j + 1 };
                        assert(self.items@[i] == before[bi]);
                        assert(self.items@[j] == before[bj]);
                    }
                }
                true
            },
            None => {
                assert(self.set() =~= self.set().remove(x@));
                false
            },
        }
    }

    /// Whether the set is empty.
    pub fn is_empty(&self) -> (r: bool)
        ensures
            r == (self.set() == Set::<Seq<char>>::empty()),
    {
        if self.items.len() == 0 {
            assert(self.set() =~= Set::<Seq<char>>::empty());
            true
        } else {
            assert(self.set().contains(self.items@[0]@));
            false
        }
    }

    /// Empties the set.
    pub fn clear(&mut self)
        ensures
            final(self).wf(),
            final(self).set() == Set::<Seq<char>>::empty(),
    {
        self.items = Vec::new();
        assert(self.set() =~= Set::<Seq<char>>::empty());
    }
}

/// Whether a registered shortcut was pressed or released.
#[derive(Debug, Clone, Copy, PartialEq, Eq, Structural)]
pub enum ShortcutState {
    Pressed,
    Released,
}

/// What a hold binding's event does to recording.
#[derive(Debug, Clone, Copy, PartialEq, Eq, Structural)]
pub enum CustomHoldTransition {
    Start,
    Stop,
    Noop,
}

/// Whether a press runs its action, and the held bindings afterwards: a
/// press runs only when the binding was not already held (key repeat does
/// not run it again); a release runs nothing.
pub open spec fn pressed_spec(active: Set<Seq<char>>, id: Seq<char>, state: ShortcutState) -> (bool, Set<Seq<char>>) {
    match state {
        ShortcutState::Pressed => (!active.contains(id), active.insert(id)),
        ShortcutState::Released => (false, active.remove(id)),
    }
}

/// The transition of a hold binding's event, and the held bindings
/// afterwards: recording starts when the first held binding goes down and
/// stops when the last one comes up.
pub open spec fn hold_spec(active: Set<Seq<char>>, id: Seq<char>, state: ShortcutState) -> (CustomHoldTransition, Set<Seq<char>>) {
    match state {
        ShortcutState::Pressed => (
            if !active.contains(id) && active == Set::<Seq<char>>::empty() {
                CustomHoldTransition::Start
            } else {
                CustomHoldTransition::Noop
            },
            active.insert(id),
        ),
        ShortcutState::Released => (
            if active.contains(id) && active.remove(id) == Set::<Seq<char>>::empty() {
                CustomHoldTransition::Stop
            } else {
                CustomHoldTransition::Noop
            },
            active.remove(id),
        ),
    }
}

/// Whether a pressed-trigger binding runs on this event.
pub fn pressed_shortcut_should_run(active_bindings: &mut StringSet, binding_id: &str, event_state: ShortcutState) -> (r: bool)
    requires
        old(active_bindings).wf(),
    ensures
        final(active_bindings).wf(),
        (r, final(active_bindings).set()) == pressed_spec(old(active_bindings).set(), binding_id@, event_state),
{
    match event_state {
        ShortcutState::Pressed => active_bindings.insert(binding_id),
        ShortcutState::Released => {
            active_bindings.remove(binding_id);
            false
        },
    }
}

/// What a hold-trigger binding's event does to recording.
pub fn hold_shortcut_transition(active_bindings: &mut StringSet, binding_id: &str, event_state: ShortcutState) -> (r: CustomHoldTransition)
    requires
        old(active_bindings).wf(),
    ensures
        final(active_bindings).wf(),
        (r, final(active_bindings).set()) == hold_spec(old(active_bindings).set(), binding_id@, event_state),
{
    match event_state {
        ShortcutState::Pressed => {
            let ghost before = active_bindings.set();
            let added = active_bindings.insert(binding_id);
            if added && active_bindings.is_single() {
                proof {
                    let x = choose|x: Seq<char>| active_bindings.set() == set![x];
                    assert(active_bindings.set().contains(binding_id@));
                    assert(binding_id@ == x);
                    assert(before =~= Set::<Seq<char>>::empty()) by {
                        assert forall|y: Seq<char>| !before.contains(y) by {
                            if before.contains(y) {
                                assert(active_bindings.set().contains(y));
                                assert(y == x);
                            }
                        }
                    }
                }
                CustomHoldTransition::Start
            } else {
                proof {
                    if added && before == Set::<Seq<char>>::empty() {
                        assert(active_bindings.set() =~= set![binding_id@]);
                    }
                }
                CustomHoldTransition::Noop
            }
        },
        ShortcutState::Released => {
            if active_bindings.remove(binding_id) && active_bindings.is_empty() {
                CustomHoldTransition::Stop
            } else {
                CustomHoldTransition::Noop
            }
        },
    }
}

impl StringSet {
    /// Whether the set holds exactly one string.
    pub fn is_single(&self) -> (r: bool)
        requires
            self.wf(),
        ensures
            r == exists|x: Seq<char>| self.set() == set![x],
    {
        if self.items.len() == 1 {
            assert(self.set() =~= set![self.items@[0]@]);
            true
        } else {
            proof {
                if exists|x: Seq<char>| self.set() == set![x] {
                    let x = choose|x: Seq<char>| self.set() == set![x];
                    assert(self.set().contains(x));
                    if self.items@.len() == 0 {
                        assert(!strings_contain(self.items@, x));
                    } else {
                        assert(self.set().contains(self.items@[0]@));
                        assert(self.set().contains(self.items@[1]@));
                        assert(self.items@[0]@ != self.items@[1]@);
                    }
                }
            }
            false
        }
    }
}

/// Forgets every held binding (after the bindings were replaced).
pub fn clear_active_custom_shortcut_state(active_holds: &mut StringSet, active_pressed: &mut StringSet)
    ensures
        final(active_holds).wf(),
        final(active_pressed).wf(),
        final(active_holds).set() == Set::<Seq<char>>::empty(),
        final(active_pressed).set() == Set::<Seq<char>>::empty(),
{
    active_holds.clear();
    active_pressed.clear();
}

/// Holding a binding starts recording once and releasing it stops it; key
/// repeat of a pressed binding runs its action only once.
pub proof fn law_press_release_pairs(id: Seq<char>)
    ensures
        hold_spec(Set::empty(), id, ShortcutState::Pressed) == (CustomHoldTransition::Start, set![id]),
        hold_spec(set![id], id, ShortcutState::Released) == (CustomHoldTransition::Stop, Set::<Seq<char>>::empty()),
        pressed_spec(Set::empty(), id, ShortcutState::Pressed).0,
        !pressed_spec(pressed_spec(Set::empty(), id, ShortcutState::Pressed).1, id, ShortcutState::Pressed).0,
{
    assert(Set::<Seq<char>>::empty().insert(id) =~= set![id]);
    assert(set![id].remove(id) =~= Set::<Seq<char>>::empty());
}

/// While two hold bindings overlap, releasing the first does not stop the
/// recording that the second keeps going.
pub proof fn law_overlapping_holds(a: Seq<char>, b: Seq<char>)
    requires
        a != b,
    ensures
        hold_spec(set![a], b, ShortcutState::Pressed).0 == CustomHoldTransition::Noop,
        hold_spec(set![a, b], a, ShortcutState::Released).0 == CustomHoldTransition::Noop,
        hold_spec(set![b], b, ShortcutState::Released).0 == CustomHoldTransition::Stop,
{
    assert(set![a].contains(a));
    assert(set![a, b].contains(b));
    assert(set![a, b].remove(a).contains(b));
    assert(set![b].remove(b) =~= Set::<Seq<char>>::empty());
}

// ---------------------------------------------------------------------------
// Action catalog
// ---------------------------------------------------------------------------

/// The editor label of an action.
pub open spec fn action_label_spec(a: ShortcutAction) -> Seq<char> {
    match a {
        ShortcutAction::ToggleRecording => "Toggle recording"@,
        ShortcutAction::HoldToRecord => "Hold to record"@,
        ShortcutAction::CancelRecording => "Cancel recording"@,
        ShortcutAction::CopyLastTranscription => "Copy last transcription"@,
        ShortcutAction::PasteLastTranscription => "Paste last transcription"@,
        ShortcutAction::CycleFormattingMode => "Cycle formatting mode"@,
        ShortcutAction::SetPersonalDictation => "Personal dictation"@,
        ShortcutAction::SetCleanDictation => "Clean dictation"@,
        ShortcutAction::SetWriting => "Writing"@,
        ShortcutAction::SetNotes => "Notes"@,
        ShortcutAction::SetMessage => "Message"@,
        ShortcutAction::SetCode => "Code"@,
        ShortcutAction::ToggleAiFormatting => "Toggle AI formatting"@,
        ShortcutAction::OpenDashboard => "Open dashboard"@,
    }
}

/// The editor description of an action.
pub open spec fn action_description_spec(a: ShortcutAction) -> Seq<char> {
    match a {
        ShortcutAction::ToggleRecording => "Start or stop recording with one press."@,
        ShortcutAction::HoldToRecord => "Record while the shortcut is held."@,
        ShortcutAction::CancelRecording => "Cancel the current recording."@,
        ShortcutAction::CopyLastTranscription => "Copy the latest finished transcription to the clipboard."@,
        ShortcutAction::PasteLastTranscription => "Paste the latest finished transcription into the active app."@,
        ShortcutAction::CycleFormattingMode => "Switch to the next formatting mode."@,
        ShortcutAction::SetPersonalDictation => "Switch formatting to Personal Dictation."@,
        ShortcutAction::SetCleanDictation => "Switch formatting to Clean Dictation."@,
        ShortcutAction::SetWriting => "Switch formatting to Writing."@,
        ShortcutAction::SetNotes => "Switch formatting to Notes."@,
        ShortcutAction::SetMessage => "Switch formatting to Message."@,
        ShortcutAction::SetCode => "Switch formatting to Code."@,
        ShortcutAction::ToggleAiFormatting => "Turn AI formatting on or off."@,
        ShortcutAction::OpenDashboard => "Focus the VoiceTypr dashboard."@,
    }
}

/// The editor section of an action.
pub open spec fn action_section_spec(a: ShortcutAction) -> Seq<char> {
    match a {
        ShortcutAction::ToggleRecording => "Recording"@,
        ShortcutAction::HoldToRecord => "Recording"@,
        ShortcutAction::CancelRecording => "Recording"@,
        ShortcutAction::CopyLastTranscription => "History"@,
        ShortcutAction::PasteLastTranscription => "History"@,
        ShortcutAction::CycleFormattingMode => "Formatting"@,
        ShortcutAction::SetPersonalDictation => "Formatting"@,
        ShortcutAction::SetCleanDictation => "Formatting"@,
        ShortcutAction::SetWriting => "Formatting"@,
        ShortcutAction::SetNotes => "Formatting"@,
        ShortcutAction::SetMessage => "Formatting"@,
        ShortcutAction::SetCode => "Formatting"@,
        ShortcutAction::ToggleAiFormatting => "Formatting"@,
        ShortcutAction::OpenDashboard => "Dashboard"@,
    }
}

/// The trigger recommended for an action: hold for hold-to-record, press
/// for everything else.
pub open spec fn recommended_trigger_spec(a: ShortcutAction) -> ShortcutTrigger {
    if a == ShortcutAction::HoldToRecord {
        ShortcutTrigger::Hold
    } else {
        ShortcutTrigger::Pressed
    }
}

/// The order in which the editor lists the actions.
pub open spec fn action_order() -> Seq<ShortcutAction> {
    seq![ShortcutAction::ToggleRecording, ShortcutAction::HoldToRecord, ShortcutAction::CancelRecording, ShortcutAction::CopyLastTranscription, ShortcutAction::PasteLastTranscription, ShortcutAction::CycleFormattingMode, ShortcutAction::SetPersonalDictation, ShortcutAction::SetCleanDictation, ShortcutAction::SetWriting, ShortcutAction::SetNotes, ShortcutAction::SetMessage, ShortcutAction::SetCode, ShortcutAction::ToggleAiFormatting, ShortcutAction::OpenDashboard]
}

fn action_label(a: ShortcutAction) -> (r: &'static str)
    ensures
        r@ == action_label_spec(a),
{
    match a {
        ShortcutAction::ToggleRecording => "Toggle recording",
        ShortcutAction::HoldToRecord => "Hold to record",
        ShortcutAction::CancelRecording => "Cancel recording",
        ShortcutAction::CopyLastTranscription => "Copy last transcription",
        ShortcutAction::PasteLastTranscription => "Paste last transcription",
        ShortcutAction::CycleFormattingMode => "Cycle formatting mode",
        ShortcutAction::SetPersonalDictation => "Personal dictation",
        ShortcutAction::SetCleanDictation => "Clean dictation",
        ShortcutAction::SetWriting => "Writing",
        ShortcutAction::SetNotes => "Notes",
        ShortcutAction::SetMessage => "Message",
        ShortcutAction::SetCode => "Code",
        ShortcutAction::ToggleAiFormatting => "Toggle AI formatting",
        ShortcutAction::OpenDashboard => "Open dashboard",
    }
}

fn action_description(a: ShortcutAction) -> (r: &'static str)
    ensures
        r@ == action_description_spec(a),
{
    match a {
        ShortcutAction::ToggleRecording => "Start or stop recording with one press.",
        ShortcutAction::HoldToRecord => "Record while the shortcut is held.",
        ShortcutAction::CancelRecording => "Cancel the current recording.",
        ShortcutAction::CopyLastTranscription => "Copy the latest finished transcription to the clipboard.",
        ShortcutAction::PasteLastTranscription => "Paste the latest finished transcription into the active app.",
        ShortcutAction::CycleFormattingMode => "Switch to the next formatting mode.",
        ShortcutAction::SetPersonalDictation => "Switch formatting to Personal Dictation.",
        ShortcutAction::SetCleanDictation => "Switch formatting to Clean Dictation.",
        ShortcutAction::SetWriting => "Switch formatting to Writing.",
        ShortcutAction::SetNotes => "Switch formatting to Notes.",
        ShortcutAction::SetMessage => "Switch formatting to Message.",
        ShortcutAction::SetCode => "Switch formatting to Code.",
        ShortcutAction::ToggleAiFormatting => "Turn AI formatting on or off.",
        ShortcutAction::OpenDashboard => "Focus the VoiceTypr dashboard.",
    }
}

fn action_section(a: ShortcutAction) -> (r: &'static str)
    ensures
        r@ == action_section_spec(a),
{
    match a {
        ShortcutAction::ToggleRecording => "Recording",
        ShortcutAction::HoldToRecord => "Recording",
        ShortcutAction::CancelRecording => "Recording",
        ShortcutAction::CopyLastTranscription => "History",
        ShortcutAction::PasteLastTranscription => "History",
        ShortcutAction::CycleFormattingMode => "Formatting",
        ShortcutAction::SetPersonalDictation => "Formatting",
        ShortcutAction::SetCleanDictation => "Formatting",
        ShortcutAction::SetWriting => "Formatting",
        ShortcutAction::SetNotes => "Formatting",
        ShortcutAction::SetMessage => "Formatting",
        ShortcutAction::SetCode => "Formatting",
        ShortcutAction::ToggleAiFormatting => "Formatting",
        ShortcutAction::OpenDashboard => "Dashboard",
    }
}

fn action_definition(a: ShortcutAction) -> (r: ShortcutActionDefinition)
    ensures
        r.action == a,
        r.label@ == action_label_spec(a),
        r.description@ == action_description_spec(a),
        r.section@ == action_section_spec(a),
        r.recommended_trigger == recommended_trigger_spec(a),
        r.allows_single_key,
{
    ShortcutActionDefinition {
        action: a,
        label: action_label(a),
        description: action_description(a),
        section: action_section(a),
        recommended_trigger: if a == ShortcutAction::HoldToRecord {
            ShortcutTrigger::Hold
        } else {
            ShortcutTrigger::Pressed
        },
        allows_single_key: true,
    }
}

/// Every action once, in editor order, with its label, description,
/// section and recommended trigger; every action may use a single key.
pub fn shortcut_action_definitions() -> (r: Vec<ShortcutActionDefinition>)
    ensures
        r@.len() == action_order().len(),
        forall|i: int| 0 <= i < r@.len() ==> {
            let d = #[trigger] r@[i];
            &&& d.action == action_order()[i]
            &&& d.label@ == action_label_spec(d.action)
            &&& d.description@ == action_description_spec(d.action)
            &&& d.section@ == action_section_spec(d.action)
            &&& d.recommended_trigger == recommended_trigger_spec(d.action)
            &&& d.allows_single_key
        },
{
    let mut r: Vec<ShortcutActionDefinition> = Vec::new();
    r.push(action_definition(ShortcutAction::ToggleRecording));
    r.push(action_definition(ShortcutAction::HoldToRecord));
    r.push(action_definition(ShortcutAction::CancelRecording));
    r.push(action_definition(ShortcutAction::CopyLastTranscription));
    r.push(action_definition(ShortcutAction::PasteLastTranscription));
    r.push(action_definition(ShortcutAction::CycleFormattingMode));
    r.push(action_definition(ShortcutAction::SetPersonalDictation));
    r.push(action_definition(ShortcutAction::SetCleanDictation));
    r.push(action_definition(ShortcutAction::SetWriting));
    r.push(action_definition(ShortcutAction::SetNotes));
    r.push(action_definition(ShortcutAction::SetMessage));
    r.push(action_definition(ShortcutAction::SetCode));
    r.push(action_definition(ShortcutAction::ToggleAiFormatting));
    r.push(action_definition(ShortcutAction::OpenDashboard));
    r
}

/// Every action appears exactly once in the editor catalog.
pub proof fn law_catalog_lists_each_action_once(a: ShortcutAction)
    ensures
        exists|i: int| 0 <= i < action_order().len() && action_order()[i] == a,
        forall|i: int, j: int| 0 <= i < j < action_order().len() ==> action_order()[i] != action_order()[j],
{
    let o = action_order();
    assert(o[0] == ShortcutAction::ToggleRecording);
    match a {
        ShortcutAction::ToggleRecording => assert(o[0] == a),
        ShortcutAction::HoldToRecord => assert(o[1] == a),
        ShortcutAction::CancelRecording => assert(o[2] == a),
        ShortcutAction::CopyLastTranscription => assert(o[3] == a),
        ShortcutAction::PasteLastTranscription => assert(o[4] == a),
        ShortcutAction::CycleFormattingMode => assert(o[5] == a),
        ShortcutAction::SetPersonalDictation => assert(o[6] == a),
        ShortcutAction::SetCleanDictation => assert(o[7] == a),
        ShortcutAction::SetWriting => assert(o[8] == a),
        ShortcutAction::SetNotes => assert(o[9] == a),
        ShortcutAction::SetMessage => assert(o[10] == a),
        ShortcutAction::SetCode => assert(o[11] == a),
        ShortcutAction::ToggleAiFormatting => assert(o[12] == a),
        ShortcutAction::OpenDashboard => assert(o[13] == a),
    }
}

// ---------------------------------------------------------------------------
// Duplicate checks of enabled bindings
// ---------------------------------------------------------------------------

/// The normal form of an app-wide hotkey, unless it is absent or empty.
pub open spec fn existing_hotkey_spec(hotkey: Option<Seq<char>>) -> Option<Seq<char>> {
    match hotkey {
        Some(h) => if normalized_shortcut(h).len() > 0 {
            Some(normalized_shortcut(h))
        } else {
            None
        },
        None => None,
    }
}

/// Normalizes an app-wide hotkey for comparison with custom bindings.
pub fn existing_hotkey_normalized(hotkey: &Option<String>) -> (r: Option<String>)
    ensures
        opt_str(&r) == existing_hotkey_spec(opt_str(hotkey)),
{
    match hotkey {
        Some(h) => {
            let n = normalize_shortcut_keys(h.as_str());
            if n.as_str().unicode_len() > 0 {
                Some(n)
            } else {
                None
            }
        },
        None => None,
    }
}

/// The view of an optional string.
pub open spec fn opt_str(o: &Option<String>) -> Option<Seq<char>> {
    match o {
        Some(s) => Some(s@),
        None => None,
    }
}

/// The error for an enabled binding whose normalized shortcut is
/// `normalized`, given the app-wide hotkeys and the shortcuts already seen;
/// `None` when it may be registered.
pub open spec fn conflict_error_spec(
    shortcut: Seq<char>,
    normalized: Seq<char>,
    primary: Option<Seq<char>>,
    ptt: Option<Seq<char>>,
    seen: Set<Seq<char>>,
) -> Option<Seq<char>> {
    if primary == Some(normalized) {
        Some("Shortcut '"@ + shortcut + "' duplicates the primary recording hotkey"@)
    } else if ptt == Some(normalized) {
        Some("Shortcut '"@ + shortcut + "' duplicates the push-to-talk hotkey"@)
    } else if seen.contains(normalized) {
        Some("Duplicate enabled shortcut binding: "@ + shortcut)
    } else if normalized == "Escape"@ {
        Some("Escape is reserved for recording cancellation"@)
    } else {
        None
    }
}

/// Checks an enabled binding against the app-wide hotkeys and the
/// shortcuts seen so far; a shortcut that passes the hotkey checks joins
/// the seen set (Escape included, which is then refused as reserved).
pub fn check_shortcut_conflicts(
    shortcut: &str,
    normalized: &str,
    primary: &Option<String>,
    ptt: &Option<String>,
    seen_enabled: &mut StringSet,
) -> (r: Result<(), String>)
    requires
        old(seen_enabled).wf(),
    ensures
        final(seen_enabled).wf(),
        match conflict_error_spec(shortcut@, normalized@, opt_str(primary), opt_str(ptt), old(seen_enabled).set()) {
            None => r is Ok,
            Some(m) => r matches Err(e) && e@ == m,
        },
        final(seen_enabled).set() == if opt_str(primary) == Some(normalized@) || opt_str(ptt) == Some(normalized@) {
            old(seen_enabled).set()
        } else {
            old(seen_enabled).set().insert(normalized@)
        },
{
    let same_primary = match primary {
        Some(p) => str_eq(p.as_str(), normalized),
        None => false,
    };
    if same_primary {
        return Err(quoted_message("Shortcut '", shortcut, "' duplicates the primary recording hotkey"));
    }
    let same_ptt = match ptt {
        Some(p) => str_eq(p.as_str(), normalized),
        None => false,
    };
    if same_ptt {
        return Err(quoted_message("Shortcut '", shortcut, "' duplicates the push-to-talk hotkey"));
    }
    if !seen_enabled.insert(normalized) {
        let m = concat(&chars_of("Duplicate enabled shortcut binding: "), &chars_of(shortcut));
        return Err(string_of(&m));
    }
    if str_eq(normalized, "Escape") {
        return Err(string_of(&chars_of("Escape is reserved for recording cancellation")));
    }
    Ok(())
}

fn quoted_message(a: &str, b: &str, c: &str) -> (r: String)
    ensures
        r@ == a@ + b@ + c@,
{
    let x = concat(&chars_of(a), &chars_of(b));
    string_of(&concat(&x, &chars_of(c)))
}

/// A shortcut enabled twice is refused the second time, whatever came in
/// between.
pub proof fn law_second_enable_is_duplicate(
    shortcut: Seq<char>,
    normalized: Seq<char>,
    primary: Option<Seq<char>>,
    ptt: Option<Seq<char>>,
    seen: Set<Seq<char>>,
)
    requires
        conflict_error_spec(shortcut, normalized, primary, ptt, seen) is None,
    ensures
        conflict_error_spec(shortcut, normalized, primary, ptt, seen.insert(normalized)) is Some,
{
}

/// The first error of an enabled binding's own fields, if any: it needs an
/// id, a shortcut of 1 to 100 bytes, and a trigger that fits its action.
pub open spec fn binding_basics_error_spec(b: ShortcutBinding) -> Option<Seq<char>> {
    if b.id@.len() == 0 {
        Some("Shortcut binding id is required"@)
    } else if b.shortcut@.len() == 0 || vstd::utf8::encode_utf8(b.shortcut@).len() > 100 {
        Some("Invalid shortcut for binding '"@ + b.id@ + "'"@)
    } else {
        trigger_error_spec(b.action, b.trigger)
    }
}

/// Checks an enabled binding's id, shortcut length and trigger.
pub fn validate_binding_basics(binding: &ShortcutBinding) -> (r: Result<(), String>)
    ensures
        match binding_basics_error_spec(*binding) {
            None => r is Ok,
            Some(m) => r matches Err(e) && e@ == m,
        },
{
    if binding.id.as_str().unicode_len() == 0 {
        return Err(string_of(&chars_of("Shortcut binding id is required")));
    }
    if binding.shortcut.as_str().unicode_len() == 0 || binding.shortcut.as_str().as_bytes().len() > 100 {
        return Err(quoted_message("Invalid shortcut for binding '", binding.id.as_str(), "'"));
    }
    validate_trigger_matches_action(binding)
}


/// The primary recording hotkey when settings hold none.
pub const DEFAULT_PRIMARY_HOTKEY: &'static str = "CommandOrControl+Shift+Space";

/// The app-wide hotkeys that custom bindings must not duplicate, from the
/// stored settings (each `None` when absent or unreadable): the primary
/// hotkey, or the default one; and the push-to-talk hotkey, which counts
/// only in push-to-talk mode with a separate key.
pub fn existing_shortcut_strings(
    hotkey: Option<String>,
    recording_mode: Option<String>,
    use_different_ptt_key: Option<bool>,
    ptt_hotkey: Option<String>,
) -> (r: ExistingShortcutStrings)
    ensures
        opt_str(&r.primary_hotkey) == Some(
            match hotkey {
                Some(h) => h@,
                None => DEFAULT_PRIMARY_HOTKEY@,
            },
        ),
        opt_str(&r.ptt_hotkey) == if opt_str(&recording_mode) == Some("push_to_talk"@) && use_different_ptt_key
            == Some(true) {
            opt_str(&ptt_hotkey)
        } else {
            None
        },
{
    let primary = match hotkey {
        Some(h) => h,
        None => string_of(&chars_of(DEFAULT_PRIMARY_HOTKEY)),
    };
    let push_to_talk = match &recording_mode {
        Some(m) => str_eq(m.as_str(), "push_to_talk"),
        None => false,
    };
    let separate = match use_different_ptt_key {
        Some(b) => b,
        None => false,
    };
    ExistingShortcutStrings {
        primary_hotkey: Some(primary),
        ptt_hotkey: if push_to_talk && separate {
            ptt_hotkey
        } else {
            None
        },
    }
}

} // verus!
