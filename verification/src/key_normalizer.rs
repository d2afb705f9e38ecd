//! Normalization and validation of keyboard shortcut strings such as
//! `"Cmd+Shift+Space"`.
//!
//! A shortcut is a `+`-separated list of key names. Normalization maps every
//! key name independently to the form the global-shortcut registry expects
//! (`"cmd"` becomes `"CommandOrControl"`, `"ArrowUp"` becomes `"Up"`, ...).
use vstd::prelude::*;
use crate::text::{
    ascii_lower, ascii_lower_seq, chars_eq_str, chars_of, char_ascii_lower, concat, decimal,
    decimal_chars, has_char, join_by, join_chars, lemma_split_join, lemma_split_nonempty,
    lemma_split_pieces_free_of_sep, split_by, split_chars, string_of, lemma_join_split, lemma_join_concat,
    lowercase_of, to_lowercase,
};
use std::str::FromStr;

verus! {

broadcast use vstd::string::group_string_axioms;

// ---------------------------------------------------------------------------
// The outside key parser
// ---------------------------------------------------------------------------

/// The name under which `keyboard_types::Key::from_str` recognizes `text`
/// (the `Display` form of the parsed key), or `None` when it rejects `text`.
pub uninterp spec fn keyboard_key_name(text: Seq<char>) -> Option<Seq<char>>;

/// Calls `<keyboard_types::Key as FromStr>::from_str` and returns the parsed
/// key as its `Display` string. The contract only ties the result to the
/// name `keyboard_key_name`; which strings the crate's key table accepts is
/// not restated here.
#[verifier::external_body]
fn parse_keyboard_key(text: &str) -> (r: Option<String>)
    ensures
        r is Some <==> keyboard_key_name(text@) is Some,
        r matches Some(name) ==> name@ == keyboard_key_name(text@)->0,
{
    keyboard_types::Key::from_str(text).ok().map(|key| key.to_string())
}

// ---------------------------------------------------------------------------
// Specification of single-key normalization
// ---------------------------------------------------------------------------

/// Aliases matched case-insensitively. `lower` is the key lower-cased by
/// `str::to_lowercase`.
pub open spec fn modifier_alias(lower: Seq<char>) -> Option<Seq<char>> {
    if lower == "cmd"@ || lower == "ctrl"@ || lower == "command"@ || lower == "meta"@ {
        Some("CommandOrControl"@)
    } else if lower == "control"@ {
        Some("Control"@)
    } else if lower == "super"@ {
        Some("Super"@)
    } else if lower == "option"@ || lower == "alt"@ {
        Some("Alt"@)
    } else if lower == "shift"@ {
        Some("Shift"@)
    } else if lower == "space"@ {
        Some("Space"@)
    } else {
        None
    }
}

/// Normal form of a key that the key parser recognized under `name`.
pub open spec fn parsed_key_alias(name: Seq<char>) -> Option<Seq<char>> {
    if name == "Enter"@ {
        Some("Enter"@)
    } else if name == "Tab"@ {
        Some("Tab"@)
    } else if name == "Backspace"@ {
        Some("Backspace"@)
    } else if name == "Escape"@ {
        Some("Escape"@)
    } else if name == " "@ {
        Some("Space"@)
    } else if name == "ArrowDown"@ {
        Some("Down"@)
    } else if name == "ArrowLeft"@ {
        Some("Left"@)
    } else if name == "ArrowRight"@ {
        Some("Right"@)
    } else if name == "ArrowUp"@ {
        Some("Up"@)
    } else if name == "End"@ || name == "Home"@ || name == "PageDown"@ || name == "PageUp"@
        || name == "Delete"@ {
        Some(name)
    } else if name == "F1"@ || name == "F2"@ || name == "F3"@ || name == "F4"@ || name == "F5"@
        || name == "F6"@ || name == "F7"@ || name == "F8"@ || name == "F9"@ || name == "F10"@
        || name == "F11"@ || name == "F12"@ {
        Some(name)
    } else {
        None
    }
}

/// Normal form of a key that the key parser rejected.
pub open spec fn unparsed_key_alias(key: Seq<char>) -> Option<Seq<char>> {
    if key == "Return"@ {
        Some("Enter"@)
    } else if key == "ArrowUp"@ {
        Some("Up"@)
    } else if key == "ArrowDown"@ {
        Some("Down"@)
    } else if key == "ArrowLeft"@ {
        Some("Left"@)
    } else if key == "ArrowRight"@ {
        Some("Right"@)
    } else if key == "CommandOrControl"@ || key == "Cmd"@ || key == "Ctrl"@ || key == "Command"@
        || key == "Meta"@ {
        Some("CommandOrControl"@)
    } else if key == "Control"@ {
        Some("Control"@)
    } else if key == "Super"@ {
        Some("Super"@)
    } else if key == "Option"@ {
        Some("Alt"@)
    } else {
        None
    }
}

/// Normal form of one key, given what the key parser made of it.
pub open spec fn normalized_key(key: Seq<char>, parsed: Option<Seq<char>>) -> Seq<char> {
    match modifier_alias(lowercase_of(key)) {
        Some(alias) => alias,
        None => match parsed {
            Some(name) => match parsed_key_alias(name) {
                Some(alias) => alias,
                None => key,
            },
            None => match unparsed_key_alias(key) {
                Some(alias) => alias,
                None => key,
            },
        },
    }
}

/// Normal form of a whole shortcut: every `+`-separated key normalized.
pub open spec fn normalized_shortcut(shortcut: Seq<char>) -> Seq<char> {
    join_by(
        split_by(shortcut, '+').map_values(|k: Seq<char>| normalized_key(k, keyboard_key_name(k))),
        '+',
    )
}

// ---------------------------------------------------------------------------
// Normalization
// ---------------------------------------------------------------------------

fn text(s: &str) -> (r: Vec<char>)
    ensures
        r@ == s@,
{
    chars_of(s)
}

fn lowercase_alias(lower: &Vec<char>) -> (r: Option<Vec<char>>)
    ensures
        r matches Some(a) ==> modifier_alias(lower@) == Some(a@),
        r is None ==> modifier_alias(lower@) is None,
{
    if chars_eq_str(lower, "cmd") || chars_eq_str(lower, "ctrl") || chars_eq_str(lower, "command")
        || chars_eq_str(lower, "meta") {
        Some(text("CommandOrControl"))
    } else if chars_eq_str(lower, "control") {
        Some(text("Control"))
    } else if chars_eq_str(lower, "super") {
        Some(text("Super"))
    } else if chars_eq_str(lower, "option") || chars_eq_str(lower, "alt") {
        Some(text("Alt"))
    } else if chars_eq_str(lower, "shift") {
        Some(text("Shift"))
    } else if chars_eq_str(lower, "space") {
        Some(text("Space"))
    } else {
        None
    }
}

fn named_alias(name: &Vec<char>) -> (r: Option<Vec<char>>)
    ensures
        r matches Some(a) ==> parsed_key_alias(name@) == Some(a@),
        r is None ==> parsed_key_alias(name@) is None,
{
    if chars_eq_str(name, "Enter") {
        Some(text("Enter"))
    } else if chars_eq_str(name, "Tab") {
        Some(text("Tab"))
    } else if chars_eq_str(name, "Backspace") {
        Some(text("Backspace"))
    } else if chars_eq_str(name, "Escape") {
        Some(text("Escape"))
    } else if chars_eq_str(name, " ") {
        Some(text("Space"))
    } else if chars_eq_str(name, "ArrowDown") {
        Some(text("Down"))
    } else if chars_eq_str(name, "ArrowLeft") {
        Some(text("Left"))
    } else if chars_eq_str(name, "ArrowRight") {
        Some(text("Right"))
    } else if chars_eq_str(name, "ArrowUp") {
        Some(text("Up"))
    } else if chars_eq_str(name, "End") || chars_eq_str(name, "Home") || chars_eq_str(
        name,
        "PageDown",
    ) || chars_eq_str(name, "PageUp") || chars_eq_str(name, "Delete") {
        Some(name.clone())
    } else if chars_eq_str(name, "F1") || chars_eq_str(name, "F2") || chars_eq_str(name, "F3")
        || chars_eq_str(name, "F4") || chars_eq_str(name, "F5") || chars_eq_str(name, "F6")
        || chars_eq_str(name, "F7") || chars_eq_str(name, "F8") || chars_eq_str(name, "F9")
        || chars_eq_str(name, "F10") || chars_eq_str(name, "F11") || chars_eq_str(name, "F12") {
        Some(name.clone())
    } else {
        None
    }
}

fn unparsed_alias(key: &Vec<char>) -> (r: Option<Vec<char>>)
    ensures
        r matches Some(a) ==> unparsed_key_alias(key@) == Some(a@),
        r is None ==> unparsed_key_alias(key@) is None,
{
    if chars_eq_str(key, "Return") {
        Some(text("Enter"))
    } else if chars_eq_str(key, "ArrowUp") {
        Some(text("Up"))
    } else if chars_eq_str(key, "ArrowDown") {
        Some(text("Down"))
    } else if chars_eq_str(key, "ArrowLeft") {
        Some(text("Left"))
    } else if chars_eq_str(key, "ArrowRight") {
        Some(text("Right"))
    } else if chars_eq_str(key, "CommandOrControl") || chars_eq_str(key, "Cmd") || chars_eq_str(
        key,
        "Ctrl",
    ) || chars_eq_str(key, "Command") || chars_eq_str(key, "Meta") {
        Some(text("CommandOrControl"))
    } else if chars_eq_str(key, "Control") {
        Some(text("Control"))
    } else if chars_eq_str(key, "Super") {
        Some(text("Super"))
    } else if chars_eq_str(key, "Option") {
        Some(text("Alt"))
    } else {
        None
    }
}

/// `v` with ASCII letters lower-cased.
pub fn ascii_lower_vec(v: &Vec<char>) -> (r: Vec<char>)
    ensures
        r@ == ascii_lower_seq(v@),
{
    let mut r: Vec<char> = Vec::new();
    let mut i: usize = 0;
    while i < v.len()
        invariant
            i <= v.len(),
            r@.len() == i,
            forall|j: int| 0 <= j < i ==> r@[j] == ascii_lower(v@[j]),
        decreases v.len() - i,
    {
        r.push(char_ascii_lower(v[i]));
        i += 1;
    }
    assert(r@ == ascii_lower_seq(v@));
    r
}

/// Normal form of one key, given the name under which the key parser
/// recognized it (`None` when the parser rejected the key).
pub fn normalize_key_with_parsed(key: &str, parsed: Option<String>) -> (r: String)
    ensures
        r@ == normalized_key(
            key@,
            match parsed {
                Some(n) => Some(n@),
                None => None,
            },
        ),
{
    let k = chars_of(key);
    let lower = chars_of(to_lowercase(key).as_str());
    let out = match lowercase_alias(&lower) {
        Some(alias) => alias,
        None => match parsed {
            Some(name) => {
                let n = chars_of(name.as_str());
                match named_alias(&n) {
                    Some(alias) => alias,
                    None => k,
                }
            },
            None => match unparsed_alias(&k) {
                Some(alias) => alias,
                None => k,
            },
        },
    };
    string_of(&out)
}

fn normalize_key_chars(key: &Vec<char>) -> (r: Vec<char>)
    ensures
        r@ == normalized_key(key@, keyboard_key_name(key@)),
{
    let s = string_of(key);
    let parsed = parse_keyboard_key(s.as_str());
    let n = normalize_key_with_parsed(s.as_str(), parsed);
    chars_of(n.as_str())
}

/// Normalizes every `+`-separated key of `shortcut` for the shortcut registry.
pub fn normalize_shortcut_keys(shortcut: &str) -> (r: String)
    ensures
        r@ == normalized_shortcut(shortcut@),
{
    let parts = split_chars(&chars_of(shortcut), '+');
    let ghost pieces = split_by(shortcut@, '+');
    let mut out: Vec<Vec<char>> = Vec::new();
    let mut i: usize = 0;
    while i < parts.len()
        invariant
            i <= parts.len(),
            parts@.len() == pieces.len(),
            forall|k: int| 0 <= k < parts@.len() ==> (#[trigger] parts@[k])@ == pieces[k],
            out@.len() == i,
            forall|k: int| 0 <= k < i ==> (#[trigger] out@[k])@ == normalized_key(pieces[k], keyboard_key_name(pieces[k])),
        decreases parts.len() - i,
    {
        let n = normalize_key_chars(&parts[i]);
        out.push(n);
        i += 1;
    }
    let joined = join_chars(&out, '+');
    proof {
        let target = pieces.map_values(|k: Seq<char>| normalized_key(k, keyboard_key_name(k)));
        assert(out@.map_values(|p: Vec<char>| p@) == target);
    }
    string_of(&joined)
}

// ---------------------------------------------------------------------------
// Validation
// ---------------------------------------------------------------------------

/// Limits that a key combination must respect.
#[derive(Debug, Clone)]
pub struct KeyValidationRules {
    pub min_keys: usize,
    pub max_keys: usize,
    pub require_modifier: bool,
    pub require_modifier_for_multi_key: bool,
}

impl KeyValidationRules {
    /// Standard hotkey rules: 2 to 5 keys, starting with a modifier.
    pub fn standard() -> (r: Self)
        ensures
            r.min_keys == 2,
            r.max_keys == 5,
            r.require_modifier,
            r.require_modifier_for_multi_key,
    {
        KeyValidationRules {
            min_keys: 2,
            max_keys: 5,
            require_modifier: true,
            require_modifier_for_multi_key: true,
        }
    }
}

/// Key names that count as modifiers.
pub open spec fn is_modifier_name(k: Seq<char>) -> bool {
    ||| k == "CommandOrControl"@
    ||| k == "Super"@
    ||| k == "Shift"@
    ||| k == "Alt"@
    ||| k == "Control"@
    ||| k == "Command"@
    ||| k == "Cmd"@
    ||| k == "Ctrl"@
    ||| k == "Option"@
    ||| k == "Meta"@
}

/// Some key of `parts` is a modifier.
pub open spec fn has_modifier(parts: Seq<Seq<char>>) -> bool {
    exists|i: int| 0 <= i < parts.len() && is_modifier_name(#[trigger] parts[i])
}

/// Index of the first empty key at or after `from`, if any.
pub open spec fn first_empty_key_from(parts: Seq<Seq<char>>, from: int) -> Option<int>
    decreases parts.len() - from,
{
    if from < 0 || from >= parts.len() {
        None
    } else if parts[from].len() == 0 {
        Some(from)
    } else {
        first_empty_key_from(parts, from + 1)
    }
}

/// Index of the first empty key, if any.
pub open spec fn first_empty_key(parts: Seq<Seq<char>>) -> Option<int> {
    first_empty_key_from(parts, 0)
}

/// The error that validating the keys `parts` under `rules` reports, if any.
pub open spec fn key_combination_error(parts: Seq<Seq<char>>, rules: KeyValidationRules) -> Option<Seq<char>> {
    if parts.len() < rules.min_keys {
        Some("Minimum "@ + decimal(rules.min_keys as nat) + " key(s) required"@)
    } else if parts.len() > rules.max_keys {
        Some("Maximum "@ + decimal(rules.max_keys as nat) + " keys allowed in combination"@)
    } else if rules.require_modifier && !has_modifier(parts) {
        Some("At least one modifier key is required"@)
    } else if rules.require_modifier && parts.len() > 0 && !is_modifier_name(parts[0]) {
        Some("Keyboard shortcuts must start with a modifier key (Cmd/Ctrl, Alt, or Shift)"@)
    } else if rules.require_modifier_for_multi_key && !has_modifier(parts) && parts.len() > 1 {
        Some("Multi-key shortcuts must include at least one modifier key"@)
    } else {
        match first_empty_key(parts) {
            Some(i) => Some("Invalid key: "@ + parts[i]),
            None => None,
        }
    }
}

fn is_modifier_key(k: &Vec<char>) -> (r: bool)
    ensures
        r == is_modifier_name(k@),
{
    chars_eq_str(k, "CommandOrControl") || chars_eq_str(k, "Super") || chars_eq_str(k, "Shift")
        || chars_eq_str(k, "Alt") || chars_eq_str(k, "Control") || chars_eq_str(k, "Command")
        || chars_eq_str(k, "Cmd") || chars_eq_str(k, "Ctrl") || chars_eq_str(k, "Option")
        || chars_eq_str(k, "Meta")
}

fn message1(a: &str, b: &Vec<char>) -> (r: String)
    ensures
        r@ == a@ + b@,
{
    let x = concat(&chars_of(a), b);
    string_of(&x)
}

fn message2(a: &str, b: &Vec<char>, c: &str) -> (r: String)
    ensures
        r@ == a@ + b@ + c@,
{
    let x = concat(&chars_of(a), b);
    let y = concat(&x, &chars_of(c));
    string_of(&y)
}

/// Validates `shortcut` with the standard rules.
pub fn validate_key_combination(shortcut: &str) -> (r: Result<(), String>)
    ensures
        match r {
            Ok(()) => key_combination_error(split_by(shortcut@, '+'), KeyValidationRules::standard_spec()) is None,
            Err(m) => key_combination_error(split_by(shortcut@, '+'), KeyValidationRules::standard_spec()) == Some(m@),
        },
{
    let rules = KeyValidationRules::standard();
    validate_key_combination_with_rules(shortcut, &rules)
}

impl KeyValidationRules {
    /// The value `standard()` returns.
    pub open spec fn standard_spec() -> KeyValidationRules {
        KeyValidationRules {
            min_keys: 2,
            max_keys: 5,
            require_modifier: true,
            require_modifier_for_multi_key: true,
        }
    }
}

/// Validates `shortcut` against `rules`, reporting the first violation.
#[verifier::loop_isolation(false)]
pub fn validate_key_combination_with_rules(shortcut: &str, rules: &KeyValidationRules) -> (r: Result<(), String>)
    ensures
        match r {
            Ok(()) => key_combination_error(split_by(shortcut@, '+'), *rules) is None,
            Err(m) => key_combination_error(split_by(shortcut@, '+'), *rules) == Some(m@),
        },
{
    let parts = split_chars(&chars_of(shortcut), '+');
    let ghost pieces = split_by(shortcut@, '+');
    proof {
        lemma_split_nonempty(shortcut@, '+');
    }
    if parts.len() < rules.min_keys {
        return Err(message2("Minimum ", &decimal_chars(rules.min_keys as u64), " key(s) required"));
    }
    if parts.len() > rules.max_keys {
        return Err(message2("Maximum ", &decimal_chars(rules.max_keys as u64), " keys allowed in combination"));
    }
    let mut any_modifier = false;
    let mut i: usize = 0;
    while i < parts.len()
        invariant
            i <= parts.len(),
            parts@.len() == pieces.len(),
            forall|k: int| 0 <= k < parts@.len() ==> (#[trigger] parts@[k])@ == pieces[k],
            any_modifier == (exists|k: int| 0 <= k < i && is_modifier_name(#[trigger] pieces[k])),
        decreases parts.len() - i,
    {
        if is_modifier_key(&parts[i]) {
            any_modifier = true;
        }
        i += 1;
    }
    assert(any_modifier == has_modifier(pieces));
    if rules.require_modifier && !any_modifier {
        return Err("At least one modifier key is required".to_string());
    }
    if rules.require_modifier && parts.len() > 0 && !is_modifier_key(&parts[0]) {
        return Err(
            "Keyboard shortcuts must start with a modifier key (Cmd/Ctrl, Alt, or Shift)".to_string(),
        );
    }
    if rules.require_modifier_for_multi_key && !any_modifier && parts.len() > 1 {
        return Err("Multi-key shortcuts must include at least one modifier key".to_string());
    }
    let mut j: usize = 0;
    while j < parts.len()
        invariant
            j <= parts.len(),
            parts@.len() == pieces.len(),
            forall|k: int| 0 <= k < parts@.len() ==> (#[trigger] parts@[k])@ == pieces[k],
            first_empty_key(pieces) == first_empty_key_from(pieces, j as int),
        decreases parts.len() - j,
    {
        if parts[j].len() == 0 {
            return Err(message1("Invalid key: ", &parts[j]));
        }
        j += 1;
    }
    Ok(())
}

// ---------------------------------------------------------------------------
// Laws
// ---------------------------------------------------------------------------

proof fn lemma_literal_free_of_plus(s: Seq<char>)
    requires
        forall|i: int| 0 <= i < s.len() ==> s[i] != '+',
    ensures
        !has_char(s, '+'),
{
}

proof fn lemma_normalized_key_free_of_plus(k: Seq<char>, parsed: Option<Seq<char>>)
    requires
        !has_char(k, '+'),
    ensures
        !has_char(normalized_key(k, parsed), '+'),
{
    reveal_strlit("CommandOrControl");
    reveal_strlit("Control");
    reveal_strlit("Super");
    reveal_strlit("Alt");
    reveal_strlit("Shift");
    reveal_strlit("Space");
    reveal_strlit("Enter");
    reveal_strlit("Tab");
    reveal_strlit("Backspace");
    reveal_strlit("Escape");
    reveal_strlit("Down");
    reveal_strlit("Left");
    reveal_strlit("Right");
    reveal_strlit("Up");
    reveal_strlit("End");
    reveal_strlit("Home");
    reveal_strlit("PageDown");
    reveal_strlit("PageUp");
    reveal_strlit("Delete");
    reveal_strlit("F1");
    reveal_strlit("F2");
    reveal_strlit("F3");
    reveal_strlit("F4");
    reveal_strlit("F5");
    reveal_strlit("F6");
    reveal_strlit("F7");
    reveal_strlit("F8");
    reveal_strlit("F9");
    reveal_strlit("F10");
    reveal_strlit("F11");
    reveal_strlit("F12");
    let r = normalized_key(k, parsed);
    if r != k {
        lemma_literal_free_of_plus(r);
    }
}

/// Normalization rewrites each key on its own: splitting the normalized
/// shortcut at `+` gives exactly the normalized keys of the input, so the
/// number of keys never changes.
pub proof fn law_normalization_is_keywise(shortcut: Seq<char>)
    ensures
        split_by(normalized_shortcut(shortcut), '+') == split_by(shortcut, '+').map_values(
            |k: Seq<char>| normalized_key(k, keyboard_key_name(k)),
        ),
        split_by(normalized_shortcut(shortcut), '+').len() == split_by(shortcut, '+').len(),
{
    let pieces = split_by(shortcut, '+');
    let mapped = pieces.map_values(|k: Seq<char>| normalized_key(k, keyboard_key_name(k)));
    lemma_split_nonempty(shortcut, '+');
    lemma_split_pieces_free_of_sep(shortcut, '+');
    assert forall|k: int| 0 <= k < mapped.len() implies !has_char(#[trigger] mapped[k], '+') by {
        lemma_normalized_key_free_of_plus(pieces[k], keyboard_key_name(pieces[k]));
    }
    lemma_split_join(mapped, '+');
}

/// Normalization works key by key: normalizing `a+b` gives the normal
/// form of `a`, a `+`, and the normal form of `b`.
pub proof fn law_normalization_distributes_over_plus(a: Seq<char>, b: Seq<char>)
    ensures
        normalized_shortcut(a + seq!['+'] + b) == normalized_shortcut(a) + seq!['+'] + normalized_shortcut(b),
{
    let pa = split_by(a, '+');
    let pb = split_by(b, '+');
    lemma_split_nonempty(a, '+');
    lemma_split_nonempty(b, '+');
    lemma_join_split(a, '+');
    lemma_join_split(b, '+');
    lemma_split_pieces_free_of_sep(a, '+');
    lemma_split_pieces_free_of_sep(b, '+');
    lemma_join_concat(pa, pb, '+');
    assert(a + seq!['+'] + b =~= join_by(pa, '+').push('+') + join_by(pb, '+'));
    assert forall|k: int| 0 <= k < (pa + pb).len() implies !has_char(#[trigger] (pa + pb)[k], '+') by {
        if k < pa.len() {
            assert((pa + pb)[k] == pa[k]);
        } else {
            assert((pa + pb)[k] == pb[k - pa.len()]);
        }
    }
    lemma_split_join(pa + pb, '+');
    let ma = pa.map_values(|k: Seq<char>| normalized_key(k, keyboard_key_name(k)));
    let mb = pb.map_values(|k: Seq<char>| normalized_key(k, keyboard_key_name(k)));
    assert((pa + pb).map_values(|k: Seq<char>| normalized_key(k, keyboard_key_name(k))) =~= ma + mb);
    lemma_join_concat(ma, mb, '+');
    assert(join_by(ma, '+').push('+') + join_by(mb, '+') =~= join_by(ma, '+') + seq!['+'] + join_by(mb, '+'));
}

/// Modifier names are recognized whatever their case, before anything the
/// key parser makes of them: Option and Alt are Alt; Cmd, Ctrl, Command and
/// Meta are CommandOrControl; Control, Super, Shift and Space keep their
/// own names.
pub proof fn law_modifier_names(key: Seq<char>, parsed: Option<Seq<char>>)
    ensures
        lowercase_of(key) == "option"@ || lowercase_of(key) == "alt"@ ==> normalized_key(key, parsed) == "Alt"@,
        lowercase_of(key) == "cmd"@ || lowercase_of(key) == "ctrl"@ || lowercase_of(key) == "command"@
            || lowercase_of(key) == "meta"@ ==> normalized_key(key, parsed) == "CommandOrControl"@,
        lowercase_of(key) == "control"@ ==> normalized_key(key, parsed) == "Control"@,
        lowercase_of(key) == "super"@ ==> normalized_key(key, parsed) == "Super"@,
        lowercase_of(key) == "shift"@ ==> normalized_key(key, parsed) == "Shift"@,
        lowercase_of(key) == "space"@ ==> normalized_key(key, parsed) == "Space"@,
{
    reveal_strlit("cmd");
    reveal_strlit("ctrl");
    reveal_strlit("command");
    reveal_strlit("meta");
    reveal_strlit("control");
    reveal_strlit("super");
    reveal_strlit("option");
    reveal_strlit("alt");
    reveal_strlit("shift");
    reveal_strlit("space");
    let l = lowercase_of(key);
    if l == "option"@ || l == "alt"@ || l == "control"@ || l == "super"@ || l == "shift"@ || l == "space"@ {
        assert(l != "cmd"@ && l != "ctrl"@ && l != "command"@ && l != "meta"@) by {
            assert(l.len() != "cmd"@.len() || l[0] != 'c');
            assert(l.len() != "ctrl"@.len() || l[0] != 'c');
            assert(l.len() != "command"@.len() || l[2] != 'm');
            assert(l.len() != "meta"@.len() || l[0] != 'm');
        }
    }
    if l == "option"@ || l == "alt"@ || l == "super"@ || l == "shift"@ || l == "space"@ {
        assert(l != "control"@) by {
            assert(l.len() != "control"@.len() || l[0] != 'c');
        }
    }
    if l == "option"@ || l == "alt"@ || l == "shift"@ || l == "space"@ {
        assert(l != "super"@) by {
            assert(l.len() != "super"@.len() || l[1] != 'u');
        }
    }
    if l == "shift"@ || l == "space"@ {
        assert(l != "option"@ && l != "alt"@) by {
            assert(l[0] != 'o' && l[0] != 'a');
        }
    }
    if l == "space"@ {
        assert(l != "shift"@) by {
            assert(l[1] != 'h');
        }
    }
}

proof fn lemma_no_empty_key_from(parts: Seq<Seq<char>>, from: int)
    requires
        0 <= from,
        first_empty_key_from(parts, from) is None,
    ensures
        forall|k: int| from <= k < parts.len() ==> (#[trigger] parts[k]).len() > 0,
    decreases parts.len() - from,
{
    if from < parts.len() {
        lemma_no_empty_key_from(parts, from + 1);
    }
}

/// A key list accepted under the standard rules has two to five keys, all
/// non-empty, and starts with a modifier.
pub proof fn law_standard_rules_shape(parts: Seq<Seq<char>>)
    requires
        key_combination_error(parts, KeyValidationRules::standard_spec()) is None,
    ensures
        2 <= parts.len() <= 5,
        is_modifier_name(parts[0]),
        has_modifier(parts),
        forall|k: int| 0 <= k < parts.len() ==> (#[trigger] parts[k]).len() > 0,
{
    lemma_no_empty_key_from(parts, 0);
}

} // verus!
