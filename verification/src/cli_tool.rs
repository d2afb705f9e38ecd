//! The `voicetypr` command-line launcher: its status, the shell shim that
//! macOS installs, the escaping that keeps the privileged install step free
//! of injection, and the edits of the Windows user `Path` that expose or
//! hide the install directory.
use vstd::prelude::*;
use crate::text::{
    chars_eq_ignore_ascii_case, chars_of, concat, contains_chars, contains_seq, eq_ignore_ascii_case, escape_with,
    has_char,
    join_by, join_chars, lemma_split_append_free, lemma_split_join, lemma_split_nonempty,
    lemma_split_pieces_free_of_sep, split_by, split_chars, string_of, trim, trim_chars, trim_end_char,
    trim_end_char_chars,
};

verus! {

broadcast use vstd::string::group_string_axioms;

/// Where the launcher stands and whether the app can manage it.
#[derive(Debug, Clone)]
pub struct CliToolStatus {
    /// `voicetypr` is reachable from a terminal.
    pub installed: bool,
    /// Install and uninstall can be managed from the app.
    pub manageable: bool,
    /// Where the command lives or how to invoke it, when known.
    pub path: Option<String>,
}

/// Where the macOS shim is installed.
pub const MACOS_SHIM_PATH: &'static str = "/usr/local/bin/voicetypr";

/// The status on a platform where the launcher cannot be managed.
pub fn unsupported_status() -> (r: CliToolStatus)
    ensures
        !r.installed,
        !r.manageable,
        r.path is None,
{
    CliToolStatus { installed: false, manageable: false, path: None }
}

// ---------------------------------------------------------------------------
// Escaping
// ---------------------------------------------------------------------------

/// The AppleScript escape of one character: backslash and double quote get
/// a backslash.
pub open spec fn applescript_char(c: char) -> Seq<char> {
    if c == '\\' {
        seq!['\\', '\\']
    } else if c == '"' {
        seq!['\\', '"']
    } else {
        seq![c]
    }
}

/// The `/bin/sh` double-quote escape of one character: backslash, double
/// quote, dollar and backtick get a backslash.
pub open spec fn sh_char(c: char) -> Seq<char> {
    if c == '\\' || c == '"' || c == '$' || c == '`' {
        seq!['\\', c]
    } else {
        seq![c]
    }
}

/// Escapes `s` for an AppleScript double-quoted literal.
pub fn applescript_escape(s: &str) -> (r: String)
    ensures
        r@ == escape_with(s@, |c: char| applescript_char(c)),
{
    let v = chars_of(s);
    let mut out: Vec<char> = Vec::new();
    let mut i: usize = 0;
    while i < v.len()
        invariant
            i <= v@.len(),
            v@ == s@,
            out@ == escape_with(v@.take(i as int), |c: char| applescript_char(c)),
        decreases v@.len() - i,
    {
        let c = v[i];
        assert(v@.take(i + 1).drop_last() == v@.take(i as int));
        if c == '\\' {
            out.push('\\');
            out.push('\\');
        } else if c == '"' {
            out.push('\\');
            out.push('"');
        } else {
            out.push(c);
        }
        assert(out@ == escape_with(v@.take(i as int), |c: char| applescript_char(c)) + applescript_char(c));
        i += 1;
    }
    assert(v@.take(v@.len() as int) == v@);
    string_of(&out)
}

/// Escapes a path for a `"..."` literal in `/bin/sh`.
pub fn sh_double_quote_escape(s: &str) -> (r: String)
    ensures
        r@ == escape_with(s@, |c: char| sh_char(c)),
{
    let v = chars_of(s);
    let mut out: Vec<char> = Vec::new();
    let mut i: usize = 0;
    while i < v.len()
        invariant
            i <= v@.len(),
            v@ == s@,
            out@ == escape_with(v@.take(i as int), |c: char| sh_char(c)),
        decreases v@.len() - i,
    {
        let c = v[i];
        assert(v@.take(i + 1).drop_last() == v@.take(i as int));
        if c == '\\' || c == '"' || c == '$' || c == '`' {
            out.push('\\');
        }
        out.push(c);
        assert(out@ == escape_with(v@.take(i as int), |c: char| sh_char(c)) + sh_char(c));
        i += 1;
    }
    assert(v@.take(v@.len() as int) == v@);
    string_of(&out)
}

/// Whether `c` ends a `/bin/sh` double-quoted literal or expands inside it.
pub open spec fn sh_special(c: char) -> bool {
    c == '\\' || c == '"' || c == '$' || c == '`'
}

/// How `/bin/sh` reads the inside of a double-quoted literal (without line
/// continuations): a backslash before a special character stands for that
/// character; any other character stands for itself.
pub open spec fn sh_unescape(t: Seq<char>) -> Seq<char>
    decreases t.len(),
{
    if t.len() == 0 {
        Seq::empty()
    } else if t.len() >= 2 && t[0] == '\\' && sh_special(t[1]) {
        seq![t[1]] + sh_unescape(t.skip(2))
    } else {
        seq![t[0]] + sh_unescape(t.skip(1))
    }
}

proof fn lemma_escape_front(s: Seq<char>, esc: spec_fn(char) -> Seq<char>)
    requires
        s.len() > 0,
    ensures
        escape_with(s, esc) == esc(s[0]) + escape_with(s.skip(1), esc),
    decreases s.len(),
{
    if s.len() == 1 {
        assert(s.drop_last() == Seq::<char>::empty());
        assert(s.skip(1) == Seq::<char>::empty());
        assert(escape_with(Seq::<char>::empty(), esc) == Seq::<char>::empty());
        assert(s.last() == s[0]);
        assert(Seq::<char>::empty() + esc(s[0]) == esc(s[0]));
        assert(esc(s[0]) + Seq::<char>::empty() == esc(s[0]));
    } else {
        lemma_escape_front(s.drop_last(), esc);
        assert(s.drop_last()[0] == s[0]);
        assert(s.drop_last().skip(1) == s.skip(1).drop_last());
        assert(s.skip(1).last() == s.last());
        assert(esc(s[0]) + escape_with(s.skip(1).drop_last(), esc) + esc(s.last()) == esc(s[0]) + (escape_with(
            s.skip(1).drop_last(),
            esc,
        ) + esc(s.last())));
    }
}

/// Reading a shell-escaped path back gives the path: the escaped text
/// cannot end the literal or expand anything.
pub proof fn law_sh_escape_round_trip(s: Seq<char>)
    ensures
        sh_unescape(escape_with(s, |c: char| sh_char(c))) == s,
    decreases s.len(),
{
    let esc = |c: char| sh_char(c);
    if s.len() > 0 {
        lemma_escape_front(s, esc);
        law_sh_escape_round_trip(s.skip(1));
        let rest = escape_with(s.skip(1), esc);
        let t = esc(s[0]) + rest;
        if sh_special(s[0]) {
            assert(t[0] == '\\' && t[1] == s[0]);
            assert(t.skip(2) == rest);
        } else {
            assert(t[0] == s[0]);
            assert(t.skip(1) == rest);
            if s[0] == '\\' {
                assert(false);
            }
        }
        assert(seq![s[0]] + s.skip(1) == s);
    }
}

// ---------------------------------------------------------------------------
// macOS shim
// ---------------------------------------------------------------------------

/// The shim that runs the in-bundle executable `exe` with all arguments.
pub open spec fn shim_spec(exe: Seq<char>) -> Seq<char> {
    "#!/bin/sh\n# VoiceTypr CLI launcher (managed by VoiceTypr; reinstall from Settings). Do not edit.\nexec \""@
        + escape_with(exe, |c: char| sh_char(c)) + "\" \"$@\"\n"@
}

/// The shim script for the executable at `exe`.
pub fn build_shim(exe: &str) -> (r: String)
    ensures
        r@ == shim_spec(exe@),
{
    let head = chars_of(
        "#!/bin/sh\n# VoiceTypr CLI launcher (managed by VoiceTypr; reinstall from Settings). Do not edit.\nexec \"",
    );
    let body = sh_double_quote_escape(exe);
    let x = concat(&head, &chars_of(body.as_str()));
    string_of(&concat(&x, &chars_of("\" \"$@\"\n")))
}

/// The launcher cannot point into a translocated (temporary, read-only)
/// copy of the app.
pub fn check_install_location(exe: &str) -> (r: Result<(), String>)
    ensures
        r is Ok == !contains_seq(exe@, "/AppTranslocation/"@),
        r matches Err(e) ==> e@ == "Move VoiceTypr to your Applications folder before installing the command."@,
{
    if contains_chars(&chars_of(exe), &chars_of("/AppTranslocation/")) {
        Err(string_of(&chars_of("Move VoiceTypr to your Applications folder before installing the command.")))
    } else {
        Ok(())
    }
}

/// The macOS status: the command is at the shim path when the shim exists.
pub fn macos_status(shim_exists: bool) -> (r: CliToolStatus)
    ensures
        r.installed == shim_exists,
        r.manageable,
        match r.path {
            Some(p) => shim_exists && p@ == MACOS_SHIM_PATH@,
            None => !shim_exists,
        },
{
    CliToolStatus {
        installed: shim_exists,
        manageable: true,
        path: if shim_exists {
            Some(string_of(&chars_of(MACOS_SHIM_PATH)))
        } else {
            None
        },
    }
}

/// The privileged shell step that places the staged shim `tmp`.
pub fn admin_install_script(tmp: &str) -> (r: String)
    ensures
        r@ == "mkdir -p /usr/local/bin && cp '"@ + tmp@ + "' '"@ + MACOS_SHIM_PATH@ + "' && chmod 755 '"@
            + MACOS_SHIM_PATH@ + "'"@,
{
    let mut v = chars_of("mkdir -p /usr/local/bin && cp '");
    v = concat(&v, &chars_of(tmp));
    v = concat(&v, &chars_of("' '"));
    v = concat(&v, &chars_of(MACOS_SHIM_PATH));
    v = concat(&v, &chars_of("' && chmod 755 '"));
    v = concat(&v, &chars_of(MACOS_SHIM_PATH));
    v = concat(&v, &chars_of("'"));
    string_of(&v)
}

/// The privileged shell step that removes the shim.
pub fn admin_uninstall_script() -> (r: String)
    ensures
        r@ == "rm -f '"@ + MACOS_SHIM_PATH@ + "'"@,
{
    let v = concat(&chars_of("rm -f '"), &chars_of(MACOS_SHIM_PATH));
    string_of(&concat(&v, &chars_of("'")))
}

/// The AppleScript that runs `shell_script` with administrator privileges.
pub fn osascript_source(shell_script: &str) -> (r: String)
    ensures
        r@ == "do shell script \""@ + escape_with(shell_script@, |c: char| applescript_char(c))
            + "\" with administrator privileges"@,
{
    let esc = applescript_escape(shell_script);
    let v = concat(&chars_of("do shell script \""), &chars_of(esc.as_str()));
    string_of(&concat(&v, &chars_of("\" with administrator privileges")))
}

/// The error of a failed privileged step, from its standard error: a
/// cancelled authorization, or the trimmed error text.
pub fn osascript_failure(stderr: &str) -> (r: String)
    ensures
        r@ == if contains_seq(stderr@, "-128"@) || contains_seq(stderr@, "User canceled"@) {
            "Authorization was cancelled."@
        } else {
            "Failed to install command: "@ + trim(stderr@)
        },
{
    let e = chars_of(stderr);
    if contains_chars(&e, &chars_of("-128")) || contains_chars(&e, &chars_of("User canceled")) {
        string_of(&chars_of("Authorization was cancelled."))
    } else {
        string_of(&concat(&chars_of("Failed to install command: "), &trim_chars(&e)))
    }
}

// ---------------------------------------------------------------------------
// Windows user Path
// ---------------------------------------------------------------------------

/// A `Path` entry or directory as compared: surrounding whitespace and
/// trailing backslashes removed.
pub open spec fn normalize_entry(s: Seq<char>) -> Seq<char> {
    trim_end_char(trim(s), '\\')
}

/// Whether a `Path` entry names `dir`: case-insensitively (ASCII), ignoring
/// trailing backslashes; an empty entry names nothing.
pub open spec fn entry_matches_dir_spec(entry: Seq<char>, dir: Seq<char>) -> bool {
    normalize_entry(entry).len() > 0 && eq_ignore_ascii_case(normalize_entry(entry), normalize_entry(dir))
}

/// Whether some `;`-separated entry of `path` names `dir`.
pub open spec fn path_contains_dir_spec(path: Seq<char>, dir: Seq<char>) -> bool {
    exists|i: int| 0 <= i < split_by(path, ';').len() && #[trigger] entry_matches_dir_spec(split_by(path, ';')[i], dir)
}

/// Case-insensitive, trailing-backslash-insensitive comparison of one entry.
pub fn entry_matches_dir(entry: &str, dir: &str) -> (r: bool)
    ensures
        r == entry_matches_dir_spec(entry@, dir@),
{
    let e = trim_end_char_chars(&trim_chars(&chars_of(entry)), '\\');
    let d = trim_end_char_chars(&trim_chars(&chars_of(dir)), '\\');
    e.len() > 0 && chars_eq_ignore_ascii_case(&e, &d)
}

fn entry_matches_chars(entry: &Vec<char>, dir: &str) -> (r: bool)
    ensures
        r == entry_matches_dir_spec(entry@, dir@),
{
    let s = string_of(entry);
    entry_matches_dir(s.as_str(), dir)
}

/// Whether some entry of `path` names `dir`.
pub fn path_contains_dir(path: &str, dir: &str) -> (r: bool)
    ensures
        r == path_contains_dir_spec(path@, dir@),
{
    let parts = split_chars(&chars_of(path), ';');
    let mut i: usize = 0;
    while i < parts.len()
        invariant
            i <= parts@.len(),
            parts@.len() == split_by(path@, ';').len(),
            forall|k: int| 0 <= k < parts@.len() ==> (#[trigger] parts@[k])@ == split_by(path@, ';')[k],
            forall|k: int| 0 <= k < i ==> !#[trigger] entry_matches_dir_spec(split_by(path@, ';')[k], dir@),
        decreases parts@.len() - i,
    {
        if entry_matches_chars(&parts[i], dir) {
            assert(entry_matches_dir_spec(split_by(path@, ';')[i as int], dir@));
            return true;
        }
        i += 1;
    }
    false
}

/// The `Path` after exposing `dir`: unchanged (`None`) when an entry already
/// names it; else `dir` alone for an empty `Path`, or the `Path` without
/// trailing `;`, a `;`, and `dir`.
pub open spec fn installed_path_spec(current: Seq<char>, dir: Seq<char>) -> Option<Seq<char>> {
    if path_contains_dir_spec(current, dir) {
        None
    } else if current.len() == 0 {
        Some(dir)
    } else {
        Some(trim_end_char(current, ';').push(';') + dir)
    }
}

/// Computes the `Path` that exposes `dir`, or `None` when it already does.
pub fn install(current: &str, dir: &str) -> (r: Option<String>)
    ensures
        opt_view(&r) == installed_path_spec(current@, dir@),
{
    if path_contains_dir(current, dir) {
        return None;
    }
    let c = chars_of(current);
    if c.len() == 0 {
        return Some(string_of(&chars_of(dir)));
    }
    let mut head = trim_end_char_chars(&c, ';');
    head.push(';');
    Some(string_of(&concat(&head, &chars_of(dir))))
}

/// The entries of a `Path` that do not name `dir`.
pub open spec fn kept_entries(current: Seq<char>, dir: Seq<char>) -> Seq<Seq<char>> {
    split_by(current, ';').filter(|e: Seq<char>| !entry_matches_dir_spec(e, dir))
}

/// The `Path` after hiding `dir`: unchanged (`None`) when there is no `Path`
/// or no entry names `dir`; else the other entries joined with `;`.
pub open spec fn uninstalled_path_spec(current: Option<Seq<char>>, dir: Seq<char>) -> Option<Seq<char>> {
    match current {
        None => None,
        Some(c) => if !path_contains_dir_spec(c, dir) {
            None
        } else {
            Some(join_by(kept_entries(c, dir), ';'))
        },
    }
}

/// The view of an optional string.
pub open spec fn opt_view(o: &Option<String>) -> Option<Seq<char>> {
    match o {
        Some(s) => Some(s@),
        None => None,
    }
}

/// Computes the `Path` that hides `dir`, or `None` when nothing changes.
pub fn uninstall(current: &Option<String>, dir: &str) -> (r: Option<String>)
    ensures
        opt_view(&r) == uninstalled_path_spec(opt_view(current), dir@),
{
    let cur = match current {
        Some(c) => c,
        None => return None,
    };
    if !path_contains_dir(cur.as_str(), dir) {
        return None;
    }
    let parts = split_chars(&chars_of(cur.as_str()), ';');
    let ghost pieces = split_by(cur@, ';');
    let ghost pred = |e: Seq<char>| !entry_matches_dir_spec(e, dir@);
    let mut kept: Vec<Vec<char>> = Vec::new();
    let mut i: usize = 0;
    while i < parts.len()
        invariant
            i <= parts@.len(),
            parts@.len() == pieces.len(),
            pieces == split_by(cur@, ';'),
            pred == (|e: Seq<char>| !entry_matches_dir_spec(e, dir@)),
            forall|k: int| 0 <= k < parts@.len() ==> (#[trigger] parts@[k])@ == pieces[k],
            kept@.map_values(|p: Vec<char>| p@) == pieces.take(i as int).filter(pred),
        decreases parts@.len() - i,
    {
        proof {
            pieces.take(i as int).lemma_filter_push(pieces[i as int], pred);
            assert(pieces.take(i + 1) == pieces.take(i as int).push(pieces[i as int]));
        }
        if !entry_matches_chars(&parts[i], dir) {
            kept.push(parts[i].clone());
            assert(kept@.map_values(|p: Vec<char>| p@) == pieces.take(i as int).filter(pred).push(pieces[i as int]));
        } else {
            assert(kept@.map_values(|p: Vec<char>| p@) == pieces.take(i + 1).filter(pred));
        }
        i += 1;
    }
    assert(pieces.take(pieces.len() as int) == pieces);
    Some(string_of(&join_chars(&kept, ';')))
}

/// Exposing a directory that names itself (no `;`, not blank) leaves it on
/// the `Path`.
pub proof fn law_install_exposes_dir(current: Seq<char>, dir: Seq<char>)
    requires
        !has_char(dir, ';'),
        normalize_entry(dir).len() > 0,
    ensures
        path_contains_dir_spec(
            match installed_path_spec(current, dir) {
                Some(p) => p,
                None => current,
            },
            dir,
        ),
{
    if !path_contains_dir_spec(current, dir) {
        let p = installed_path_spec(current, dir)->0;
        let head = if current.len() == 0 {
            Seq::<char>::empty()
        } else {
            trim_end_char(current, ';').push(';')
        };
        assert(p == head + dir) by {
            if current.len() == 0 {
                assert(Seq::<char>::empty() + dir == dir);
            }
        }
        lemma_split_append_free(head, dir, ';');
        lemma_split_nonempty(head, ';');
        let sp = split_by(head, ';');
        let last = sp.len() - 1;
        assert(split_by(head, ';').last() == Seq::<char>::empty()) by {
            if current.len() > 0 {
                assert(head.drop_last() == trim_end_char(current, ';'));
            }
        }
        assert(Seq::<char>::empty() + dir == dir);
        assert(split_by(p, ';')[last] == dir);
        assert(entry_matches_dir_spec(dir, dir));
        assert(entry_matches_dir_spec(split_by(p, ';')[last], dir));
    }
}

/// After hiding a directory, no entry of the `Path` names it.
pub proof fn law_uninstall_hides_dir(current: Seq<char>, dir: Seq<char>)
    ensures
        uninstalled_path_spec(Some(current), dir) matches Some(p) ==> !path_contains_dir_spec(p, dir),
{
    if path_contains_dir_spec(current, dir) {
        let kept = kept_entries(current, dir);
        let pred = |e: Seq<char>| !entry_matches_dir_spec(e, dir);
        let p = join_by(kept, ';');
        let pieces = split_by(current, ';');
        lemma_split_pieces_free_of_sep(current, ';');
        assert forall|k: int| 0 <= k < kept.len() implies !has_char(#[trigger] kept[k], ';') && !entry_matches_dir_spec(
            kept[k],
            dir,
        ) by {
            pieces.lemma_filter_pred(pred, k);
            assert(kept.contains(kept[k]));
            pieces.lemma_filter_contains_rev(pred, kept[k]);
            let j = choose|j: int| 0 <= j < pieces.len() && pieces[j] == kept[k];
            assert(!has_char(pieces[j], ';'));
        }
        if kept.len() == 0 {
            assert(p == Seq::<char>::empty());
            assert(split_by(p, ';') == seq![Seq::<char>::empty()]);
            assert(trim(Seq::<char>::empty()).len() == 0) by {
                reveal_with_fuel(crate::text::trim_start, 2);
            }
            assert(normalize_entry(Seq::<char>::empty()).len() == 0) by {
                assert(trim(Seq::<char>::empty()) == Seq::<char>::empty()) by {
                    reveal_with_fuel(crate::text::trim_start, 2);
                    reveal_with_fuel(crate::text::trim_end, 2);
                }
            }
            assert(!entry_matches_dir_spec(split_by(p, ';')[0], dir));
        } else {
            lemma_split_join(kept, ';');
            assert(split_by(p, ';') == kept);
        }
    }
}

} // verus!
