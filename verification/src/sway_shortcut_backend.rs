//! Compositor-managed shortcuts on Sway: the `bindsym` directive to add, and the
//! diagnosis of whether the active (or on-disk) configuration binds it.
use vstd::prelude::*;

use crate::shortcut_backend::{
    opt_view, NamedKey, OutcomeView, Shortcut, ShortcutBackendCapability, ShortcutError,
    ShortcutKey, ShortcutModifiers, ShortcutRegistrationOutcome,
};
use crate::shortcut_config::{apply_modifier, apply_modifier_name};
use crate::text::{is_ws, path_join, path_push,
    append_chars, append_str, ascii_lower, before, before_char, char_to_ascii_lowercase,
    chars_eq, chars_to_string, decimal, decimal_u8, eq_ic, eq_ignore_case, eq_ignore_case_str,
    eq_str, join, join_chars, lines, lower, one_of, slice, split_lines, split_on, split_when,
    split_whitespace, split_ws, starts_with, starts_with_str, str_chars, to_ascii_lowercase, trim,
    trim_chars, views,
};

verus! {

#[derive(Debug, Clone, PartialEq, Eq)]
pub enum SwayBindingDiagnosis {
    MatchedPookie,
    Conflict { command: String },
    NotFound,
}

/// A Sway diagnosis by its text.
pub enum SwayDiagnosisView {
    MatchedPookie,
    Conflict(Seq<char>),
    NotFound,
}

impl View for SwayBindingDiagnosis {
    type V = SwayDiagnosisView;

    open spec fn view(&self) -> SwayDiagnosisView {
        match self {
            SwayBindingDiagnosis::MatchedPookie => SwayDiagnosisView::MatchedPookie,
            SwayBindingDiagnosis::Conflict { command } => SwayDiagnosisView::Conflict(command@),
            SwayBindingDiagnosis::NotFound => SwayDiagnosisView::NotFound,
        }
    }
}

// ---------------------------------------------------------------------------
// Binding directive

/// Sway's names of the held modifiers, in the order Mod4, Ctrl, Mod1, Shift.
pub open spec fn sway_modifier_names(m: ShortcutModifiers) -> Seq<Seq<char>> {
    let a: Seq<Seq<char>> = if m.super_key { seq!["Mod4"@] } else { Seq::empty() };
    let b = if m.control { a.push("Ctrl"@) } else { a };
    let c = if m.alt { b.push("Mod1"@) } else { b };
    if m.shift { c.push("Shift"@) } else { c }
}

/// Sway's name of a key: characters in lower case.
pub open spec fn sway_key_name(k: ShortcutKey) -> Seq<char> {
    match k {
        ShortcutKey::Character(c) => seq![ascii_lower(c)],
        ShortcutKey::Named(n) => match n {
            NamedKey::Space => "space"@,
            NamedKey::Tab => "Tab"@,
            NamedKey::Enter => "Return"@,
            NamedKey::Escape => "Escape"@,
            NamedKey::Insert => "Insert"@,
            NamedKey::Delete => "Delete"@,
            NamedKey::F(n) => "F"@ + decimal(n as nat),
        },
    }
}

/// `bindsym <mods>+<key> exec pookie-paste --toggle`.
pub open spec fn sway_binding_text(s: Shortcut) -> Seq<char> {
    "bindsym "@ + join(sway_modifier_names(s.modifiers).push(sway_key_name(s.key)), "+"@)
        + " exec pookie-paste --toggle"@
}

fn sway_key_chars(k: ShortcutKey) -> (r: Vec<char>)
    ensures
        r@ == sway_key_name(k),
{
    match k {
        ShortcutKey::Character(c) => vec![char_to_ascii_lowercase(c)],
        ShortcutKey::Named(n) => match n {
            NamedKey::Space => str_chars("space"),
            NamedKey::Tab => str_chars("Tab"),
            NamedKey::Enter => str_chars("Return"),
            NamedKey::Escape => str_chars("Escape"),
            NamedKey::Insert => str_chars("Insert"),
            NamedKey::Delete => str_chars("Delete"),
            NamedKey::F(n) => {
                let mut r = str_chars("F");
                let d = decimal_u8(n);
                append_chars(&mut r, &d);
                r
            },
        },
    }
}

/// Formats the canonical Sway `bindsym` directive for a given shortcut.
pub fn format_sway_binding(shortcut: Shortcut) -> (r: String)
    ensures
        r@ == sway_binding_text(shortcut),
{
    let mut parts: Vec<Vec<char>> = Vec::new();
    if shortcut.modifiers.super_key {
        parts.push(str_chars("Mod4"));
    }
    if shortcut.modifiers.control {
        parts.push(str_chars("Ctrl"));
    }
    if shortcut.modifiers.alt {
        parts.push(str_chars("Mod1"));
    }
    if shortcut.modifiers.shift {
        parts.push(str_chars("Shift"));
    }
    parts.push(sway_key_chars(shortcut.key));
    assert(views(parts@) =~= sway_modifier_names(shortcut.modifiers).push(
        sway_key_name(shortcut.key),
    ));
    let plus = str_chars("+");
    let combo = join_chars(&parts, &plus);
    let mut out = str_chars("bindsym ");
    append_chars(&mut out, &combo);
    append_str(&mut out, " exec pookie-paste --toggle");
    chars_to_string(&out)
}

// ---------------------------------------------------------------------------
// Recognising Pookie Paste commands

/// The components of a path that name something: empty and `.` components
/// are dropped.
pub open spec fn named_components(parts: Seq<Seq<char>>) -> Seq<Seq<char>>
    decreases parts.len(),
{
    if parts.len() == 0 {
        Seq::empty()
    } else if parts.last().len() > 0 && parts.last() != "."@ {
        named_components(parts.drop_last()).push(parts.last())
    } else {
        named_components(parts.drop_last())
    }
}

/// `Path::file_name`: the final component, unless there is none or it is `..`.
pub open spec fn path_file_name(p: Seq<char>) -> Option<Seq<char>> {
    let c = named_components(split_when(p, one_of(seq!['/'])));
    if c.len() == 0 || c.last() == ".."@ {
        None
    } else {
        Some(c.last())
    }
}

/// The final component of a path, unless there is none or it is `..`.
pub fn file_name(p: &Vec<char>) -> (r: Option<Vec<char>>)
    ensures
        match r {
            Some(n) => path_file_name(p@) == Some(n@),
            None => path_file_name(p@) is None,
        },
{
    let slash = vec!['/'];
    assert(slash@ == seq!['/']);
    let parts = split_on(p, &slash);
    let ghost pv = views(parts@);
    let mut comps: Vec<Vec<char>> = Vec::new();
    for i in 0..parts.len()
        invariant
            pv == views(parts@),
            views(comps@) == named_components(pv.take(i as int)),
    {
        assert(pv.take(i + 1).drop_last() == pv.take(i as int));
        assert(pv.take(i + 1).last() == parts@[i as int]@);
        if parts[i].len() > 0 && !eq_str(&parts[i], ".") {
            comps.push(parts[i].clone());
        }
    }
    assert(pv.take(parts.len() as int) == pv);
    if comps.len() == 0 {
        return None;
    }
    let last = comps[comps.len() - 1].clone();
    if eq_str(&last, "..") {
        None
    } else {
        Some(last)
    }
}

/// The index of the binary among a command's words: after an optional `exec`
/// and an optional `--no-startup-id` following it.
pub open spec fn binary_index(t: Seq<Seq<char>>) -> Option<int> {
    if t.len() == 0 {
        None
    } else if t[0] == "exec"@ {
        if t.len() < 2 {
            None
        } else if t[1] == "--no-startup-id"@ {
            if t.len() < 3 {
                None
            } else {
                Some(2)
            }
        } else {
            Some(1)
        }
    } else {
        Some(0)
    }
}

/// Some word after index `b` is `--toggle` or `-t`.
pub open spec fn toggle_after(t: Seq<Seq<char>>, b: int) -> bool {
    exists|k: int| b < k < t.len() && (#[trigger] t[k] == "--toggle"@ || t[k] == "-t"@)
}

/// The command runs `pookie-paste --toggle` (or `-t`) or `pookie-paste-ui`,
/// by binary name, optionally behind `exec` and `--no-startup-id`.
pub open spec fn pookie_command(command: Seq<char>) -> bool {
    let t = split_ws(command);
    match binary_index(t) {
        None => false,
        Some(b) => {
            let name = match path_file_name(t[b]) {
                Some(n) => n,
                None => t[b],
            };
            if name == "pookie-paste"@ {
                toggle_after(t, b)
            } else {
                name == "pookie-paste-ui"@
            }
        },
    }
}

/// Whether the command invokes Pookie Paste.
pub fn is_pookie_command_chars(command: &Vec<char>) -> (r: bool)
    ensures
        r == pookie_command(command@),
{
    let t = split_whitespace(command);
    let ghost tv = views(t@);
    let b: usize;
    if t.len() == 0 {
        return false;
    } else if eq_str(&t[0], "exec") {
        if t.len() < 2 {
            return false;
        } else if eq_str(&t[1], "--no-startup-id") {
            if t.len() < 3 {
                return false;
            } else {
                b = 2;
            }
        } else {
            b = 1;
        }
    } else {
        b = 0;
    }
    assert(binary_index(tv) == Some(b as int));
    assert(tv[b as int] == t@[b as int]@);
    let name = match file_name(&t[b]) {
        Some(n) => n,
        None => t[b].clone(),
    };
    assert(name@ == match path_file_name(tv[b as int]) {
        Some(n) => n,
        None => tv[b as int],
    });
    if eq_str(&name, "pookie-paste") {
        let mut k = b + 1;
        while k < t.len()
            invariant
                b < k <= t.len(),
                tv == views(t@),
                tv == split_ws(command@),
                binary_index(tv) == Some(b as int),
                (match path_file_name(tv[b as int]) {
                    Some(n) => n,
                    None => tv[b as int],
                }) == "pookie-paste"@,
                forall|j: int| b < j < k ==> !(#[trigger] tv[j] == "--toggle"@ || tv[j] == "-t"@),
            decreases t.len() - k,
        {
            if eq_str(&t[k], "--toggle") || eq_str(&t[k], "-t") {
                assert(tv[k as int] == t@[k as int]@);
                assert(b < k < tv.len() && (tv[k as int] == "--toggle"@ || tv[k as int] == "-t"@));
                assert(toggle_after(tv, b as int));
                return true;
            }
            k = k + 1;
        }
        false
    } else {
        eq_str(&name, "pookie-paste-ui")
    }
}

/// Precisely identifies whether an executed Sway command targets Pookie Paste.
///
/// Recognizes `pookie-paste --toggle`, `pookie-paste -t`, `pookie-paste-ui`, and
/// paths to them, while rejecting wrappers or unrelated commands that merely
/// contain these names.
pub fn is_pookie_command(command: &str) -> (r: bool)
    ensures
        r == pookie_command(command@),
{
    let c = str_chars(command);
    is_pookie_command_chars(&c)
}

// ---------------------------------------------------------------------------
// Reading a Sway configuration

/// A configuration line without its comment, trimmed.
pub open spec fn config_line(raw: Seq<char>) -> Seq<char> {
    trim(before(raw, '#'))
}

/// The words of a configuration line.
pub open spec fn line_words(raw: Seq<char>) -> Seq<Seq<char>> {
    split_ws(config_line(raw))
}

/// `set $name value`: a variable definition.
pub open spec fn set_definition(raw: Seq<char>) -> Option<(Seq<char>, Seq<char>)> {
    let t = line_words(raw);
    if t.len() >= 3 && t[0] == "set"@ && starts_with(t[1], "$"@) {
        Some((t[1], t[2]))
    } else {
        None
    }
}

/// The variable definitions of the lines, in order.
pub open spec fn definitions(ls: Seq<Seq<char>>) -> Seq<(Seq<char>, Seq<char>)>
    decreases ls.len(),
{
    if ls.len() == 0 {
        Seq::empty()
    } else {
        let d = definitions(ls.drop_last());
        match set_definition(ls.last()) {
            Some(p) => d.push(p),
            None => d,
        }
    }
}

/// The value of a variable: its last definition.
pub open spec fn lookup(defs: Seq<(Seq<char>, Seq<char>)>, name: Seq<char>) -> Option<Seq<char>>
    decreases defs.len(),
{
    if defs.len() == 0 {
        None
    } else if defs.last().0 == name {
        Some(defs.last().1)
    } else {
        lookup(defs.drop_last(), name)
    }
}

/// A `$variable` stands for its value when defined.
pub open spec fn resolve(token: Seq<char>, defs: Seq<(Seq<char>, Seq<char>)>) -> Seq<char> {
    if starts_with(token, "$"@) && lookup(defs, token) is Some {
        lookup(defs, token)->0
    } else {
        token
    }
}

/// The modifiers and the (lower-cased) key named by the `+`-separated parts
/// of a key combination; a later key name replaces an earlier one.
pub open spec fn combo_state(parts: Seq<Seq<char>>, defs: Seq<(Seq<char>, Seq<char>)>) -> (
    ShortcutModifiers,
    Option<Seq<char>>,
)
    decreases parts.len(),
{
    if parts.len() == 0 {
        (ShortcutModifiers { super_key: false, control: false, alt: false, shift: false }, None)
    } else {
        let (m, k) = combo_state(parts.drop_last(), defs);
        let token = trim(parts.last());
        if token.len() == 0 {
            (m, k)
        } else {
            let l = lower(resolve(token, defs));
            match apply_modifier(m, l) {
                Some(m2) => (m2, k),
                None => (m, Some(l)),
            }
        }
    }
}

/// A key word names the shortcut's key, ignoring ASCII case.
pub open spec fn key_word_matches(k: ShortcutKey, w: Seq<char>) -> bool {
    match k {
        ShortcutKey::Character(c) => eq_ic(w, seq![ascii_lower(c)]),
        ShortcutKey::Named(n) => match n {
            NamedKey::Space => eq_ic(w, "space"@),
            NamedKey::Tab => eq_ic(w, "tab"@),
            NamedKey::Enter => eq_ic(w, "return"@) || eq_ic(w, "enter"@),
            NamedKey::Escape => eq_ic(w, "escape"@) || eq_ic(w, "esc"@),
            NamedKey::Insert => eq_ic(w, "insert"@) || eq_ic(w, "ins"@),
            NamedKey::Delete => eq_ic(w, "delete"@) || eq_ic(w, "del"@),
            NamedKey::F(n) => eq_ic(w, "f"@ + decimal(n as nat)),
        },
    }
}

/// A key combination in Sway syntax names exactly the shortcut.
pub open spec fn combo_matches(
    combo: Seq<char>,
    defs: Seq<(Seq<char>, Seq<char>)>,
    s: Shortcut,
) -> bool {
    let (m, k) = combo_state(split_when(combo, one_of(seq!['+'])), defs);
    m == s.modifiers && k is Some && key_word_matches(s.key, k->0)
}

/// The first word at or after `j` that is not a `--flag`.
pub open spec fn first_non_flag(t: Seq<Seq<char>>, j: int) -> Option<int>
    decreases t.len() - j,
{
    if j < 0 || j >= t.len() {
        None
    } else if starts_with(t[j], "--"@) {
        first_non_flag(t, j + 1)
    } else {
        Some(j)
    }
}

/// What a `bindsym` line says about the shortcut, if it binds it.
pub open spec fn bindsym_diagnosis(
    raw: Seq<char>,
    defs: Seq<(Seq<char>, Seq<char>)>,
    s: Shortcut,
) -> Option<SwayDiagnosisView> {
    let t = line_words(raw);
    if t.len() == 0 || t[0] != "bindsym"@ {
        None
    } else {
        match first_non_flag(t, 1) {
            None => None,
            Some(j) => if combo_matches(t[j], defs, s) {
                let command = join(t.skip(j + 1), " "@);
                if pookie_command(command) {
                    Some(SwayDiagnosisView::MatchedPookie)
                } else {
                    Some(SwayDiagnosisView::Conflict(command))
                }
            } else {
                None
            },
        }
    }
}

/// The diagnosis of the first line that binds the shortcut.
pub open spec fn first_bindsym(
    ls: Seq<Seq<char>>,
    defs: Seq<(Seq<char>, Seq<char>)>,
    s: Shortcut,
) -> SwayDiagnosisView
    decreases ls.len(),
{
    if ls.len() == 0 {
        SwayDiagnosisView::NotFound
    } else {
        match bindsym_diagnosis(ls[0], defs, s) {
            Some(d) => d,
            None => first_bindsym(ls.drop_first(), defs, s),
        }
    }
}

/// The diagnosis of a whole configuration: variables are collected from every
/// line first, then the first `bindsym` of the shortcut decides.
pub open spec fn sway_diagnosis(text: Seq<char>, s: Shortcut) -> SwayDiagnosisView {
    first_bindsym(lines(text), definitions(lines(text)), s)
}

/// The view of a list of variable definitions.
pub open spec fn defs_view(v: Seq<(Vec<char>, Vec<char>)>) -> Seq<(Seq<char>, Seq<char>)> {
    v.map_values(|p: (Vec<char>, Vec<char>)| (p.0@, p.1@))
}

/// The view of optional characters.
pub open spec fn opt_chars(o: Option<Vec<char>>) -> Option<Seq<char>> {
    match o {
        Some(v) => Some(v@),
        None => None,
    }
}

fn line_word_chars(raw: &Vec<char>) -> (r: Vec<Vec<char>>)
    ensures
        views(r@) == line_words(raw@),
{
    let b = before_char(raw, '#');
    let t = trim_chars(&b);
    split_whitespace(&t)
}

fn set_definition_of(raw: &Vec<char>) -> (r: Option<(Vec<char>, Vec<char>)>)
    ensures
        match r {
            Some(p) => set_definition(raw@) == Some((p.0@, p.1@)),
            None => set_definition(raw@) is None,
        },
{
    let t = line_word_chars(raw);
    if t.len() >= 3 && eq_str(&t[0], "set") && starts_with_str(&t[1], "$") {
        Some((t[1].clone(), t[2].clone()))
    } else {
        None
    }
}

fn lookup_var(defs: &Vec<(Vec<char>, Vec<char>)>, name: &Vec<char>) -> (r: Option<Vec<char>>)
    ensures
        opt_chars(r) == lookup(defs_view(defs@), name@),
{
    let ghost dv = defs_view(defs@);
    let mut i = defs.len();
    assert(dv.take(i as int) == dv);
    while i > 0
        invariant
            i <= defs.len(),
            dv == defs_view(defs@),
            lookup(dv, name@) == lookup(dv.take(i as int), name@),
        decreases i,
    {
        assert(dv.take(i as int).drop_last() == dv.take(i - 1));
        assert(dv.take(i as int).last() == (defs@[i - 1].0@, defs@[i - 1].1@));
        if chars_eq(&defs[i - 1].0, name) {
            return Some(defs[i - 1].1.clone());
        }
        i = i - 1;
    }
    None
}

fn resolve_token(token: &Vec<char>, defs: &Vec<(Vec<char>, Vec<char>)>) -> (r: Vec<char>)
    ensures
        r@ == resolve(token@, defs_view(defs@)),
{
    if starts_with_str(token, "$") {
        match lookup_var(defs, token) {
            Some(v) => v,
            None => token.clone(),
        }
    } else {
        token.clone()
    }
}

fn key_word_matches_exec(k: ShortcutKey, w: &Vec<char>) -> (r: bool)
    ensures
        r == key_word_matches(k, w@),
{
    match k {
        ShortcutKey::Character(c) => {
            let v = vec![char_to_ascii_lowercase(c)];
            assert(v@ == seq![ascii_lower(c)]);
            eq_ignore_case(w, &v)
        },
        ShortcutKey::Named(n) => match n {
            NamedKey::Space => eq_ignore_case_str(w, "space"),
            NamedKey::Tab => eq_ignore_case_str(w, "tab"),
            NamedKey::Enter => eq_ignore_case_str(w, "return") || eq_ignore_case_str(w, "enter"),
            NamedKey::Escape => eq_ignore_case_str(w, "escape") || eq_ignore_case_str(w, "esc"),
            NamedKey::Insert => eq_ignore_case_str(w, "insert") || eq_ignore_case_str(w, "ins"),
            NamedKey::Delete => eq_ignore_case_str(w, "delete") || eq_ignore_case_str(w, "del"),
            NamedKey::F(n) => {
                let mut f = str_chars("f");
                let d = decimal_u8(n);
                append_chars(&mut f, &d);
                eq_ignore_case(w, &f)
            },
        },
    }
}

/// Checks if a key combination string in Sway syntax matches the target `Shortcut`.
fn matches_key_combination(
    key_combo: &Vec<char>,
    variables: &Vec<(Vec<char>, Vec<char>)>,
    shortcut: Shortcut,
) -> (r: bool)
    ensures
        r == combo_matches(key_combo@, defs_view(variables@), shortcut),
{
    let plus = vec!['+'];
    assert(plus@ == seq!['+']);
    let parts = split_on(key_combo, &plus);
    let ghost pv = views(parts@);
    let ghost dv = defs_view(variables@);
    let mut parsed_modifiers = ShortcutModifiers {
        super_key: false,
        control: false,
        alt: false,
        shift: false,
    };
    let mut parsed_key: Option<Vec<char>> = None;
    for i in 0..parts.len()
        invariant
            pv == views(parts@),
            dv == defs_view(variables@),
            combo_state(pv.take(i as int), dv) == (parsed_modifiers, opt_chars(parsed_key)),
    {
        assert(pv.take(i + 1).drop_last() == pv.take(i as int));
        assert(pv.take(i + 1).last() == parts@[i as int]@);
        let token = trim_chars(&parts[i]);
        if token.len() > 0 {
            let resolved = resolve_token(&token, variables);
            let l = to_ascii_lowercase(&resolved);
            match apply_modifier_name(parsed_modifiers, &l) {
                Some(m2) => {
                    parsed_modifiers = m2;
                },
                None => {
                    parsed_key = Some(l);
                },
            }
        }
    }
    assert(pv.take(parts.len() as int) == pv);
    if parsed_modifiers != shortcut.modifiers {
        return false;
    }
    match parsed_key {
        None => false,
        Some(key_token) => key_word_matches_exec(shortcut.key, &key_token),
    }
}

fn bindsym_line(raw: &Vec<char>, variables: &Vec<(Vec<char>, Vec<char>)>, shortcut: Shortcut) -> (r:
    Option<SwayBindingDiagnosis>)
    ensures
        match r {
            Some(d) => bindsym_diagnosis(raw@, defs_view(variables@), shortcut) == Some(d@),
            None => bindsym_diagnosis(raw@, defs_view(variables@), shortcut) is None,
        },
{
    let t = line_word_chars(raw);
    let ghost tv = views(t@);
    if t.len() == 0 || !eq_str(&t[0], "bindsym") {
        return None;
    }
    let mut j: usize = 1;
    while j < t.len() && starts_with_str(&t[j], "--")
        invariant
            1 <= j <= t.len(),
            tv == views(t@),
            first_non_flag(tv, 1) == first_non_flag(tv, j as int),
        decreases t.len() - j,
    {
        j = j + 1;
    }
    if j >= t.len() {
        return None;
    }
    assert(first_non_flag(tv, 1) == Some(j as int));
    if !matches_key_combination(&t[j], variables, shortcut) {
        return None;
    }
    let rest = slice_words(&t, j + 1);
    let sp = str_chars(" ");
    let command = join_chars(&rest, &sp);
    if is_pookie_command_chars(&command) {
        Some(SwayBindingDiagnosis::MatchedPookie)
    } else {
        Some(SwayBindingDiagnosis::Conflict { command: chars_to_string(&command) })
    }
}

/// The words from index `from` on.
pub fn slice_words(t: &Vec<Vec<char>>, from: usize) -> (r: Vec<Vec<char>>)
    requires
        from <= t.len(),
    ensures
        views(r@) == views(t@).skip(from as int),
{
    let mut r: Vec<Vec<char>> = Vec::new();
    let mut k = from;
    while k < t.len()
        invariant
            from <= k <= t.len(),
            views(r@) == views(t@).subrange(from as int, k as int),
        decreases t.len() - k,
    {
        r.push(t[k].clone());
        assert(views(t@).subrange(from as int, k + 1) == views(t@).subrange(from as int, k as int).push(
            t@[k as int]@,
        ));
        k = k + 1;
    }
    r
}

/// Diagnoses whether a given `Shortcut` is configured in Sway configuration text.
pub fn diagnose_sway_config(config_text: &str, shortcut: Shortcut) -> (r: SwayBindingDiagnosis)
    ensures
        r@ == sway_diagnosis(config_text@, shortcut),
{
    let chars = str_chars(config_text);
    let ls = split_lines(&chars);
    let ghost lv = views(ls@);
    // First pass: variable definitions like `set $mod Mod4`.
    let mut variables: Vec<(Vec<char>, Vec<char>)> = Vec::new();
    for i in 0..ls.len()
        invariant
            lv == views(ls@),
            defs_view(variables@) == definitions(lv.take(i as int)),
    {
        assert(lv.take(i + 1).drop_last() == lv.take(i as int));
        assert(lv.take(i + 1).last() == ls@[i as int]@);
        match set_definition_of(&ls[i]) {
            Some(p) => {
                let ghost prev = variables@;
                variables.push(p);
                assert(defs_view(variables@) =~= defs_view(prev).push((p.0@, p.1@)));
            },
            None => {},
        }
    }
    assert(lv.take(ls.len() as int) == lv);
    let ghost dv = defs_view(variables@);
    // Second pass: the first `bindsym` line for the shortcut decides.
    for i in 0..ls.len()
        invariant
            lv == views(ls@),
            dv == defs_view(variables@),
            dv == definitions(lv),
            lv == lines(config_text@),
            first_bindsym(lv, dv, shortcut) == first_bindsym(lv.skip(i as int), dv, shortcut),
    {
        assert(lv.skip(i as int)[0] == ls@[i as int]@);
        assert(lv.skip(i as int).drop_first() == lv.skip(i + 1));
        match bindsym_line(&ls[i], &variables, shortcut) {
            Some(d) => {
                assert(first_bindsym(lv.skip(i as int), dv, shortcut) == d@);
                return d;
            },
            None => {},
        }
    }
    assert(lv.skip(ls.len() as int).len() == 0);
    SwayBindingDiagnosis::NotFound
}


// ---------------------------------------------------------------------------
// The backend

/// Where the diagnostic fallback configuration comes from when IPC is unavailable.
#[derive(Debug, Clone)]
pub enum FallbackSource {
    /// `~/.config/sway/config` and `/etc/sway/config`, read by the caller.
    HostFilesystem,
    /// Configuration text given explicitly (or none).
    Explicit(Option<String>),
}

pub struct SwayShortcutBackend {
    socket_path: Option<String>,
    fallback_source: FallbackSource,
    registered_shortcut: Option<Shortcut>,
}

/// The fallback configuration text: the explicit text, or the host's.
pub open spec fn fallback_text(source: FallbackSource, host_config: Option<Seq<char>>) -> Option<
    Seq<char>,
> {
    match source {
        FallbackSource::HostFilesystem => host_config,
        FallbackSource::Explicit(c) => opt_view(c),
    }
}

/// What registering reports: the live configuration (from IPC) is
/// authoritative; without it the fallback text is diagnosed but never
/// reported as verified.
pub open spec fn sway_registration(
    s: Shortcut,
    active: Option<Seq<char>>,
    fallback: Option<Seq<char>>,
) -> OutcomeView {
    let snippet = sway_binding_text(s);
    match active {
        Some(cfg) => match sway_diagnosis(cfg, s) {
            SwayDiagnosisView::MatchedPookie => OutcomeView::CompositorManaged(
                snippet,
                true,
                None,
                None,
            ),
            SwayDiagnosisView::Conflict(c) => OutcomeView::CompositorManaged(
                snippet,
                false,
                Some("Key is bound to '"@ + c + "' in active Sway configuration"@),
                None,
            ),
            SwayDiagnosisView::NotFound => OutcomeView::CompositorManaged(
                snippet,
                false,
                None,
                None,
            ),
        },
        None => match fallback {
            Some(text) => match sway_diagnosis(text, s) {
                SwayDiagnosisView::Conflict(c) => OutcomeView::CompositorManaged(
                    snippet,
                    false,
                    Some(
                        "Key is bound to '"@ + c
                            + "' in configuration file (Sway IPC unavailable)"@,
                    ),
                    None,
                ),
                _ => OutcomeView::CompositorManaged(snippet, false, None, None),
            },
            None => OutcomeView::CompositorManaged(snippet, false, None, None),
        },
    }
}

fn copy_opt_string(o: &Option<String>) -> (r: Option<String>)
    ensures
        opt_view(r) == opt_view(*o),
{
    match o {
        Some(s) => Some(s.clone()),
        None => None,
    }
}

fn opt_str_to_string(o: Option<&str>) -> (r: Option<String>)
    ensures
        opt_view(r) == match o {
            Some(s) => Some(s@),
            None => None::<Seq<char>>,
        },
{
    match o {
        Some(s) => {
            let v = str_chars(s);
            Some(chars_to_string(&v))
        },
        None => None,
    }
}

impl SwayShortcutBackend {
    pub closed spec fn socket_path_spec(&self) -> Option<Seq<char>> {
        opt_view(self.socket_path)
    }

    pub closed spec fn fallback_spec(&self) -> FallbackSource {
        self.fallback_source
    }

    pub closed spec fn registered_spec(&self) -> Option<Shortcut> {
        self.registered_shortcut
    }

    /// The backend for the running session: `socket_path` is `$SWAYSOCK` if it
    /// names an existing socket; the host's configuration files are the
    /// diagnostic fallback.
    pub fn new(socket_path: Option<String>) -> (r: Result<Self, ShortcutError>)
        ensures
            r matches Ok(b) && b.socket_path_spec() == opt_view(socket_path)
                && b.fallback_spec() is HostFilesystem && b.registered_spec() is None,
    {
        Ok(Self::from_socket(socket_path))
    }

    /// Creates a backend with an explicit socket path and the host filesystem
    /// as diagnostic fallback.
    pub fn from_socket(socket_path: Option<String>) -> (r: Self)
        ensures
            r.socket_path_spec() == opt_view(socket_path),
            r.fallback_spec() is HostFilesystem,
            r.registered_spec() is None,
    {
        SwayShortcutBackend {
            socket_path,
            fallback_source: FallbackSource::HostFilesystem,
            registered_shortcut: None,
        }
    }

    /// Creates an isolated offline backend with explicit fallback
    /// configuration content (or none): no IPC and no host files.
    pub fn from_offline_config(config: Option<&str>) -> (r: Self)
        ensures
            r.socket_path_spec() is None,
            fallback_text(r.fallback_spec(), None) == match config {
                Some(s) => Some(s@),
                None => None::<Seq<char>>,
            },
            r.fallback_spec() is Explicit,
            r.registered_spec() is None,
    {
        SwayShortcutBackend {
            socket_path: None,
            fallback_source: FallbackSource::Explicit(opt_str_to_string(config)),
            registered_shortcut: None,
        }
    }

    /// Sets or overrides the fallback configuration text.
    pub fn with_fallback_config(self, config: Option<&str>) -> (r: Self)
        ensures
            r.socket_path_spec() == self.socket_path_spec(),
            r.fallback_spec() is Explicit,
            fallback_text(r.fallback_spec(), None) == match config {
                Some(s) => Some(s@),
                None => None::<Seq<char>>,
            },
            r.registered_spec() == self.registered_spec(),
    {
        SwayShortcutBackend {
            socket_path: self.socket_path,
            fallback_source: FallbackSource::Explicit(opt_str_to_string(config)),
            registered_shortcut: self.registered_shortcut,
        }
    }

    pub fn socket_path(&self) -> (r: Option<&str>)
        ensures
            match r {
                Some(p) => self.socket_path_spec() == Some(p@),
                None => self.socket_path_spec() is None,
            },
    {
        match &self.socket_path {
            Some(p) => Some(p.as_str()),
            None => None,
        }
    }

    /// Whether registering consults the host's configuration files.
    pub fn uses_host_config(&self) -> (r: bool)
        ensures
            r == self.fallback_spec() is HostFilesystem,
    {
        match &self.fallback_source {
            FallbackSource::HostFilesystem => true,
            FallbackSource::Explicit(_) => false,
        }
    }

    pub fn registered_shortcut(&self) -> (r: Option<Shortcut>)
        ensures
            r == self.registered_spec(),
    {
        self.registered_shortcut
    }

    pub fn name(&self) -> (r: &'static str)
        ensures
            r@ == "Sway compositor-managed shortcut"@,
    {
        "Sway compositor-managed shortcut"
    }

    pub fn capability(&self) -> (r: ShortcutBackendCapability)
        ensures
            r == ShortcutBackendCapability::CompositorManaged,
    {
        ShortcutBackendCapability::CompositorManaged
    }

    /// Records the shortcut and reports how the compositor binds it.
    ///
    /// `active_config` is the configuration that Sway's IPC (`GET_CONFIG`)
    /// returned over the backend's socket, `None` when the query failed; it is
    /// ignored when the backend has no socket. `host_config` is the text of the
    /// first readable host configuration file, consulted only for a backend
    /// whose fallback is the host filesystem.
    pub fn register_with(
        &mut self,
        shortcut: Shortcut,
        active_config: Option<String>,
        host_config: Option<String>,
    ) -> (r: Result<ShortcutRegistrationOutcome, ShortcutError>)
        ensures
            final(self).registered_spec() == Some(shortcut),
            final(self).socket_path_spec() == old(self).socket_path_spec(),
            final(self).fallback_spec() == old(self).fallback_spec(),
            r matches Ok(o) && o@ == sway_registration(
                shortcut,
                if old(self).socket_path_spec() is Some {
                    opt_view(active_config)
                } else {
                    None
                },
                fallback_text(old(self).fallback_spec(), opt_view(host_config)),
            ),
    {
        let binding_snippet = format_sway_binding(shortcut);
        self.registered_shortcut = Some(shortcut);
        if self.socket_path.is_some() {
            if let Some(active) = active_config {
                let d = diagnose_sway_config(active.as_str(), shortcut);
                return match d {
                    SwayBindingDiagnosis::MatchedPookie => Ok(
                        ShortcutRegistrationOutcome::CompositorManaged {
                            binding_snippet,
                            verified: true,
                            conflict: None,
                            diagnostic: None,
                        },
                    ),
                    SwayBindingDiagnosis::Conflict { command } => {
                        let mut msg = str_chars("Key is bound to '");
                        let c = str_chars(command.as_str());
                        append_chars(&mut msg, &c);
                        append_str(&mut msg, "' in active Sway configuration");
                        Ok(
                            ShortcutRegistrationOutcome::CompositorManaged {
                                binding_snippet,
                                verified: false,
                                conflict: Some(chars_to_string(&msg)),
                                diagnostic: None,
                            },
                        )
                    },
                    SwayBindingDiagnosis::NotFound => Ok(
                        ShortcutRegistrationOutcome::CompositorManaged {
                            binding_snippet,
                            verified: false,
                            conflict: None,
                            diagnostic: None,
                        },
                    ),
                };
            }
        }
        let fallback_content = match &self.fallback_source {
            FallbackSource::HostFilesystem => host_config,
            FallbackSource::Explicit(content) => copy_opt_string(content),
        };
        if let Some(file_content) = fallback_content {
            let d = diagnose_sway_config(file_content.as_str(), shortcut);
            match d {
                SwayBindingDiagnosis::Conflict { command } => {
                    let mut msg = str_chars("Key is bound to '");
                    let c = str_chars(command.as_str());
                    append_chars(&mut msg, &c);
                    append_str(&mut msg, "' in configuration file (Sway IPC unavailable)");
                    Ok(
                        ShortcutRegistrationOutcome::CompositorManaged {
                            binding_snippet,
                            verified: false,
                            conflict: Some(chars_to_string(&msg)),
                            diagnostic: None,
                        },
                    )
                },
                _ => Ok(
                    ShortcutRegistrationOutcome::CompositorManaged {
                        binding_snippet,
                        verified: false,
                        conflict: None,
                        diagnostic: None,
                    },
                ),
            }
        } else {
            Ok(
                ShortcutRegistrationOutcome::CompositorManaged {
                    binding_snippet,
                    verified: false,
                    conflict: None,
                    diagnostic: None,
                },
            )
        }
    }

    /// Activation is external (the compositor runs `pookie-paste --toggle`).
    pub fn wait_for_activation(&mut self) -> (r: Result<
        crate::shortcut_backend::ShortcutActivation,
        ShortcutError,
    >)
        ensures
            r matches Err(ShortcutError::Unavailable),
            *final(self) == *old(self),
    {
        Err(ShortcutError::Unavailable)
    }

    pub fn unregister(&mut self) -> (r: Result<(), ShortcutError>)
        ensures
            r is Ok,
            final(self).registered_spec() is None,
            final(self).socket_path_spec() == old(self).socket_path_spec(),
            final(self).fallback_spec() == old(self).fallback_spec(),
    {
        self.registered_shortcut = None;
        Ok(())
    }
}

/// The host configuration files, in the order they are tried:
/// `$XDG_CONFIG_HOME/sway/config`, `$HOME/.config/sway/config`, `/etc/sway/config`.
pub open spec fn sway_config_candidates_spec(xdg: Option<Seq<char>>, home: Option<Seq<char>>) -> Seq<
    Seq<char>,
> {
    (match xdg {
        Some(x) => seq![path_join(x, "sway/config"@)],
        None => Seq::empty(),
    }) + (match home {
        Some(h) => seq![path_join(h, ".config/sway/config"@)],
        None => Seq::empty(),
    }) + seq!["/etc/sway/config"@]
}

pub fn sway_config_candidates(xdg_config_home: Option<&str>, home: Option<&str>) -> (r: Vec<String>)
    ensures
        r@.map_values(|s: String| s@) == sway_config_candidates_spec(
            match xdg_config_home {
                Some(x) => Some(x@),
                None => None,
            },
            match home {
                Some(h) => Some(h@),
                None => None,
            },
        ),
{
    let mut r: Vec<String> = Vec::new();
    if let Some(x) = xdg_config_home {
        let mut p = str_chars(x);
        path_push(&mut p, "sway/config");
        r.push(chars_to_string(&p));
    }
    let ghost first = r@.map_values(|s: String| s@);
    if let Some(h) = home {
        let mut p = str_chars(h);
        path_push(&mut p, ".config/sway/config");
        r.push(chars_to_string(&p));
    }
    let e = str_chars("/etc/sway/config");
    r.push(chars_to_string(&e));
    let ghost x_opt = match xdg_config_home {
        Some(x) => Some(x@),
        None => None::<Seq<char>>,
    };
    let ghost h_opt = match home {
        Some(h) => Some(h@),
        None => None::<Seq<char>>,
    };
    assert(r@.map_values(|s: String| s@) =~= sway_config_candidates_spec(x_opt, h_opt));
    r
}

/// Without Sway's live configuration a binding is never reported as
/// verified: a binding found only in a configuration file may not be loaded.
pub proof fn lemma_sway_fallback_never_verified(s: Shortcut, fallback: Option<Seq<char>>)
    ensures
        sway_registration(s, None, fallback) matches OutcomeView::CompositorManaged(
            snippet,
            verified,
            _,
            _,
        ) && !verified && snippet == sway_binding_text(s),
{
}

/// The live configuration decides alone: what the files say does not matter
/// once Sway answered.
pub proof fn lemma_sway_live_config_is_authoritative(
    s: Shortcut,
    active: Seq<char>,
    f1: Option<Seq<char>>,
    f2: Option<Seq<char>>,
)
    ensures
        sway_registration(s, Some(active), f1) == sway_registration(s, Some(active), f2),
{
}

/// A key that a `bindsym` combination can carry as written: anything but the
/// comment sign, the `+` separator and whitespace.
pub open spec fn sway_key_writable(k: ShortcutKey) -> bool {
    match k {
        ShortcutKey::Character(c) => c != '#' && c != '+' && !is_ws(c),
        ShortcutKey::Named(_) => true,
    }
}

/// Characters that may stand in a written combination.
pub open spec fn combo_char(c: char) -> bool {
    c != '#' && c != '\n' && !is_ws(c)
}

proof fn lemma_modifier_words()
    ensures
        "Mod4"@ == seq!['M', 'o', 'd', '4'],
        "Ctrl"@ == seq!['C', 't', 'r', 'l'],
        "Mod1"@ == seq!['M', 'o', 'd', '1'],
        "Shift"@ == seq!['S', 'h', 'i', 'f', 't'],
        "super"@ == seq!['s', 'u', 'p', 'e', 'r'],
        "mod4"@ == seq!['m', 'o', 'd', '4'],
        "logo"@ == seq!['l', 'o', 'g', 'o'],
        "win"@ == seq!['w', 'i', 'n'],
        "ctrl"@ == seq!['c', 't', 'r', 'l'],
        "control"@ == seq!['c', 'o', 'n', 't', 'r', 'o', 'l'],
        "alt"@ == seq!['a', 'l', 't'],
        "mod1"@ == seq!['m', 'o', 'd', '1'],
        "shift"@ == seq!['s', 'h', 'i', 'f', 't'],
        "$"@ == seq!['$'],
        "--"@ == seq!['-', '-'],
        "+"@ == seq!['+'],
{
    reveal_strlit("Mod4");
    reveal_strlit("Ctrl");
    reveal_strlit("Mod1");
    reveal_strlit("Shift");
    reveal_strlit("super");
    reveal_strlit("mod4");
    reveal_strlit("logo");
    reveal_strlit("win");
    reveal_strlit("ctrl");
    reveal_strlit("control");
    reveal_strlit("alt");
    reveal_strlit("mod1");
    reveal_strlit("shift");
    reveal_strlit("$");
    reveal_strlit("--");
    reveal_strlit("+");
}

/// One modifier word of a combination, as `combo_state` reads it.
proof fn lemma_modifier_word_step(
    parts: Seq<Seq<char>>,
    word: Seq<char>,
    m: ShortcutModifiers,
    m2: ShortcutModifiers,
)
    requires
        combo_state(parts, Seq::empty()) == (m, None::<Seq<char>>),
        word.len() > 0,
        !is_ws(word[0]),
        !is_ws(word.last()),
        word[0] != '$',
        apply_modifier(m, lower(word)) == Some(m2),
    ensures
        combo_state(parts.push(word), Seq::empty()) == (m2, None::<Seq<char>>),
{
    lemma_modifier_words();
    assert(parts.push(word).drop_last() =~= parts);
    crate::text::lemma_trim_plain_ends(word);
    assert(word.take(1)[0] == word[0]);
    assert(!starts_with(word, "$"@));
}

/// Reading Sway's modifier names back gives the modifiers.
proof fn lemma_combo_state_of_modifier_names(m: ShortcutModifiers)
    ensures
        combo_state(sway_modifier_names(m), Seq::empty()) == (m, None::<Seq<char>>),
{
    lemma_modifier_words();
    let none = ShortcutModifiers { super_key: false, control: false, alt: false, shift: false };
    let e: Seq<Seq<char>> = Seq::empty();
    assert(combo_state(e, Seq::empty()) == (none, None::<Seq<char>>));
    let m1 = ShortcutModifiers { super_key: m.super_key, ..none };
    let a: Seq<Seq<char>> = if m.super_key { seq!["Mod4"@] } else { Seq::empty() };
    if m.super_key {
        assert(lower("Mod4"@) =~= "mod4"@);
        assert(seq!["Mod4"@] =~= e.push("Mod4"@));
        lemma_modifier_word_step(e, "Mod4"@, none, m1);
    }
    assert(combo_state(a, Seq::empty()) == (m1, None::<Seq<char>>));
    let m2 = ShortcutModifiers { control: m.control, ..m1 };
    let b = if m.control { a.push("Ctrl"@) } else { a };
    if m.control {
        assert(lower("Ctrl"@) =~= "ctrl"@);
        lemma_modifier_word_step(a, "Ctrl"@, m1, m2);
    }
    let m3 = ShortcutModifiers { alt: m.alt, ..m2 };
    let c = if m.alt { b.push("Mod1"@) } else { b };
    if m.alt {
        assert(lower("Mod1"@) =~= "mod1"@);
        lemma_modifier_word_step(b, "Mod1"@, m2, m3);
    }
    let d = if m.shift { c.push("Shift"@) } else { c };
    if m.shift {
        assert(lower("Shift"@) =~= "shift"@);
        lemma_modifier_word_step(c, "Shift"@, m3, m);
    }
    assert(d == sway_modifier_names(m));
}

proof fn lemma_key_words()
    ensures
        "space"@ == seq!['s', 'p', 'a', 'c', 'e'],
        "Tab"@ == seq!['T', 'a', 'b'],
        "tab"@ == seq!['t', 'a', 'b'],
        "Return"@ == seq!['R', 'e', 't', 'u', 'r', 'n'],
        "return"@ == seq!['r', 'e', 't', 'u', 'r', 'n'],
        "Escape"@ == seq!['E', 's', 'c', 'a', 'p', 'e'],
        "escape"@ == seq!['e', 's', 'c', 'a', 'p', 'e'],
        "Insert"@ == seq!['I', 'n', 's', 'e', 'r', 't'],
        "insert"@ == seq!['i', 'n', 's', 'e', 'r', 't'],
        "Delete"@ == seq!['D', 'e', 'l', 'e', 't', 'e'],
        "delete"@ == seq!['d', 'e', 'l', 'e', 't', 'e'],
        "F"@ == seq!['F'],
        "f"@ == seq!['f'],
{
    reveal_strlit("space");
    reveal_strlit("Tab");
    reveal_strlit("tab");
    reveal_strlit("Return");
    reveal_strlit("return");
    reveal_strlit("Escape");
    reveal_strlit("escape");
    reveal_strlit("Insert");
    reveal_strlit("insert");
    reveal_strlit("Delete");
    reveal_strlit("delete");
    reveal_strlit("F");
    reveal_strlit("f");
}

/// A written key name reads back as the key: it is no modifier word, it
/// names the key, and it can stand in a combination.
proof fn lemma_key_name_reads_back(k: ShortcutKey, m: ShortcutModifiers)
    requires
        sway_key_writable(k),
    ensures
        sway_key_name(k).len() > 0,
        forall|i: int|
            0 <= i < sway_key_name(k).len() ==> combo_char(#[trigger] sway_key_name(k)[i])
                && sway_key_name(k)[i] != '+',
        sway_key_name(k).len() == 1 || sway_key_name(k)[0] != '-',
        sway_key_name(k)[0] != '$' || sway_key_name(k).len() == 1,
        apply_modifier(m, lower(sway_key_name(k))) is None,
        key_word_matches(k, lower(sway_key_name(k))),
{
    lemma_modifier_words();
    lemma_key_words();
    let w = sway_key_name(k);
    match k {
        ShortcutKey::Character(c) => {
            crate::text::lemma_ascii_lower_idempotent(c);
            assert(lower(w) =~= seq![ascii_lower(ascii_lower(c))]);
            assert(lower(lower(w)) =~= lower(seq![ascii_lower(c)]));
            assert(lower(w).len() == 1);
        },
        ShortcutKey::Named(n) => match n {
            NamedKey::Space => {
                assert(lower(w) =~= "space"@);
            },
            NamedKey::Tab => {
                assert(lower(w) =~= "tab"@);
            },
            NamedKey::Enter => {
                assert(lower(w) =~= "return"@);
            },
            NamedKey::Escape => {
                assert(lower(w) =~= "escape"@);
            },
            NamedKey::Insert => {
                assert(lower(w) =~= "insert"@);
            },
            NamedKey::Delete => {
                assert(lower(w) =~= "delete"@);
            },
            NamedKey::F(x) => {
                let d = decimal(x as nat);
                crate::text::lemma_decimal_digits(x as nat);
                assert(w == "F"@ + d);
                assert(lower(w) =~= "f"@ + lower(d));
                assert(lower(w) =~= "f"@ + d);
                assert(lower(lower(w)) =~= lower("f"@ + d));
                assert(lower("f"@ + d) =~= "f"@ + lower(d));
                assert(lower(w)[0] == 'f');
                assert forall|i: int| 0 <= i < w.len() implies combo_char(#[trigger] w[i]) && w[i] != '+' by {
                    if i > 0 {
                        assert(w[i] == d[i - 1]);
                    }
                }
            },
        },
    }
}

/// `pookie-paste` is its own file name.
proof fn lemma_pookie_paste_file_name()
    ensures
        path_file_name("pookie-paste"@) == Some("pookie-paste"@),
{
    reveal_strlit("pookie-paste");
    reveal_strlit(".");
    reveal_strlit("..");
    let name = "pookie-paste"@;
    assert forall|i: int| 0 <= i < name.len() implies !one_of(seq!['/'])(#[trigger] name[i]) by {
    }
    crate::text::lemma_split_without_separator(name, one_of(seq!['/']));
    let parts = seq![name];
    assert(parts.drop_last() =~= Seq::<Seq<char>>::empty());
    assert(name.len() == 12);
    assert("."@.len() == 1);
    assert(parts.last() != "."@);
    assert(named_components(Seq::<Seq<char>>::empty()) == Seq::<Seq<char>>::empty());
    assert(named_components(parts) =~= seq![name]);
}

/// The words after `bindsym` run Pookie Paste.
proof fn lemma_toggle_command_is_pookie()
    ensures
        pookie_command("exec"@ + " "@ + "pookie-paste"@ + " "@ + "--toggle"@),
{
    reveal_strlit("exec");
    reveal_strlit(" ");
    reveal_strlit("pookie-paste");
    reveal_strlit("--toggle");
    reveal_strlit("--no-startup-id");
    let ws = seq!["exec"@, "pookie-paste"@, "--toggle"@];
    reveal_with_fuel(join, 4);
    assert(join(ws, seq![' ']) =~= "exec"@ + " "@ + "pookie-paste"@ + " "@ + "--toggle"@);
    assert forall|i: int, j: int| 0 <= i < ws.len() && 0 <= j < ws[i].len() implies !is_ws(#[trigger] ws[i][j]) by {
        if i == 0 {
            assert(ws[0] == "exec"@);
        } else if i == 1 {
            assert(ws[1] == "pookie-paste"@);
        } else {
            assert(ws[2] == "--toggle"@);
        }
    }
    crate::text::lemma_split_ws_join(ws);
    let t = split_ws("exec"@ + " "@ + "pookie-paste"@ + " "@ + "--toggle"@);
    assert(t == ws);
    assert(binary_index(t) == Some(1int));
    lemma_pookie_paste_file_name();
    assert(path_file_name(t[1]) == Some("pookie-paste"@));
    assert(t[2] == "--toggle"@);
    assert(toggle_after(t, 1));
}

/// `pookie-paste --toggle` on its own runs Pookie Paste.
pub(crate) proof fn lemma_bare_toggle_command_is_pookie()
    ensures
        pookie_command("pookie-paste"@ + " "@ + "--toggle"@),
{
    reveal_strlit("exec");
    reveal_strlit(" ");
    reveal_strlit("pookie-paste");
    reveal_strlit("--toggle");
    let ws = seq!["pookie-paste"@, "--toggle"@];
    reveal_with_fuel(join, 3);
    assert(join(ws, seq![' ']) =~= "pookie-paste"@ + " "@ + "--toggle"@);
    assert forall|i: int, j: int| 0 <= i < ws.len() && 0 <= j < ws[i].len() implies !is_ws(#[trigger] ws[i][j]) by {
        if i == 0 {
            assert(ws[0] == "pookie-paste"@);
        } else {
            assert(ws[1] == "--toggle"@);
        }
    }
    crate::text::lemma_split_ws_join(ws);
    let t = split_ws("pookie-paste"@ + " "@ + "--toggle"@);
    assert(t == ws);
    assert(t[0].len() != "exec"@.len());
    assert(binary_index(t) == Some(0int));
    lemma_pookie_paste_file_name();
    assert(t[1] == "--toggle"@);
    assert(toggle_after(t, 0));
}

/// The key combination of the directive.
pub open spec fn sway_combo(s: Shortcut) -> Seq<char> {
    join(sway_modifier_names(s.modifiers).push(sway_key_name(s.key)), "+"@)
}

/// The combination is made of characters that may stand in a line's word,
/// is no flag, and reads back as the shortcut.
proof fn lemma_sway_combo_reads_back(s: Shortcut)
    requires
        sway_key_writable(s.key),
    ensures
        sway_combo(s).len() > 0,
        forall|i: int| 0 <= i < sway_combo(s).len() ==> combo_char(#[trigger] sway_combo(s)[i]),
        !starts_with(sway_combo(s), "--"@),
        combo_matches(sway_combo(s), Seq::empty(), s),
{
    lemma_modifier_words();
    let m = s.modifiers;
    let names = sway_modifier_names(m);
    let key = sway_key_name(s.key);
    let parts = names.push(key);
    let combo = sway_combo(s);
    let defs = Seq::<(Seq<char>, Seq<char>)>::empty();
    lemma_key_name_reads_back(s.key, m);
    assert forall|i: int| 0 <= i < names.len() implies (#[trigger] names[i] == "Mod4"@ || names[i]
        == "Ctrl"@ || names[i] == "Mod1"@ || names[i] == "Shift"@) by {
    }
    assert forall|i: int, j: int| 0 <= i < parts.len() && 0 <= j < parts[i].len() implies combo_char(
        #[trigger] parts[i][j],
    ) && parts[i][j] != '+' by {
        if i < names.len() {
            assert(parts[i] == names[i]);
        } else {
            assert(parts[i] == key);
        }
    }
    assert forall|i: int| 0 <= i < parts.len() implies (#[trigger] parts[i]).len() > 0 by {
        if i < names.len() {
            assert(parts[i] == names[i]);
        }
    }
    assert forall|j: int| 0 <= j < "+"@.len() implies combo_char(#[trigger] "+"@[j]) by {
    }
    crate::text::lemma_join_chars(parts, "+"@, |c: char| combo_char(c));
    crate::text::lemma_join_first(parts, "+"@);
    // Not a flag.
    if names.len() > 0 {
        assert(parts[0] == names[0]);
        assert(combo[0] == names[0][0]);
    } else {
        assert(parts[0] == key);
        if key.len() == 1 {
            assert(parts.len() == 1);
            assert(combo == key);
        }
    }
    if combo.len() >= 2 {
        assert(combo.take(2)[0] == combo[0]);
        assert(combo.take(2)[1] == combo[1]);
    }
    assert(!starts_with(combo, "--"@));
    // The words.
    assert(seq!['+'][0] == '+');
    assert(one_of(seq!['+'])('+'));
    assert forall|i: int, j: int| 0 <= i < parts.len() && 0 <= j < parts[i].len() implies !one_of(
        seq!['+'],
    )(#[trigger] parts[i][j]) by {
        assert(parts[i][j] != '+');
    }
    crate::text::lemma_split_join(parts, '+', one_of(seq!['+']));
    assert(split_when(combo, one_of(seq!['+'])) == parts);
    lemma_combo_state_of_modifier_names(m);
    assert(parts.drop_last() =~= names);
    assert(!is_ws(key[0]));
    assert(!is_ws(key.last()));
    crate::text::lemma_trim_plain_ends(key);
    assert(lookup(defs, key) is None);
    assert(resolve(key, defs) == key);
    assert(combo_state(parts, defs) == (m, Some(lower(key))));
}

/// The directive is one line of five words and defines no variable.
#[verifier::rlimit(40)]
proof fn lemma_sway_directive_line(s: Shortcut)
    requires
        sway_key_writable(s.key),
    ensures
        lines(sway_binding_text(s)) == seq![sway_binding_text(s)],
        line_words(sway_binding_text(s)) == seq![
            "bindsym"@,
            sway_combo(s),
            "exec"@,
            "pookie-paste"@,
            "--toggle"@,
        ],
        definitions(seq![sway_binding_text(s)]) == Seq::<(Seq<char>, Seq<char>)>::empty(),
{
    lemma_modifier_words();
    reveal_strlit("bindsym ");
    reveal_strlit(" exec pookie-paste --toggle");
    reveal_strlit("bindsym");
    reveal_strlit("exec");
    reveal_strlit("pookie-paste");
    reveal_strlit("--toggle");
    reveal_strlit("set");
    lemma_sway_combo_reads_back(s);
    let combo = sway_combo(s);
    let words = seq!["bindsym"@, combo, "exec"@, "pookie-paste"@, "--toggle"@];
    let text = sway_binding_text(s);
    reveal_with_fuel(join, 6);
    assert(text =~= join(words, seq![' ']));
    assert forall|i: int| 0 <= i < words.len() implies (#[trigger] words[i]).len() > 0 by {
    }
    assert forall|i: int, j: int| 0 <= i < words.len() && 0 <= j < words[i].len() implies !is_ws(
        #[trigger] words[i][j],
    ) && words[i][j] != '#' && words[i][j] != '\n' by {
        if i == 1 {
            assert(words[1] == combo);
            assert(combo_char(combo[j]));
        }
    }
    crate::text::lemma_split_ws_join(words);
    assert forall|j: int| 0 <= j < seq![' '].len() implies (#[trigger] seq![' '][j]) != '#'
        && seq![' '][j] != '\n' by {
    }
    crate::text::lemma_join_chars(words, seq![' '], |c: char| c != '#' && c != '\n');
    assert forall|i: int| 0 <= i < text.len() implies !one_of(seq!['\n'])(#[trigger] text[i]) by {
    }
    crate::text::lemma_split_without_separator(text, one_of(seq!['\n']));
    let p = split_when(text, one_of(seq!['\n']));
    assert(p.take(p.len() - 1) =~= Seq::<Seq<char>>::empty());
    assert(lines(text) =~= seq![text]);
    assert forall|i: int| 0 <= i < text.len() implies !one_of(seq!['#'])(#[trigger] text[i]) by {
    }
    crate::text::lemma_split_without_separator(text, one_of(seq!['#']));
    assert(before(text, '#') == text);
    assert(text[0] == 'b');
    assert(text.last() == 'e');
    crate::text::lemma_trim_plain_ends(text);
    assert(config_line(text) == text);
    assert(line_words(text) == words);
    assert(words[0] != "set"@);
    assert(set_definition(text) is None);
    let one = seq![text];
    assert(one.drop_last() =~= Seq::<Seq<char>>::empty());
    assert(one.last() == text);
    assert(definitions(Seq::<Seq<char>>::empty()) == Seq::<(Seq<char>, Seq<char>)>::empty());
    assert(definitions(one) == definitions(one.drop_last()));
}

/// The directive that the status asks the user to add is recognised as
/// binding Pookie Paste to exactly that shortcut (for every key that can be
/// written in a combination).
pub proof fn lemma_sway_directive_recognised(s: Shortcut)
    requires
        sway_key_writable(s.key),
    ensures
        sway_diagnosis(sway_binding_text(s), s) == SwayDiagnosisView::MatchedPookie,
{
    lemma_modifier_words();
    reveal_strlit("bindsym");
    reveal_strlit("exec");
    reveal_strlit("pookie-paste");
    reveal_strlit("--toggle");
    reveal_strlit(" ");
    lemma_sway_directive_line(s);
    lemma_sway_combo_reads_back(s);
    let text = sway_binding_text(s);
    let combo = sway_combo(s);
    let words = seq!["bindsym"@, combo, "exec"@, "pookie-paste"@, "--toggle"@];
    let defs = Seq::<(Seq<char>, Seq<char>)>::empty();
    assert(line_words(text) == words);
    assert(first_non_flag(words, 1) == Some(1int));
    reveal_with_fuel(join, 4);
    assert(words.skip(2) =~= seq!["exec"@, "pookie-paste"@, "--toggle"@]);
    assert(join(words.skip(2), " "@) =~= "exec"@ + " "@ + "pookie-paste"@ + " "@ + "--toggle"@);
    lemma_toggle_command_is_pookie();
    assert(bindsym_diagnosis(text, defs, s) == Some(SwayDiagnosisView::MatchedPookie));
    assert(seq![text][0] == text);
}

} // verus!
