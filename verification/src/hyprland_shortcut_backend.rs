//! Compositor-managed shortcuts on Hyprland: the binding directives to add
//! (Lua for Hyprland 0.56+, Hyprlang for `hyprland.conf`) and the diagnosis of
//! the live binds (`j/binds` over IPC) or of the static configuration.
use vstd::prelude::*;

use crate::shortcut_backend::{
    opt_view, NamedKey, OutcomeView, Shortcut, ShortcutActivation, ShortcutBackendCapability,
    ShortcutError, ShortcutKey, ShortcutModifiers, ShortcutRegistrationOutcome,
};
use crate::sway_shortcut_backend::{
    defs_view, is_pookie_command_chars, lookup, opt_chars, pookie_command, slice_words,
    FallbackSource, fallback_text,
};
use crate::text::{is_ws, path_join, path_push,
    append_chars, append_str, ascii_lower, ascii_upper, before, before_char, cat,
    char_to_ascii_lowercase, char_to_ascii_uppercase, chars_eq, chars_to_string, contains,
    contains_str, decimal, decimal_u8, eq_ic, eq_ignore_case, eq_ignore_case_str, eq_str, find,
    find_chars, join, join_chars, lines, lower, one_of, slice, split_lines, split_on, split_when,
    starts_with, starts_with_str, str_chars, trim, trim_chars, views,
};

verus! {

pub const HYPR_MOD_SHIFT: u32 = 1;

pub const HYPR_MOD_CTRL: u32 = 4;

pub const HYPR_MOD_ALT: u32 = 8;

pub const HYPR_MOD_SUPER: u32 = 64;

#[derive(Debug, Clone, PartialEq, Eq)]
pub enum HyprlandBindingDiagnosis {
    /// Actively bound in compositor and proven to invoke Pookie Paste (direct exec).
    VerifiedPookie,
    /// Actively bound to another command or non-Lua dispatcher.
    Conflict { command: String },
    /// Actively bound to a Lua callback (__lua), so runtime target is opaque.
    OccupiedOpaque { callback_id: String },
    /// No binding found for this shortcut.
    NotFound,
}

/// A Hyprland diagnosis by its text.
pub enum HyprDiagnosisView {
    VerifiedPookie,
    Conflict(Seq<char>),
    OccupiedOpaque(Seq<char>),
    NotFound,
}

impl View for HyprlandBindingDiagnosis {
    type V = HyprDiagnosisView;

    open spec fn view(&self) -> HyprDiagnosisView {
        match self {
            HyprlandBindingDiagnosis::VerifiedPookie => HyprDiagnosisView::VerifiedPookie,
            HyprlandBindingDiagnosis::Conflict { command } => HyprDiagnosisView::Conflict(command@),
            HyprlandBindingDiagnosis::OccupiedOpaque { callback_id } =>
                HyprDiagnosisView::OccupiedOpaque(callback_id@),
            HyprlandBindingDiagnosis::NotFound => HyprDiagnosisView::NotFound,
        }
    }
}

/// One entry of Hyprland's `j/binds` reply.
#[derive(Debug, Clone)]
pub struct HyprlandIpcBind {
    pub modmask: u32,
    pub key: String,
    pub dispatcher: String,
    pub arg: String,
    pub submap: String,
}

// ---------------------------------------------------------------------------
// Binding directives

/// Hyprland's names of the held modifiers, in the order SUPER, CTRL, ALT, SHIFT.
pub open spec fn hypr_modifier_names(m: ShortcutModifiers) -> Seq<Seq<char>> {
    let a: Seq<Seq<char>> = if m.super_key { seq!["SUPER"@] } else { Seq::empty() };
    let b = if m.control { a.push("CTRL"@) } else { a };
    let c = if m.alt { b.push("ALT"@) } else { b };
    if m.shift { c.push("SHIFT"@) } else { c }
}

/// The key name in a binding directive: characters in upper case; `space_name`
/// is how Space is written.
pub open spec fn hypr_key_name(k: ShortcutKey, space_name: Seq<char>) -> Seq<char> {
    match k {
        ShortcutKey::Character(c) => seq![ascii_upper(c)],
        ShortcutKey::Named(n) => match n {
            NamedKey::Space => space_name,
            NamedKey::Tab => "Tab"@,
            NamedKey::Enter => "Return"@,
            NamedKey::Escape => "Escape"@,
            NamedKey::Insert => "Insert"@,
            NamedKey::Delete => "Delete"@,
            NamedKey::F(n) => "F"@ + decimal(n as nat),
        },
    }
}

/// `hl.bind("SUPER + V", hl.dsp.exec_cmd("pookie-paste --toggle"))`.
pub open spec fn hypr_lua_text(s: Shortcut) -> Seq<char> {
    "hl.bind(\""@ + join(hypr_modifier_names(s.modifiers).push(hypr_key_name(s.key, "Space"@)), " + "@)
        + "\", hl.dsp.exec_cmd(\"pookie-paste --toggle\"))"@
}

/// `bind = SUPER, V, exec, pookie-paste --toggle`.
pub open spec fn hypr_hyprlang_text(s: Shortcut) -> Seq<char> {
    let mods = join(hypr_modifier_names(s.modifiers), " "@);
    let key = hypr_key_name(s.key, "space"@);
    if mods.len() == 0 {
        "bind = , "@ + key + ", exec, pookie-paste --toggle"@
    } else {
        "bind = "@ + mods + ", "@ + key + ", exec, pookie-paste --toggle"@
    }
}

fn hypr_modifier_chars(m: ShortcutModifiers) -> (r: Vec<Vec<char>>)
    ensures
        views(r@) == hypr_modifier_names(m),
{
    let mut parts: Vec<Vec<char>> = Vec::new();
    if m.super_key {
        parts.push(str_chars("SUPER"));
    }
    if m.control {
        parts.push(str_chars("CTRL"));
    }
    if m.alt {
        parts.push(str_chars("ALT"));
    }
    if m.shift {
        parts.push(str_chars("SHIFT"));
    }
    assert(views(parts@) =~= hypr_modifier_names(m));
    parts
}

fn hypr_key_chars(k: ShortcutKey, space_name: &str) -> (r: Vec<char>)
    ensures
        r@ == hypr_key_name(k, space_name@),
{
    match k {
        ShortcutKey::Character(c) => vec![char_to_ascii_uppercase(c)],
        ShortcutKey::Named(n) => match n {
            NamedKey::Space => str_chars(space_name),
            NamedKey::Tab => str_chars("Tab"),
            NamedKey::Enter => str_chars("Return"),
            NamedKey::Escape => str_chars("Escape"),
            NamedKey::Insert => str_chars("Insert"),
            NamedKey::Delete => str_chars("Delete"),
            NamedKey::F(n) => {
                let mut r = str_chars("F");
                let d = decimal_u8(n);
                append_chars(&mut r, &d);
                r
            },
        },
    }
}

/// Formats the modern Hyprland Lua binding directive (Hyprland 0.56+) for a given shortcut.
pub fn format_hyprland_lua_binding(shortcut: Shortcut) -> (r: String)
    ensures
        r@ == hypr_lua_text(shortcut),
{
    let mut parts = hypr_modifier_chars(shortcut.modifiers);
    let ghost names = views(parts@);
    parts.push(hypr_key_chars(shortcut.key, "Space"));
    assert(views(parts@) =~= names.push(hypr_key_name(shortcut.key, "Space"@)));
    let sep = str_chars(" + ");
    let combo = join_chars(&parts, &sep);
    let mut out = str_chars("hl.bind(\"");
    append_chars(&mut out, &combo);
    append_str(&mut out, "\", hl.dsp.exec_cmd(\"pookie-paste --toggle\"))");
    chars_to_string(&out)
}

/// Formats the classic Hyprlang binding directive (`hyprland.conf`) for a given shortcut.
pub fn format_hyprland_hyprlang_binding(shortcut: Shortcut) -> (r: String)
    ensures
        r@ == hypr_hyprlang_text(shortcut),
{
    let parts = hypr_modifier_chars(shortcut.modifiers);
    let sp = str_chars(" ");
    let mods = join_chars(&parts, &sp);
    let key = hypr_key_chars(shortcut.key, "space");
    let mut out: Vec<char>;
    if mods.len() == 0 {
        out = str_chars("bind = , ");
    } else {
        out = str_chars("bind = ");
        append_chars(&mut out, &mods);
        append_str(&mut out, ", ");
    }
    append_chars(&mut out, &key);
    append_str(&mut out, ", exec, pookie-paste --toggle");
    chars_to_string(&out)
}

/// Formats the canonical Hyprland binding directive: the Lua form.
pub fn format_hyprland_binding(shortcut: Shortcut) -> (r: String)
    ensures
        r@ == hypr_lua_text(shortcut),
{
    format_hyprland_lua_binding(shortcut)
}

/// Hyprland's modifier bit mask: SHIFT 1, CTRL 4, ALT 8, SUPER 64.
pub open spec fn hypr_modmask(m: ShortcutModifiers) -> u32 {
    ((if m.shift { 1u32 } else { 0u32 }) + (if m.control { 4u32 } else { 0u32 }) + (if m.alt {
        8u32
    } else {
        0u32
    }) + (if m.super_key { 64u32 } else { 0u32 })) as u32
}

/// Four flags, each added as its own bit (1, 4, 8, 64), can be read back
/// bit by bit.
proof fn lemma_hypr_flag_bits(shift: bool, control: bool, alt: bool, sup: bool, r: u32)
    by (bit_vector)
    requires
        r == ((if shift { 1u32 } else { 0u32 }) + (if control { 4u32 } else { 0u32 }) + (if alt {
            8u32
        } else {
            0u32
        }) + (if sup { 64u32 } else { 0u32 })) as u32,
    ensures
        (r & 1u32 != 0u32) == shift,
        (r & 4u32 != 0u32) == control,
        (r & 8u32 != 0u32) == alt,
        (r & 64u32 != 0u32) == sup,
        r & !77u32 == 0u32,
{
}

/// Each held modifier sets its own Hyprland modifier bit and no other bit is
/// set: Shift the SHIFT bit, Control the CTRL bit, Alt the ALT bit, Super the
/// SUPER bit.
pub proof fn lemma_hypr_modmask_bits(m: ShortcutModifiers)
    ensures
        (hypr_modmask(m) & HYPR_MOD_SHIFT != 0) == m.shift,
        (hypr_modmask(m) & HYPR_MOD_CTRL != 0) == m.control,
        (hypr_modmask(m) & HYPR_MOD_ALT != 0) == m.alt,
        (hypr_modmask(m) & HYPR_MOD_SUPER != 0) == m.super_key,
        hypr_modmask(m) & !(HYPR_MOD_SHIFT | HYPR_MOD_CTRL | HYPR_MOD_ALT | HYPR_MOD_SUPER) == 0,
{
    lemma_hypr_flag_bits(m.shift, m.control, m.alt, m.super_key, hypr_modmask(m));
    assert(HYPR_MOD_SHIFT | HYPR_MOD_CTRL | HYPR_MOD_ALT | HYPR_MOD_SUPER == 77u32) by (bit_vector);
}

/// Two shortcuts get the same Hyprland modmask exactly when they hold the same
/// modifiers.
pub proof fn lemma_hypr_modmask_injective(a: ShortcutModifiers, b: ShortcutModifiers)
    ensures
        (hypr_modmask(a) == hypr_modmask(b)) == (a == b),
{
    lemma_hypr_modmask_bits(a);
    lemma_hypr_modmask_bits(b);
}

/// Calculates the expected Hyprland bitmask from `ShortcutModifiers`.
pub fn shortcut_to_hyprland_modmask(shortcut: Shortcut) -> (r: u32)
    ensures
        r == hypr_modmask(shortcut.modifiers),
{
    let mut mask = 0u32;
    if shortcut.modifiers.shift {
        mask = mask + HYPR_MOD_SHIFT;
    }
    if shortcut.modifiers.control {
        mask = mask + HYPR_MOD_CTRL;
    }
    if shortcut.modifiers.alt {
        mask = mask + HYPR_MOD_ALT;
    }
    if shortcut.modifiers.super_key {
        mask = mask + HYPR_MOD_SUPER;
    }
    mask
}

/// A key name from Hyprland names the shortcut's key: a character key is a
/// single ASCII character (after trimming) equal to it ignoring case; named
/// keys by their names, ignoring case.
pub open spec fn hypr_key_matches(key: Seq<char>, k: ShortcutKey) -> bool {
    let t = trim(key);
    match k {
        ShortcutKey::Character(c) => t.len() == 1 && (t[0] as u32) < 128 && ascii_lower(t[0])
            == ascii_lower(c),
        ShortcutKey::Named(n) => match n {
            NamedKey::Space => eq_ic(t, "space"@),
            NamedKey::Tab => eq_ic(t, "tab"@),
            NamedKey::Enter => eq_ic(t, "return"@) || eq_ic(t, "enter"@),
            NamedKey::Escape => eq_ic(t, "escape"@) || eq_ic(t, "esc"@),
            NamedKey::Insert => eq_ic(t, "insert"@) || eq_ic(t, "ins"@),
            NamedKey::Delete => eq_ic(t, "delete"@) || eq_ic(t, "del"@),
            NamedKey::F(n) => eq_ic(t, "f"@ + decimal(n as nat)),
        },
    }
}

fn hypr_key_matches_chars(key: &Vec<char>, shortcut_key: ShortcutKey) -> (r: bool)
    ensures
        r == hypr_key_matches(key@, shortcut_key),
{
    let t = trim_chars(key);
    match shortcut_key {
        ShortcutKey::Character(c) => {
            t.len() == 1 && (t[0] as u32) < 128 && char_to_ascii_lowercase(t[0])
                == char_to_ascii_lowercase(c)
        },
        ShortcutKey::Named(n) => match n {
            NamedKey::Space => eq_ignore_case_str(&t, "space"),
            NamedKey::Tab => eq_ignore_case_str(&t, "tab"),
            NamedKey::Enter => eq_ignore_case_str(&t, "return") || eq_ignore_case_str(&t, "enter"),
            NamedKey::Escape => eq_ignore_case_str(&t, "escape") || eq_ignore_case_str(&t, "esc"),
            NamedKey::Insert => eq_ignore_case_str(&t, "insert") || eq_ignore_case_str(&t, "ins"),
            NamedKey::Delete => eq_ignore_case_str(&t, "delete") || eq_ignore_case_str(&t, "del"),
            NamedKey::F(n) => {
                let mut f = str_chars("f");
                let d = decimal_u8(n);
                append_chars(&mut f, &d);
                eq_ignore_case(&t, &f)
            },
        },
    }
}

/// Matches a key string from Hyprland against `ShortcutKey`.
pub fn matches_hyprland_key(key: &str, shortcut_key: ShortcutKey) -> (r: bool)
    ensures
        r == hypr_key_matches(key@, shortcut_key),
{
    let k = str_chars(key);
    hypr_key_matches_chars(&k, shortcut_key)
}


// ---------------------------------------------------------------------------
// Live binds (`j/binds`)

/// A bind of the default submap for exactly this shortcut.
pub open spec fn bind_matches(b: HyprlandIpcBind, s: Shortcut) -> bool {
    b.submap@.len() == 0 && b.modmask == hypr_modmask(s.modifiers) && hypr_key_matches(
        b.key@,
        s.key,
    )
}

/// The command that makes a bind a definite conflict: an `exec` of something
/// other than Pookie Paste, or any dispatcher other than `exec` and `__lua`.
pub open spec fn bind_conflict(b: HyprlandIpcBind) -> Option<Seq<char>> {
    if b.dispatcher@ == "exec"@ {
        if !pookie_command(b.arg@) {
            Some("exec "@ + b.arg@)
        } else {
            None
        }
    } else if b.dispatcher@ != "__lua"@ {
        Some(
            if b.arg@.len() == 0 {
                b.dispatcher@
            } else {
                b.dispatcher@ + " "@ + b.arg@
            },
        )
    } else {
        None
    }
}

pub open spec fn bind_verified(b: HyprlandIpcBind) -> bool {
    b.dispatcher@ == "exec"@ && pookie_command(b.arg@)
}

pub open spec fn bind_lua(b: HyprlandIpcBind) -> bool {
    b.dispatcher@ == "__lua"@
}

/// The conflict of the first matching bind that is a conflict.
pub open spec fn first_conflict(binds: Seq<HyprlandIpcBind>, s: Shortcut) -> Option<Seq<char>>
    decreases binds.len(),
{
    if binds.len() == 0 {
        None
    } else if bind_matches(binds[0], s) && bind_conflict(binds[0]) is Some {
        bind_conflict(binds[0])
    } else {
        first_conflict(binds.drop_first(), s)
    }
}

/// The callback id of the first matching `__lua` bind.
pub open spec fn first_lua(binds: Seq<HyprlandIpcBind>, s: Shortcut) -> Option<Seq<char>>
    decreases binds.len(),
{
    if binds.len() == 0 {
        None
    } else if bind_matches(binds[0], s) && bind_lua(binds[0]) {
        Some(binds[0].arg@)
    } else {
        first_lua(binds.drop_first(), s)
    }
}

/// The diagnosis of the live binds: a definite conflict takes precedence over
/// a verified Pookie binding, which takes precedence over an opaque Lua
/// callback.
pub open spec fn binds_diagnosis(binds: Seq<HyprlandIpcBind>, s: Shortcut) -> HyprDiagnosisView {
    match first_conflict(binds, s) {
        Some(c) => HyprDiagnosisView::Conflict(c),
        None => if exists|i: int| 0 <= i < binds.len() && bind_matches(binds[i], s) && bind_verified(
            #[trigger] binds[i],
        ) {
            HyprDiagnosisView::VerifiedPookie
        } else {
            match first_lua(binds, s) {
                Some(id) => HyprDiagnosisView::OccupiedOpaque(id),
                None => HyprDiagnosisView::NotFound,
            }
        },
    }
}

fn bind_matches_exec(b: &HyprlandIpcBind, s: Shortcut, mask: u32) -> (r: bool)
    requires
        mask == hypr_modmask(s.modifiers),
    ensures
        r == bind_matches(*b, s),
{
    let key = str_chars(b.key.as_str());
    b.submap.as_str().is_empty() && b.modmask == mask && hypr_key_matches_chars(&key, s.key)
}

fn bind_conflict_exec(b: &HyprlandIpcBind) -> (r: Option<Vec<char>>)
    ensures
        opt_chars(r) == bind_conflict(*b),
{
    let d = str_chars(b.dispatcher.as_str());
    let a = str_chars(b.arg.as_str());
    if eq_str(&d, "exec") {
        if !is_pookie_command_chars(&a) {
            Some(cat("exec ", &a))
        } else {
            None
        }
    } else if !eq_str(&d, "__lua") {
        if a.len() == 0 {
            Some(d)
        } else {
            let mut c = d.clone();
            append_str(&mut c, " ");
            append_chars(&mut c, &a);
            Some(c)
        }
    } else {
        None
    }
}

/// Evaluates the parsed `j/binds` reply against a requested `Shortcut`.
///
/// Uses a deterministic precedence rule across all matching default-submap entries:
/// a definite conflict first, then a verified Pookie binding (direct exec), then
/// an opaque Lua callback, else not configured.
pub fn diagnose_hyprland_ipc_binds(binds: &Vec<HyprlandIpcBind>, shortcut: Shortcut) -> (r:
    HyprlandBindingDiagnosis)
    ensures
        r@ == binds_diagnosis(binds@, shortcut),
{
    let mask = shortcut_to_hyprland_modmask(shortcut);
    assert(binds@.skip(0) == binds@);
    // 1. Any definite conflict.
    for i in 0..binds.len()
        invariant
            mask == hypr_modmask(shortcut.modifiers),
            first_conflict(binds@, shortcut) == first_conflict(binds@.skip(i as int), shortcut),
    {
        assert(binds@.skip(i as int)[0] == binds@[i as int]);
        assert(binds@.skip(i as int).drop_first() == binds@.skip(i + 1));
        if bind_matches_exec(&binds[i], shortcut, mask) {
            if let Some(c) = bind_conflict_exec(&binds[i]) {
                return HyprlandBindingDiagnosis::Conflict { command: chars_to_string(&c) };
            }
        }
    }
    assert(binds@.skip(binds.len() as int).len() == 0);
    // 2. Any verified Pookie exec binding.
    for i in 0..binds.len()
        invariant
            mask == hypr_modmask(shortcut.modifiers),
            first_conflict(binds@, shortcut) is None,
            forall|j: int|
                0 <= j < i ==> !(bind_matches(binds@[j], shortcut) && bind_verified(
                    #[trigger] binds@[j],
                )),
    {
        if bind_matches_exec(&binds[i], shortcut, mask) {
            let d = str_chars(binds[i].dispatcher.as_str());
            let a = str_chars(binds[i].arg.as_str());
            if eq_str(&d, "exec") && is_pookie_command_chars(&a) {
                assert(bind_verified(binds@[i as int]));
                return HyprlandBindingDiagnosis::VerifiedPookie;
            }
        }
    }
    // 3. Any opaque Lua binding.
    for i in 0..binds.len()
        invariant
            mask == hypr_modmask(shortcut.modifiers),
            first_conflict(binds@, shortcut) is None,
            !exists|j: int| 0 <= j < binds@.len() && bind_matches(binds@[j], shortcut) && bind_verified(
                #[trigger] binds@[j],
            ),
            first_lua(binds@, shortcut) == first_lua(binds@.skip(i as int), shortcut),
    {
        assert(binds@.skip(i as int)[0] == binds@[i as int]);
        assert(binds@.skip(i as int).drop_first() == binds@.skip(i + 1));
        if bind_matches_exec(&binds[i], shortcut, mask) && eq_str(
            &str_chars(binds[i].dispatcher.as_str()),
            "__lua",
        ) {
            return HyprlandBindingDiagnosis::OccupiedOpaque { callback_id: binds[i].arg.clone() };
        }
    }
    assert(binds@.skip(binds.len() as int).len() == 0);
    HyprlandBindingDiagnosis::NotFound
}


// ---------------------------------------------------------------------------
// Static configuration: Lua (`hyprland.lua`)

/// The quoting state before character `i` of a Lua line: the open quote (if
/// any) and the previous character.
pub open spec fn lua_state(s: Seq<char>, i: int) -> (Option<char>, char)
    decreases i,
{
    if i <= 0 {
        (None, '\0')
    } else {
        let (q, prev) = lua_state(s, i - 1);
        let ch = s[i - 1];
        let nq = match q {
            Some(open) => if ch == open && prev != '\\' {
                None
            } else {
                Some(open)
            },
            None => if ch == '"' || ch == '\'' {
                Some(ch)
            } else {
                None
            },
        };
        (nq, ch)
    }
}

/// A Lua comment (`--` outside quotes) starts at `i`.
pub open spec fn lua_comment_at(s: Seq<char>, i: int) -> bool {
    0 <= i && i + 1 < s.len() && lua_state(s, i).0 is None && s[i] == '-' && s[i + 1] == '-'
}

/// The line without its Lua comment, trimmed.
pub open spec fn strip_lua_comment_spec(s: Seq<char>) -> Seq<char> {
    if exists|i: int| lua_comment_at(s, i) {
        let i = choose|i: int| lua_comment_at(s, i) && forall|j: int| 0 <= j < i ==> !lua_comment_at(s, j);
        trim(s.take(i))
    } else {
        trim(s)
    }
}

proof fn lemma_first_comment(s: Seq<char>, i: int)
    requires
        lua_comment_at(s, i),
        forall|j: int| 0 <= j < i ==> !lua_comment_at(s, j),
    ensures
        strip_lua_comment_spec(s) == trim(s.take(i)),
{
    let w = choose|k: int| lua_comment_at(s, k) && forall|j: int| 0 <= j < k ==> !lua_comment_at(s, j);
    assert(lua_comment_at(s, w));
    if w < i {
        assert(!lua_comment_at(s, w));
    } else if w > i {
        assert(!lua_comment_at(s, i));
    }
}

fn strip_lua_comment(line: &Vec<char>) -> (r: Vec<char>)
    ensures
        r@ == strip_lua_comment_spec(line@),
{
    let mut in_quote: Option<char> = None;
    let mut prev_char: char = '\0';
    let n = line.len();
    let mut i: usize = 0;
    while i < n
        invariant
            n == line.len(),
            i <= n,
            (in_quote, prev_char) == lua_state(line@, i as int),
            forall|j: int| 0 <= j < i ==> !lua_comment_at(line@, j),
        decreases n - i,
    {
        let ch = line[i];
        match in_quote {
            Some(q) => {
                if ch == q && prev_char != '\\' {
                    in_quote = None;
                }
            },
            None => {
                if ch == '"' || ch == '\'' {
                    in_quote = Some(ch);
                } else if ch == '-' && i + 1 < n && line[i + 1] == '-' {
                    proof {
                        lemma_first_comment(line@, i as int);
                    }
                    let head = slice(line, 0, i);
                    assert(head@ == line@.take(i as int));
                    return trim_chars(&head);
                }
            },
        }
        assert(!lua_comment_at(line@, i as int));
        prev_char = ch;
        i = i + 1;
    }
    assert forall|j: int| !lua_comment_at(line@, j) by {
        if 0 <= j < n {
        }
    }
    trim_chars(line)
}

/// The quoted command of `exec_cmd("...")` (or single quotes).
pub open spec fn lua_exec_cmd(line: Seq<char>) -> Option<Seq<char>> {
    match find(line, "exec_cmd("@) {
        None => None,
        Some(idx) => {
            let after = line.skip(idx + 9);
            if after.len() == 0 || (after[0] != '"' && after[0] != '\'') {
                None
            } else {
                let inner = after.skip(1);
                match find(inner, seq![after[0]]) {
                    None => None,
                    Some(end) => Some(inner.take(end)),
                }
            }
        },
    }
}

fn extract_lua_exec_cmd(line: &Vec<char>) -> (r: Option<Vec<char>>)
    ensures
        opt_chars(r) == lua_exec_cmd(line@),
{
    let pat = str_chars("exec_cmd(");
    proof {
        reveal_strlit("exec_cmd(");
    }
    let found = find_chars(line, &pat);
    if found.is_none() {
        return None;
    }
    let idx = found.unwrap();
    assert(find(line@, pat@) == Some(idx as int));
    proof {
        crate::text::lemma_find_some_bound(line@, pat@, idx as int);
        reveal_strlit("exec_cmd(");
        assert(pat@.len() == 9);
        assert(idx + pat@.len() <= line@.len());
        assert(idx + 9 <= line.len());
    }
    let after = slice(line, idx + 9, line.len());
    assert(after@ == line@.skip(idx + 9));
    if after.len() == 0 {
        return None;
    }
    let quote = after[0];
    if quote != '"' && quote != '\'' {
        return None;
    }
    let inner = slice(&after, 1, after.len());
    assert(inner@ == after@.skip(1));
    let q = vec![quote];
    assert(q@ == seq![after@[0]]);
    match find_chars(&inner, &q) {
        Some(end) => {
            proof {
                crate::text::lemma_find_some_bound(inner@, q@, end as int);
            }
            let cmd = slice(&inner, 0, end);
            assert(cmd@ == inner@.take(end as int));
            Some(cmd)
        },
        None => None,
    }
}

/// The key of the shortcut appears in a Lua binding line.
pub open spec fn lua_key_matches(line: Seq<char>, k: ShortcutKey) -> bool {
    match k {
        ShortcutKey::Character(c) => {
            let u = ascii_upper(c);
            contains(line, seq!['"', c, '"']) || contains(line, seq!['\'', c, '\'']) || contains(
                line,
                seq!['"', u, '"'],
            ) || contains(line, seq!['\'', u, '\'']) || contains(line, seq!['+', ' ', c])
                || contains(line, seq!['+', ' ', u]) || contains(line, seq![',', ' ', c])
                || contains(line, seq![',', ' ', u])
        },
        ShortcutKey::Named(NamedKey::Space) => contains(line, "space"@) || contains(line, "Space"@),
        ShortcutKey::Named(NamedKey::F(n)) => contains(line, "F"@ + decimal(n as nat)) || contains(
            line,
            "f"@ + decimal(n as nat),
        ),
        _ => false,
    }
}

/// What one Lua line says about the shortcut, if it binds it.
pub open spec fn lua_line_diagnosis(raw: Seq<char>, s: Shortcut) -> Option<HyprDiagnosisView> {
    let line = strip_lua_comment_spec(raw);
    if !contains(line, "hl.bind"@) {
        None
    } else if contains(line, "SUPER"@) != s.modifiers.super_key || (contains(line, "CTRL"@)
        || contains(line, "CONTROL"@)) != s.modifiers.control || contains(line, "ALT"@)
        != s.modifiers.alt || contains(line, "SHIFT"@) != s.modifiers.shift {
        None
    } else if !lua_key_matches(line, s.key) {
        None
    } else {
        match lua_exec_cmd(line) {
            Some(cmd) => if pookie_command(cmd) {
                Some(HyprDiagnosisView::VerifiedPookie)
            } else {
                Some(HyprDiagnosisView::Conflict("exec "@ + cmd))
            },
            None => if contains(line, "hl.dsp."@) {
                Some(HyprDiagnosisView::Conflict(line))
            } else {
                None
            },
        }
    }
}

/// The diagnosis of the first Lua line that binds the shortcut.
pub open spec fn first_lua_line(ls: Seq<Seq<char>>, s: Shortcut) -> Option<HyprDiagnosisView>
    decreases ls.len(),
{
    if ls.len() == 0 {
        None
    } else {
        match lua_line_diagnosis(ls[0], s) {
            Some(d) => Some(d),
            None => first_lua_line(ls.drop_first(), s),
        }
    }
}

fn contains_any(line: &Vec<char>, a: &Vec<char>, b: &Vec<char>) -> (r: bool)
    ensures
        r == (contains(line@, a@) || contains(line@, b@)),
{
    let fa = find_chars(line, a);
    let fb = find_chars(line, b);
    proof {
        crate::text::lemma_find_iff_contains(line@, a@);
        crate::text::lemma_find_iff_contains(line@, b@);
    }
    fa.is_some() || fb.is_some()
}

fn lua_key_matches_exec(line: &Vec<char>, k: ShortcutKey) -> (r: bool)
    ensures
        r == lua_key_matches(line@, k),
{
    match k {
        ShortcutKey::Character(c) => {
            let u = char_to_ascii_uppercase(c);
            let p1 = vec!['"', c, '"'];
            let p2 = vec!['\'', c, '\''];
            let p3 = vec!['"', u, '"'];
            let p4 = vec!['\'', u, '\''];
            let p5 = vec!['+', ' ', c];
            let p6 = vec!['+', ' ', u];
            let p7 = vec![',', ' ', c];
            let p8 = vec![',', ' ', u];
            assert(p1@ == seq!['"', c, '"']);
            assert(p2@ == seq!['\'', c, '\'']);
            assert(p3@ == seq!['"', u, '"']);
            assert(p4@ == seq!['\'', u, '\'']);
            assert(p5@ == seq!['+', ' ', c]);
            assert(p6@ == seq!['+', ' ', u]);
            assert(p7@ == seq![',', ' ', c]);
            assert(p8@ == seq![',', ' ', u]);
            contains_any(line, &p1, &p2) || contains_any(line, &p3, &p4) || contains_any(
                line,
                &p5,
                &p6,
            ) || contains_any(line, &p7, &p8)
        },
        ShortcutKey::Named(NamedKey::Space) => contains_str(line, "space") || contains_str(
            line,
            "Space",
        ),
        ShortcutKey::Named(NamedKey::F(n)) => {
            let d = decimal_u8(n);
            let up = cat("F", &d);
            let low = cat("f", &d);
            contains_any(line, &up, &low)
        },
        _ => false,
    }
}

fn lua_line_diagnosis_exec(raw: &Vec<char>, s: Shortcut) -> (r: Option<HyprlandBindingDiagnosis>)
    ensures
        match r {
            Some(d) => lua_line_diagnosis(raw@, s) == Some(d@),
            None => lua_line_diagnosis(raw@, s) is None,
        },
{
    let line = strip_lua_comment(raw);
    if !contains_str(&line, "hl.bind") {
        return None;
    }
    let has_super = contains_str(&line, "SUPER");
    let has_ctrl = contains_str(&line, "CTRL") || contains_str(&line, "CONTROL");
    let has_alt = contains_str(&line, "ALT");
    let has_shift = contains_str(&line, "SHIFT");
    if has_super != s.modifiers.super_key || has_ctrl != s.modifiers.control || has_alt
        != s.modifiers.alt || has_shift != s.modifiers.shift {
        return None;
    }
    if !lua_key_matches_exec(&line, s.key) {
        return None;
    }
    match extract_lua_exec_cmd(&line) {
        Some(cmd) => {
            if is_pookie_command_chars(&cmd) {
                Some(HyprlandBindingDiagnosis::VerifiedPookie)
            } else {
                let c = cat("exec ", &cmd);
                Some(HyprlandBindingDiagnosis::Conflict { command: chars_to_string(&c) })
            }
        },
        None => {
            if contains_str(&line, "hl.dsp.") {
                Some(HyprlandBindingDiagnosis::Conflict { command: chars_to_string(&line) })
            } else {
                None
            }
        },
    }
}

fn scan_literal_lua_bindings(ls: &Vec<Vec<char>>, s: Shortcut) -> (r: Option<
    HyprlandBindingDiagnosis,
>)
    ensures
        match r {
            Some(d) => first_lua_line(views(ls@), s) == Some(d@),
            None => first_lua_line(views(ls@), s) is None,
        },
{
    let ghost lv = views(ls@);
    assert(lv.skip(0) == lv);
    for i in 0..ls.len()
        invariant
            lv == views(ls@),
            first_lua_line(lv, s) == first_lua_line(lv.skip(i as int), s),
    {
        assert(lv.skip(i as int)[0] == ls@[i as int]@);
        assert(lv.skip(i as int).drop_first() == lv.skip(i + 1));
        match lua_line_diagnosis_exec(&ls[i], s) {
            Some(d) => {
                return Some(d);
            },
            None => {},
        }
    }
    assert(lv.skip(ls.len() as int).len() == 0);
    None
}


// ---------------------------------------------------------------------------
// Static configuration: Hyprlang (`hyprland.conf`)

/// A Hyprlang line without its `#` comment, trimmed.
pub open spec fn hl_line(raw: Seq<char>) -> Seq<char> {
    trim(before(raw, '#'))
}

/// `str::split_once('=')`.
pub open spec fn split_once_eq(line: Seq<char>) -> Option<(Seq<char>, Seq<char>)> {
    match find(line, seq!['=']) {
        Some(i) => Some((line.take(i), line.skip(i + 1))),
        None => None,
    }
}

/// `$name = value`: a variable definition.
pub open spec fn hl_definition(raw: Seq<char>) -> Option<(Seq<char>, Seq<char>)> {
    match split_once_eq(hl_line(raw)) {
        Some((v, val)) => if starts_with(trim(v), "$"@) {
            Some((trim(v), trim(val)))
        } else {
            None
        },
        None => None,
    }
}

/// The variable definitions of the lines, in order.
pub open spec fn hl_definitions(ls: Seq<Seq<char>>) -> Seq<(Seq<char>, Seq<char>)>
    decreases ls.len(),
{
    if ls.len() == 0 {
        Seq::empty()
    } else {
        let d = hl_definitions(ls.drop_last());
        match hl_definition(ls.last()) {
            Some(p) => d.push(p),
            None => d,
        }
    }
}

/// Applies one Hyprlang modifier word; other words are ignored.
pub open spec fn hl_apply_modifier(m: ShortcutModifiers, t: Seq<char>) -> ShortcutModifiers {
    if eq_ic(t, "super"@) || eq_ic(t, "mod4"@) || eq_ic(t, "win"@) {
        ShortcutModifiers { super_key: true, ..m }
    } else if eq_ic(t, "ctrl"@) || eq_ic(t, "control"@) {
        ShortcutModifiers { control: true, ..m }
    } else if eq_ic(t, "alt"@) || eq_ic(t, "mod1"@) {
        ShortcutModifiers { alt: true, ..m }
    } else if eq_ic(t, "shift"@) {
        ShortcutModifiers { shift: true, ..m }
    } else {
        m
    }
}

pub open spec fn hl_fold_modifiers(parts: Seq<Seq<char>>) -> ShortcutModifiers
    decreases parts.len(),
{
    if parts.len() == 0 {
        ShortcutModifiers { super_key: false, control: false, alt: false, shift: false }
    } else {
        hl_apply_modifier(hl_fold_modifiers(parts.drop_last()), trim(parts.last()))
    }
}

/// The set of modifiers that a Hyprlang modifier list names (words separated
/// by spaces, `+` or `|`).
pub open spec fn hl_modifiers(s: Seq<char>) -> ShortcutModifiers {
    hl_fold_modifiers(split_when(s, one_of(seq![' ', '+', '|'])))
}

/// What one `bind… = mods, key, dispatcher, args` line says about the shortcut.
pub open spec fn hl_line_diagnosis(
    raw: Seq<char>,
    defs: Seq<(Seq<char>, Seq<char>)>,
    s: Shortcut,
) -> Option<HyprDiagnosisView> {
    match split_once_eq(hl_line(raw)) {
        None => None,
        Some((d, rest)) => {
            let directive = trim(d);
            if !starts_with(directive, "bind"@) || starts_with(directive, "bindm"@) {
                None
            } else {
                let parts = split_when(rest, one_of(seq![',']));
                if parts.len() < 3 {
                    None
                } else {
                    let raw_mods = trim(parts[0]);
                    let resolved = match lookup(defs, raw_mods) {
                        Some(v) => v,
                        None => raw_mods,
                    };
                    if hl_modifiers(resolved) != s.modifiers {
                        None
                    } else if !hypr_key_matches(trim(parts[1]), s.key) {
                        None
                    } else {
                        let dispatcher = trim(parts[2]);
                        if dispatcher == "exec"@ {
                            let cmd = trim(join(parts.skip(3), ","@));
                            if pookie_command(cmd) {
                                Some(HyprDiagnosisView::VerifiedPookie)
                            } else {
                                Some(HyprDiagnosisView::Conflict("exec "@ + cmd))
                            }
                        } else {
                            let arg = if parts.len() > 3 {
                                trim(parts[3])
                            } else {
                                Seq::empty()
                            };
                            Some(
                                HyprDiagnosisView::Conflict(
                                    if arg.len() == 0 {
                                        dispatcher
                                    } else {
                                        dispatcher + " "@ + arg
                                    },
                                ),
                            )
                        }
                    }
                }
            }
        },
    }
}

/// The diagnosis of the first Hyprlang line that binds the shortcut.
pub open spec fn first_hl_line(
    ls: Seq<Seq<char>>,
    defs: Seq<(Seq<char>, Seq<char>)>,
    s: Shortcut,
) -> HyprDiagnosisView
    decreases ls.len(),
{
    if ls.len() == 0 {
        HyprDiagnosisView::NotFound
    } else {
        match hl_line_diagnosis(ls[0], defs, s) {
            Some(d) => d,
            None => first_hl_line(ls.drop_first(), defs, s),
        }
    }
}

/// The diagnosis of static configuration text: literal Lua bindings first,
/// then Hyprlang bindings.
pub open spec fn config_text_diagnosis(text: Seq<char>, s: Shortcut) -> HyprDiagnosisView {
    match first_lua_line(lines(text), s) {
        Some(d) => d,
        None => first_hl_line(lines(text), hl_definitions(lines(text)), s),
    }
}

fn split_once_eq_exec(line: &Vec<char>) -> (r: Option<(Vec<char>, Vec<char>)>)
    ensures
        match r {
            Some(p) => split_once_eq(line@) == Some((p.0@, p.1@)),
            None => split_once_eq(line@) is None,
        },
{
    let eq = vec!['='];
    assert(eq@ == seq!['=']);
    let found = find_chars(line, &eq);
    if found.is_none() {
        return None;
    }
    let i = found.unwrap();
    proof {
        crate::text::lemma_find_some_bound(line@, eq@, i as int);
        assert(eq@.len() == 1);
        assert(i + 1 <= line.len());
    }
    let a = slice(line, 0, i);
    let b = slice(line, i + 1, line.len());
    assert(a@ == line@.take(i as int));
    assert(b@ == line@.skip(i + 1));
    Some((a, b))
}

fn hl_line_chars(raw: &Vec<char>) -> (r: Vec<char>)
    ensures
        r@ == hl_line(raw@),
{
    let b = before_char(raw, '#');
    trim_chars(&b)
}

fn hl_definition_of(raw: &Vec<char>) -> (r: Option<(Vec<char>, Vec<char>)>)
    ensures
        match r {
            Some(p) => hl_definition(raw@) == Some((p.0@, p.1@)),
            None => hl_definition(raw@) is None,
        },
{
    let line = hl_line_chars(raw);
    match split_once_eq_exec(&line) {
        Some((v, val)) => {
            let v = trim_chars(&v);
            if starts_with_str(&v, "$") {
                Some((v, trim_chars(&val)))
            } else {
                None
            }
        },
        None => None,
    }
}

fn hl_apply_modifier_exec(m: ShortcutModifiers, t: &Vec<char>) -> (r: ShortcutModifiers)
    ensures
        r == hl_apply_modifier(m, t@),
{
    if eq_ignore_case_str(t, "super") || eq_ignore_case_str(t, "mod4") || eq_ignore_case_str(
        t,
        "win",
    ) {
        ShortcutModifiers { super_key: true, ..m }
    } else if eq_ignore_case_str(t, "ctrl") || eq_ignore_case_str(t, "control") {
        ShortcutModifiers { control: true, ..m }
    } else if eq_ignore_case_str(t, "alt") || eq_ignore_case_str(t, "mod1") {
        ShortcutModifiers { alt: true, ..m }
    } else if eq_ignore_case_str(t, "shift") {
        ShortcutModifiers { shift: true, ..m }
    } else {
        m
    }
}

fn parse_hyprlang_mods_set(s: &Vec<char>) -> (r: ShortcutModifiers)
    ensures
        r == hl_modifiers(s@),
{
    let seps = vec![' ', '+', '|'];
    assert(seps@ == seq![' ', '+', '|']);
    let parts = split_on(s, &seps);
    let ghost pv = views(parts@);
    let mut m = ShortcutModifiers { super_key: false, control: false, alt: false, shift: false };
    for i in 0..parts.len()
        invariant
            pv == views(parts@),
            m == hl_fold_modifiers(pv.take(i as int)),
    {
        assert(pv.take(i + 1).drop_last() == pv.take(i as int));
        assert(pv.take(i + 1).last() == parts@[i as int]@);
        let t = trim_chars(&parts[i]);
        m = hl_apply_modifier_exec(m, &t);
    }
    assert(pv.take(parts.len() as int) == pv);
    m
}

fn lookup_hl(defs: &Vec<(Vec<char>, Vec<char>)>, name: &Vec<char>) -> (r: Option<Vec<char>>)
    ensures
        opt_chars(r) == lookup(defs_view(defs@), name@),
{
    let ghost dv = defs_view(defs@);
    let mut i = defs.len();
    assert(dv.take(i as int) == dv);
    while i > 0
        invariant
            i <= defs.len(),
            dv == defs_view(defs@),
            lookup(dv, name@) == lookup(dv.take(i as int), name@),
        decreases i,
    {
        assert(dv.take(i as int).drop_last() == dv.take(i - 1));
        assert(dv.take(i as int).last() == (defs@[i - 1].0@, defs@[i - 1].1@));
        if chars_eq(&defs[i - 1].0, name) {
            return Some(defs[i - 1].1.clone());
        }
        i = i - 1;
    }
    None
}

fn hl_line_diagnosis_exec(raw: &Vec<char>, defs: &Vec<(Vec<char>, Vec<char>)>, s: Shortcut) -> (r:
    Option<HyprlandBindingDiagnosis>)
    ensures
        match r {
            Some(d) => hl_line_diagnosis(raw@, defs_view(defs@), s) == Some(d@),
            None => hl_line_diagnosis(raw@, defs_view(defs@), s) is None,
        },
{
    let line = hl_line_chars(raw);
    let (d, rest) = match split_once_eq_exec(&line) {
        Some(p) => p,
        None => return None,
    };
    let directive = trim_chars(&d);
    if !starts_with_str(&directive, "bind") || starts_with_str(&directive, "bindm") {
        return None;
    }
    let comma = vec![','];
    assert(comma@ == seq![',']);
    let parts = split_on(&rest, &comma);
    let ghost pv = views(parts@);
    if parts.len() < 3 {
        return None;
    }
    let raw_mods = trim_chars(&parts[0]);
    let resolved = match lookup_hl(defs, &raw_mods) {
        Some(v) => v,
        None => raw_mods,
    };
    if parse_hyprlang_mods_set(&resolved) != s.modifiers {
        return None;
    }
    let key_str = trim_chars(&parts[1]);
    if !hypr_key_matches_chars(&key_str, s.key) {
        return None;
    }
    let dispatcher = trim_chars(&parts[2]);
    if eq_str(&dispatcher, "exec") {
        let tail = slice_words(&parts, 3);
        let comma_sep = str_chars(",");
        let joined = join_chars(&tail, &comma_sep);
        let cmd = trim_chars(&joined);
        if is_pookie_command_chars(&cmd) {
            Some(HyprlandBindingDiagnosis::VerifiedPookie)
        } else {
            let c = cat("exec ", &cmd);
            Some(HyprlandBindingDiagnosis::Conflict { command: chars_to_string(&c) })
        }
    } else {
        let arg = if parts.len() > 3 {
            trim_chars(&parts[3])
        } else {
            Vec::new()
        };
        assert(arg@ == (if pv.len() > 3 {
            trim(pv[3])
        } else {
            Seq::<char>::empty()
        }));
        let cmd = if arg.len() == 0 {
            dispatcher
        } else {
            let mut c = dispatcher.clone();
            append_str(&mut c, " ");
            append_chars(&mut c, &arg);
            c
        };
        Some(HyprlandBindingDiagnosis::Conflict { command: chars_to_string(&cmd) })
    }
}

fn scan_hyprlang_bindings(ls: &Vec<Vec<char>>, s: Shortcut) -> (r: HyprlandBindingDiagnosis)
    ensures
        r@ == first_hl_line(views(ls@), hl_definitions(views(ls@)), s),
{
    let ghost lv = views(ls@);
    let mut variables: Vec<(Vec<char>, Vec<char>)> = Vec::new();
    for i in 0..ls.len()
        invariant
            lv == views(ls@),
            defs_view(variables@) == hl_definitions(lv.take(i as int)),
    {
        assert(lv.take(i + 1).drop_last() == lv.take(i as int));
        assert(lv.take(i + 1).last() == ls@[i as int]@);
        match hl_definition_of(&ls[i]) {
            Some(p) => {
                let ghost prev = variables@;
                variables.push(p);
                assert(defs_view(variables@) =~= defs_view(prev).push((p.0@, p.1@)));
            },
            None => {},
        }
    }
    assert(lv.take(ls.len() as int) == lv);
    let ghost dv = defs_view(variables@);
    assert(lv.skip(0) == lv);
    for i in 0..ls.len()
        invariant
            lv == views(ls@),
            dv == defs_view(variables@),
            dv == hl_definitions(lv),
            first_hl_line(lv, dv, s) == first_hl_line(lv.skip(i as int), dv, s),
    {
        assert(lv.skip(i as int)[0] == ls@[i as int]@);
        assert(lv.skip(i as int).drop_first() == lv.skip(i + 1));
        match hl_line_diagnosis_exec(&ls[i], &variables, s) {
            Some(d) => {
                assert(first_hl_line(lv.skip(i as int), dv, s) == d@);
                return d;
            },
            None => {},
        }
    }
    assert(lv.skip(ls.len() as int).len() == 0);
    HyprlandBindingDiagnosis::NotFound
}

/// Diagnoses static configuration text (either `hyprland.lua` or `hyprland.conf`).
pub fn diagnose_hyprland_config_text(config_text: &str, shortcut: Shortcut) -> (r:
    HyprlandBindingDiagnosis)
    ensures
        r@ == config_text_diagnosis(config_text@, shortcut),
{
    let chars = str_chars(config_text);
    let ls = split_lines(&chars);
    // 1. Narrow literal Lua bindings, e.g.
    //    hl.bind("SUPER + V", hl.dsp.exec_cmd("pookie-paste --toggle"))
    if let Some(d) = scan_literal_lua_bindings(&ls, shortcut) {
        return d;
    }
    // 2. Classic Hyprlang bindings, e.g. bind = SUPER, V, exec, pookie-paste --toggle
    scan_hyprlang_bindings(&ls, shortcut)
}


// ---------------------------------------------------------------------------
// The backend

/// Where the authoritative binds come from.
#[derive(Debug, Clone)]
pub enum IpcSource {
    /// Hyprland's command socket, if one was found.
    LiveSocket(Option<String>),
    /// A fixed `j/binds` reply, for deterministic use.
    MockResponse(String),
}

pub struct HyprlandShortcutBackend {
    ipc_source: IpcSource,
    fallback_source: FallbackSource,
    registered_shortcut: Option<Shortcut>,
}

/// The diagnosis of a `j/binds` reply; a reply that did not parse binds nothing.
pub open spec fn ipc_diagnosis(reply: Option<Seq<HyprlandIpcBind>>, s: Shortcut) -> HyprDiagnosisView {
    match reply {
        Some(binds) => binds_diagnosis(binds, s),
        None => HyprDiagnosisView::NotFound,
    }
}

/// Whether the static configuration holds a literal Pookie binding for the shortcut.
pub open spec fn static_pookie_literal(fallback: Option<Seq<char>>, s: Shortcut) -> bool {
    match fallback {
        Some(text) => config_text_diagnosis(text, s) is VerifiedPookie,
        None => false,
    }
}

/// The diagnostic for a key held by an opaque Lua callback.
pub open spec fn opaque_message(callback_id: Seq<char>, literal_found: bool) -> Seq<char> {
    if literal_found {
        "Key is actively bound to a Lua callback (__lua, id: "@ + callback_id
            + ") in Hyprland. Static config contains a literal Pookie binding for this shortcut, but runtime target cannot be verified over IPC"@
    } else {
        "Key is actively bound to a Lua callback (__lua, id: "@ + callback_id
            + ") in Hyprland; runtime command target cannot be verified over IPC"@
    }
}

/// What registering reports. A `j/binds` reply (`ipc` is `Some`) is
/// authoritative: the static configuration only adds context to an opaque Lua
/// binding. Without a reply the fallback text is diagnosed, and a binding
/// found there is never reported as verified.
pub open spec fn hypr_registration(
    s: Shortcut,
    ipc: Option<Option<Seq<HyprlandIpcBind>>>,
    fallback: Option<Seq<char>>,
) -> OutcomeView {
    let snippet = hypr_lua_text(s);
    match ipc {
        Some(reply) => match ipc_diagnosis(reply, s) {
            HyprDiagnosisView::VerifiedPookie => OutcomeView::CompositorManaged(
                snippet,
                true,
                None,
                Some("Verified active in running Hyprland compositor (direct exec)"@),
            ),
            HyprDiagnosisView::Conflict(c) => OutcomeView::CompositorManaged(
                snippet,
                false,
                Some("Key is bound to '"@ + c + "' in active Hyprland configuration"@),
                Some("Conflicting binding in active compositor"@),
            ),
            HyprDiagnosisView::OccupiedOpaque(id) => OutcomeView::CompositorManaged(
                snippet,
                false,
                None,
                Some(opaque_message(id, static_pookie_literal(fallback, s))),
            ),
            HyprDiagnosisView::NotFound => OutcomeView::CompositorManaged(
                snippet,
                false,
                None,
                None,
            ),
        },
        None => match fallback {
            Some(text) => match config_text_diagnosis(text, s) {
                HyprDiagnosisView::VerifiedPookie => OutcomeView::CompositorManaged(
                    snippet,
                    false,
                    None,
                    Some(
                        "Found matching Pookie binding in static configuration file (Hyprland IPC unavailable)"@,
                    ),
                ),
                HyprDiagnosisView::Conflict(c) => OutcomeView::CompositorManaged(
                    snippet,
                    false,
                    Some(
                        "Key is bound to '"@ + c
                            + "' in configuration file (Hyprland IPC unavailable)"@,
                    ),
                    Some("Conflicting binding in static configuration"@),
                ),
                _ => OutcomeView::CompositorManaged(snippet, false, None, None),
            },
            None => OutcomeView::CompositorManaged(snippet, false, None, None),
        },
    }
}

/// A parsed reply by its binds.
pub open spec fn reply_view(r: Option<Option<Vec<HyprlandIpcBind>>>) -> Option<
    Option<Seq<HyprlandIpcBind>>,
> {
    match r {
        Some(Some(v)) => Some(Some(v@)),
        Some(None) => Some(None),
        None => None,
    }
}

fn copy_fallback(o: &Option<String>) -> (r: Option<String>)
    ensures
        opt_view(r) == opt_view(*o),
{
    match o {
        Some(s) => Some(s.clone()),
        None => None,
    }
}

fn text_of(o: Option<&str>) -> (r: Option<String>)
    ensures
        opt_view(r) == match o {
            Some(s) => Some(s@),
            None => None::<Seq<char>>,
        },
{
    match o {
        Some(s) => {
            let v = str_chars(s);
            Some(chars_to_string(&v))
        },
        None => None,
    }
}

impl HyprlandShortcutBackend {
    pub closed spec fn socket_path_spec(&self) -> Option<Seq<char>> {
        match self.ipc_source {
            IpcSource::LiveSocket(p) => opt_view(p),
            IpcSource::MockResponse(_) => None,
        }
    }

    pub closed spec fn mock_spec(&self) -> Option<Seq<char>> {
        match self.ipc_source {
            IpcSource::LiveSocket(_) => None,
            IpcSource::MockResponse(raw) => Some(raw@),
        }
    }

    pub closed spec fn fallback_spec(&self) -> FallbackSource {
        self.fallback_source
    }

    pub closed spec fn registered_spec(&self) -> Option<Shortcut> {
        self.registered_shortcut
    }

    /// Whether registering asks for a `j/binds` reply: over a known socket, or
    /// from the fixed reply.
    pub open spec fn queries_ipc(&self) -> bool {
        self.socket_path_spec() is Some || self.mock_spec() is Some
    }

    /// The backend for the running session: `socket_path` is the command
    /// socket found for `$HYPRLAND_INSTANCE_SIGNATURE`, if any; the host's
    /// configuration files are the diagnostic fallback.
    pub fn new(socket_path: Option<String>) -> (r: Result<Self, ShortcutError>)
        ensures
            r matches Ok(b) && b.socket_path_spec() == opt_view(socket_path) && b.mock_spec() is None
                && b.fallback_spec() is HostFilesystem && b.registered_spec() is None,
    {
        Ok(Self::from_socket(socket_path))
    }

    /// Creates a backend with an explicit socket path and the host filesystem
    /// as diagnostic fallback.
    pub fn from_socket(socket_path: Option<String>) -> (r: Self)
        ensures
            r.socket_path_spec() == opt_view(socket_path),
            r.mock_spec() is None,
            r.fallback_spec() is HostFilesystem,
            r.registered_spec() is None,
    {
        HyprlandShortcutBackend {
            ipc_source: IpcSource::LiveSocket(socket_path),
            fallback_source: FallbackSource::HostFilesystem,
            registered_shortcut: None,
        }
    }

    /// Creates an isolated offline backend with explicit fallback
    /// configuration content (or none): no IPC and no host files.
    pub fn from_offline_config(config: Option<&str>) -> (r: Self)
        ensures
            r.socket_path_spec() is None,
            r.mock_spec() is None,
            r.fallback_spec() is Explicit,
            fallback_text(r.fallback_spec(), None) == match config {
                Some(s) => Some(s@),
                None => None::<Seq<char>>,
            },
            r.registered_spec() is None,
    {
        HyprlandShortcutBackend {
            ipc_source: IpcSource::LiveSocket(None),
            fallback_source: FallbackSource::Explicit(text_of(config)),
            registered_shortcut: None,
        }
    }

    /// Creates an isolated backend whose `j/binds` reply is fixed.
    pub fn with_mock_ipc(raw_json: &str) -> (r: Self)
        ensures
            r.socket_path_spec() is None,
            r.mock_spec() == Some(raw_json@),
            r.fallback_spec() == FallbackSource::Explicit(None),
            r.registered_spec() is None,
    {
        let v = str_chars(raw_json);
        HyprlandShortcutBackend {
            ipc_source: IpcSource::MockResponse(chars_to_string(&v)),
            fallback_source: FallbackSource::Explicit(None),
            registered_shortcut: None,
        }
    }

    /// Sets or overrides the fallback configuration text.
    pub fn with_fallback_config(self, config: Option<&str>) -> (r: Self)
        ensures
            r.socket_path_spec() == self.socket_path_spec(),
            r.mock_spec() == self.mock_spec(),
            r.fallback_spec() is Explicit,
            fallback_text(r.fallback_spec(), None) == match config {
                Some(s) => Some(s@),
                None => None::<Seq<char>>,
            },
            r.registered_spec() == self.registered_spec(),
    {
        HyprlandShortcutBackend {
            ipc_source: self.ipc_source,
            fallback_source: FallbackSource::Explicit(text_of(config)),
            registered_shortcut: self.registered_shortcut,
        }
    }

    pub fn socket_path(&self) -> (r: Option<&str>)
        ensures
            match r {
                Some(p) => self.socket_path_spec() == Some(p@),
                None => self.socket_path_spec() is None,
            },
    {
        match &self.ipc_source {
            IpcSource::LiveSocket(Some(p)) => Some(p.as_str()),
            _ => None,
        }
    }

    /// The fixed `j/binds` reply, if the backend has one.
    pub fn mock_response(&self) -> (r: Option<&str>)
        ensures
            match r {
                Some(p) => self.mock_spec() == Some(p@),
                None => self.mock_spec() is None,
            },
    {
        match &self.ipc_source {
            IpcSource::MockResponse(raw) => Some(raw.as_str()),
            _ => None,
        }
    }

    /// Whether registering consults the host's configuration files.
    pub fn uses_host_config(&self) -> (r: bool)
        ensures
            r == self.fallback_spec() is HostFilesystem,
    {
        match &self.fallback_source {
            FallbackSource::HostFilesystem => true,
            FallbackSource::Explicit(_) => false,
        }
    }

    pub fn registered_shortcut(&self) -> (r: Option<Shortcut>)
        ensures
            r == self.registered_spec(),
    {
        self.registered_shortcut
    }

    pub fn name(&self) -> (r: &'static str)
        ensures
            r@ == "Hyprland compositor-managed shortcut"@,
    {
        "Hyprland compositor-managed shortcut"
    }

    pub fn capability(&self) -> (r: ShortcutBackendCapability)
        ensures
            r == ShortcutBackendCapability::CompositorManaged,
    {
        ShortcutBackendCapability::CompositorManaged
    }

    /// Records the shortcut and reports how the compositor binds it.
    ///
    /// `ipc_reply` is the parsed `j/binds` reply: `None` when no reply came
    /// (the query failed), `Some(None)` when the reply was not a list of binds.
    /// It is ignored when the backend neither has a socket nor a fixed reply.
    /// `host_config` is the text of the first readable host configuration
    /// file, consulted only for a backend whose fallback is the host filesystem.
    pub fn register_with(
        &mut self,
        shortcut: Shortcut,
        ipc_reply: Option<Option<Vec<HyprlandIpcBind>>>,
        host_config: Option<String>,
    ) -> (r: Result<ShortcutRegistrationOutcome, ShortcutError>)
        ensures
            final(self).registered_spec() == Some(shortcut),
            final(self).socket_path_spec() == old(self).socket_path_spec(),
            final(self).mock_spec() == old(self).mock_spec(),
            final(self).fallback_spec() == old(self).fallback_spec(),
            r matches Ok(o) && o@ == hypr_registration(
                shortcut,
                if old(self).queries_ipc() {
                    reply_view(ipc_reply)
                } else {
                    None
                },
                fallback_text(old(self).fallback_spec(), opt_view(host_config)),
            ),
    {
        let binding_snippet = format_hyprland_binding(shortcut);
        self.registered_shortcut = Some(shortcut);
        let queries = match &self.ipc_source {
            IpcSource::LiveSocket(Some(_)) => true,
            IpcSource::MockResponse(_) => true,
            _ => false,
        };
        let fallback_content = match &self.fallback_source {
            FallbackSource::HostFilesystem => host_config,
            FallbackSource::Explicit(content) => copy_fallback(content),
        };
        if queries {
            if let Some(reply) = ipc_reply {
                let d = match reply {
                    Some(binds) => diagnose_hyprland_ipc_binds(&binds, shortcut),
                    None => HyprlandBindingDiagnosis::NotFound,
                };
                return match d {
                    HyprlandBindingDiagnosis::VerifiedPookie => {
                        let diag = str_chars(
                            "Verified active in running Hyprland compositor (direct exec)",
                        );
                        Ok(
                            ShortcutRegistrationOutcome::CompositorManaged {
                                binding_snippet,
                                verified: true,
                                conflict: None,
                                diagnostic: Some(chars_to_string(&diag)),
                            },
                        )
                    },
                    HyprlandBindingDiagnosis::Conflict { command } => {
                        let mut msg = str_chars("Key is bound to '");
                        let c = str_chars(command.as_str());
                        append_chars(&mut msg, &c);
                        append_str(&mut msg, "' in active Hyprland configuration");
                        let diag = str_chars("Conflicting binding in active compositor");
                        Ok(
                            ShortcutRegistrationOutcome::CompositorManaged {
                                binding_snippet,
                                verified: false,
                                conflict: Some(chars_to_string(&msg)),
                                diagnostic: Some(chars_to_string(&diag)),
                            },
                        )
                    },
                    HyprlandBindingDiagnosis::OccupiedOpaque { callback_id } => {
                        let literal_found = match &fallback_content {
                            Some(content) => {
                                let fd = diagnose_hyprland_config_text(content.as_str(), shortcut);
                                match fd {
                                    HyprlandBindingDiagnosis::VerifiedPookie => true,
                                    _ => false,
                                }
                            },
                            None => false,
                        };
                        let mut msg = str_chars(
                            "Key is actively bound to a Lua callback (__lua, id: ",
                        );
                        let id = str_chars(callback_id.as_str());
                        append_chars(&mut msg, &id);
                        if literal_found {
                            append_str(
                                &mut msg,
                                ") in Hyprland. Static config contains a literal Pookie binding for this shortcut, but runtime target cannot be verified over IPC",
                            );
                        } else {
                            append_str(
                                &mut msg,
                                ") in Hyprland; runtime command target cannot be verified over IPC",
                            );
                        }
                        Ok(
                            ShortcutRegistrationOutcome::CompositorManaged {
                                binding_snippet,
                                verified: false,
                                conflict: None,
                                diagnostic: Some(chars_to_string(&msg)),
                            },
                        )
                    },
                    HyprlandBindingDiagnosis::NotFound => Ok(
                        ShortcutRegistrationOutcome::CompositorManaged {
                            binding_snippet,
                            verified: false,
                            conflict: None,
                            diagnostic: None,
                        },
                    ),
                };
            }
        }
        if let Some(file_content) = fallback_content {
            let d = diagnose_hyprland_config_text(file_content.as_str(), shortcut);
            match d {
                HyprlandBindingDiagnosis::VerifiedPookie => {
                    let diag = str_chars(
                        "Found matching Pookie binding in static configuration file (Hyprland IPC unavailable)",
                    );
                    Ok(
                        ShortcutRegistrationOutcome::CompositorManaged {
                            binding_snippet,
                            verified: false,
                            conflict: None,
                            diagnostic: Some(chars_to_string(&diag)),
                        },
                    )
                },
                HyprlandBindingDiagnosis::Conflict { command } => {
                    let mut msg = str_chars("Key is bound to '");
                    let c = str_chars(command.as_str());
                    append_chars(&mut msg, &c);
                    append_str(&mut msg, "' in configuration file (Hyprland IPC unavailable)");
                    let diag = str_chars("Conflicting binding in static configuration");
                    Ok(
                        ShortcutRegistrationOutcome::CompositorManaged {
                            binding_snippet,
                            verified: false,
                            conflict: Some(chars_to_string(&msg)),
                            diagnostic: Some(chars_to_string(&diag)),
                        },
                    )
                },
                _ => Ok(
                    ShortcutRegistrationOutcome::CompositorManaged {
                        binding_snippet,
                        verified: false,
                        conflict: None,
                        diagnostic: None,
                    },
                ),
            }
        } else {
            Ok(
                ShortcutRegistrationOutcome::CompositorManaged {
                    binding_snippet,
                    verified: false,
                    conflict: None,
                    diagnostic: None,
                },
            )
        }
    }

    /// Activation is external (the compositor runs `pookie-paste --toggle`).
    pub fn wait_for_activation(&mut self) -> (r: Result<ShortcutActivation, ShortcutError>)
        ensures
            r matches Err(ShortcutError::Unavailable),
            *final(self) == *old(self),
    {
        Err(ShortcutError::Unavailable)
    }

    pub fn unregister(&mut self) -> (r: Result<(), ShortcutError>)
        ensures
            r is Ok,
            final(self).registered_spec() is None,
            final(self).socket_path_spec() == old(self).socket_path_spec(),
            final(self).mock_spec() == old(self).mock_spec(),
            final(self).fallback_spec() == old(self).fallback_spec(),
    {
        self.registered_shortcut = None;
        Ok(())
    }
}

/// The views of some optional text.
pub open spec fn opt_text(o: Option<&str>) -> Option<Seq<char>> {
    match o {
        Some(x) => Some(x@),
        None => None,
    }
}

/// Where the command socket of the instance `signature` may be, in the order
/// tried: under `$XDG_RUNTIME_DIR/hypr`, then under `/tmp/hypr`.
pub open spec fn hyprland_socket_candidates_spec(signature: Seq<char>, runtime_dir: Option<Seq<char>>) -> Seq<
    Seq<char>,
> {
    (match runtime_dir {
        Some(d) => seq![path_join(path_join(path_join(d, "hypr"@), signature), ".socket.sock"@)],
        None => Seq::empty(),
    }) + seq![path_join(path_join("/tmp/hypr"@, signature), ".socket.sock"@)]
}

pub fn hyprland_socket_candidates(signature: &str, xdg_runtime_dir: Option<&str>) -> (r: Vec<String>)
    ensures
        r@.map_values(|s: String| s@) == hyprland_socket_candidates_spec(
            signature@,
            opt_text(xdg_runtime_dir),
        ),
{
    let mut r: Vec<String> = Vec::new();
    if let Some(d) = xdg_runtime_dir {
        let mut p = str_chars(d);
        path_push(&mut p, "hypr");
        path_push(&mut p, signature);
        path_push(&mut p, ".socket.sock");
        r.push(chars_to_string(&p));
    }
    let mut p = str_chars("/tmp/hypr");
    path_push(&mut p, signature);
    path_push(&mut p, ".socket.sock");
    r.push(chars_to_string(&p));
    assert(r@.map_values(|s: String| s@) =~= hyprland_socket_candidates_spec(
        signature@,
        opt_text(xdg_runtime_dir),
    ));
    r
}

/// The host configuration files, in the order tried: `hypr/hyprland.lua` and
/// `hypr/hyprland.conf` under `$XDG_CONFIG_HOME` (or else `$HOME/.config`),
/// then `/etc/hypr/hyprland.conf`.
pub open spec fn hyprland_config_candidates_spec(xdg: Option<Seq<char>>, home: Option<Seq<char>>) -> Seq<
    Seq<char>,
> {
    let root = match xdg {
        Some(x) => Some(x),
        None => match home {
            Some(h) => Some(path_join(h, ".config"@)),
            None => None,
        },
    };
    (match root {
        Some(c) => seq![path_join(c, "hypr/hyprland.lua"@), path_join(c, "hypr/hyprland.conf"@)],
        None => Seq::empty(),
    }) + seq!["/etc/hypr/hyprland.conf"@]
}

pub fn hyprland_config_candidates(xdg_config_home: Option<&str>, home: Option<&str>) -> (r: Vec<
    String,
>)
    ensures
        r@.map_values(|s: String| s@) == hyprland_config_candidates_spec(
            opt_text(xdg_config_home),
            opt_text(home),
        ),
{
    let mut root: Option<Vec<char>> = None;
    if let Some(x) = xdg_config_home {
        root = Some(str_chars(x));
    } else if let Some(h) = home {
        let mut p = str_chars(h);
        path_push(&mut p, ".config");
        root = Some(p);
    }
    let mut r: Vec<String> = Vec::new();
    if let Some(c) = root {
        let mut a = c.clone();
        path_push(&mut a, "hypr/hyprland.lua");
        r.push(chars_to_string(&a));
        let mut b = c;
        path_push(&mut b, "hypr/hyprland.conf");
        r.push(chars_to_string(&b));
    }
    let e = str_chars("/etc/hypr/hyprland.conf");
    r.push(chars_to_string(&e));
    assert(r@.map_values(|s: String| s@) =~= hyprland_config_candidates_spec(
        opt_text(xdg_config_home),
        opt_text(home),
    ));
    r
}

/// Without a `j/binds` reply a binding is never reported as verified, even
/// when the configuration file holds a literal Pookie binding.
pub proof fn lemma_hypr_fallback_never_verified(s: Shortcut, fallback: Option<Seq<char>>)
    ensures
        hypr_registration(s, None, fallback) matches OutcomeView::CompositorManaged(
            snippet,
            verified,
            _,
            _,
        ) && !verified && snippet == hypr_lua_text(s),
{
}

/// Only an IPC reply that proves a direct Pookie exec is reported verified;
/// a conflict and an opaque Lua callback never are.
pub proof fn lemma_hypr_verified_only_by_ipc(
    s: Shortcut,
    ipc: Option<Option<Seq<HyprlandIpcBind>>>,
    fallback: Option<Seq<char>>,
)
    ensures
        (hypr_registration(s, ipc, fallback) matches OutcomeView::CompositorManaged(_, v, _, _)
            && v) <==> (ipc matches Some(reply) && ipc_diagnosis(reply, s) is VerifiedPookie),
{
}

/// The static configuration never overrides the reply: with a reply, the
/// fallback text only changes the diagnostic of an opaque Lua binding.
pub proof fn lemma_hypr_reply_is_authoritative(
    s: Shortcut,
    reply: Option<Seq<HyprlandIpcBind>>,
    f1: Option<Seq<char>>,
    f2: Option<Seq<char>>,
)
    requires
        !(ipc_diagnosis(reply, s) is OccupiedOpaque),
    ensures
        hypr_registration(s, Some(reply), f1) == hypr_registration(s, Some(reply), f2),
{
}

/// A comment somewhere means there is a first one.
proof fn lemma_first_comment_exists(s: Seq<char>, i: int)
    requires
        lua_comment_at(s, i),
    ensures
        exists|k: int| lua_comment_at(s, k) && forall|j: int| 0 <= j < k ==> !lua_comment_at(s, j),
    decreases i,
{
    if exists|j: int| 0 <= j < i && lua_comment_at(s, j) {
        let j = choose|j: int| 0 <= j < i && lua_comment_at(s, j);
        lemma_first_comment_exists(s, j);
    } else {
        assert(lua_comment_at(s, i) && forall|j: int| 0 <= j < i ==> !lua_comment_at(s, j));
    }
}

/// Removing a Lua comment keeps a character out.
proof fn lemma_strip_lua_lacks(s: Seq<char>, c: char)
    requires
        crate::text::lacks(s, c),
    ensures
        crate::text::lacks(strip_lua_comment_spec(s), c),
{
    if exists|i: int| lua_comment_at(s, i) {
        let w = choose|i: int| lua_comment_at(s, i);
        lemma_first_comment_exists(s, w);
        let i = choose|i: int| lua_comment_at(s, i) && forall|j: int| 0 <= j < i ==> !lua_comment_at(s, j);
        let t = s.take(i);
        assert(crate::text::lacks(t, c)) by {
            assert forall|k: int| 0 <= k < t.len() implies t[k] != c by {
                assert(t[k] == s[k]);
            }
        }
        crate::text::lemma_trim_lacks(t, c);
    } else {
        crate::text::lemma_trim_lacks(s, c);
    }
}

/// A line without a lower-case `h` binds nothing as a Lua literal.
proof fn lemma_no_lua_binding(line: Seq<char>, s: Shortcut)
    requires
        crate::text::lacks(line, 'h'),
    ensures
        lua_line_diagnosis(line, s) is None,
{
    reveal_strlit("hl.bind");
    lemma_strip_lua_lacks(line, 'h');
    assert("hl.bind"@[0] == 'h');
    crate::text::lemma_lacks_not_contains(strip_lua_comment_spec(line), "hl.bind"@, 0);
}

proof fn lemma_hypr_words()
    ensures
        "SUPER"@ == seq!['S', 'U', 'P', 'E', 'R'],
        "CTRL"@ == seq!['C', 'T', 'R', 'L'],
        "ALT"@ == seq!['A', 'L', 'T'],
        "SHIFT"@ == seq!['S', 'H', 'I', 'F', 'T'],
        "super"@ == seq!['s', 'u', 'p', 'e', 'r'],
        "mod4"@ == seq!['m', 'o', 'd', '4'],
        "win"@ == seq!['w', 'i', 'n'],
        "ctrl"@ == seq!['c', 't', 'r', 'l'],
        "control"@ == seq!['c', 'o', 'n', 't', 'r', 'o', 'l'],
        "alt"@ == seq!['a', 'l', 't'],
        "mod1"@ == seq!['m', 'o', 'd', '1'],
        "shift"@ == seq!['s', 'h', 'i', 'f', 't'],
        "space"@ == seq!['s', 'p', 'a', 'c', 'e'],
        "Tab"@ == seq!['T', 'a', 'b'],
        "tab"@ == seq!['t', 'a', 'b'],
        "Return"@ == seq!['R', 'e', 't', 'u', 'r', 'n'],
        "return"@ == seq!['r', 'e', 't', 'u', 'r', 'n'],
        "Escape"@ == seq!['E', 's', 'c', 'a', 'p', 'e'],
        "escape"@ == seq!['e', 's', 'c', 'a', 'p', 'e'],
        "Insert"@ == seq!['I', 'n', 's', 'e', 'r', 't'],
        "insert"@ == seq!['i', 'n', 's', 'e', 'r', 't'],
        "Delete"@ == seq!['D', 'e', 'l', 'e', 't', 'e'],
        "delete"@ == seq!['d', 'e', 'l', 'e', 't', 'e'],
        "F"@ == seq!['F'],
        "f"@ == seq!['f'],
        " "@ == seq![' '],
{
    reveal_strlit("SUPER");
    reveal_strlit("CTRL");
    reveal_strlit("ALT");
    reveal_strlit("SHIFT");
    reveal_strlit("super");
    reveal_strlit("mod4");
    reveal_strlit("win");
    reveal_strlit("ctrl");
    reveal_strlit("control");
    reveal_strlit("alt");
    reveal_strlit("mod1");
    reveal_strlit("shift");
    reveal_strlit("space");
    reveal_strlit("Tab");
    reveal_strlit("tab");
    reveal_strlit("Return");
    reveal_strlit("return");
    reveal_strlit("Escape");
    reveal_strlit("escape");
    reveal_strlit("Insert");
    reveal_strlit("insert");
    reveal_strlit("Delete");
    reveal_strlit("delete");
    reveal_strlit("F");
    reveal_strlit("f");
    reveal_strlit(" ");
}

proof fn lemma_hl_fold_step(parts: Seq<Seq<char>>, word: Seq<char>, m: ShortcutModifiers, m2: ShortcutModifiers)
    requires
        hl_fold_modifiers(parts) == m,
        word.len() > 0,
        !is_ws(word[0]),
        !is_ws(word.last()),
        hl_apply_modifier(m, word) == m2,
    ensures
        hl_fold_modifiers(parts.push(word)) == m2,
{
    assert(parts.push(word).drop_last() =~= parts);
    crate::text::lemma_trim_plain_ends(word);
}

/// Reading Hyprland's modifier names back gives the modifiers.
proof fn lemma_hl_fold_of_modifier_names(m: ShortcutModifiers)
    ensures
        hl_fold_modifiers(hypr_modifier_names(m)) == m,
{
    lemma_hypr_words();
    let none = ShortcutModifiers { super_key: false, control: false, alt: false, shift: false };
    let e: Seq<Seq<char>> = Seq::empty();
    let m1 = ShortcutModifiers { super_key: m.super_key, ..none };
    let a: Seq<Seq<char>> = if m.super_key { seq!["SUPER"@] } else { Seq::empty() };
    if m.super_key {
        assert(lower("SUPER"@) =~= lower("super"@));
        assert(seq!["SUPER"@] =~= e.push("SUPER"@));
        lemma_hl_fold_step(e, "SUPER"@, none, m1);
    }
    let m2 = ShortcutModifiers { control: m.control, ..m1 };
    let b = if m.control { a.push("CTRL"@) } else { a };
    if m.control {
        assert(lower("CTRL"@) =~= lower("ctrl"@));
        assert(lower("CTRL"@) != lower("super"@));
        assert(lower("CTRL"@)[0] != lower("mod4"@)[0]);
        assert(lower("CTRL"@) != lower("mod4"@));
        assert(lower("CTRL"@) != lower("win"@));
        lemma_hl_fold_step(a, "CTRL"@, m1, m2);
    }
    let m3 = ShortcutModifiers { alt: m.alt, ..m2 };
    let c = if m.alt { b.push("ALT"@) } else { b };
    if m.alt {
        assert(lower("ALT"@) =~= lower("alt"@));
        assert(lower("ALT"@) != lower("super"@));
        assert(lower("ALT"@) != lower("mod4"@));
        assert(lower("ALT"@)[0] != lower("win"@)[0]);
        assert(lower("ALT"@) != lower("win"@));
        assert(lower("ALT"@) != lower("ctrl"@));
        assert(lower("ALT"@) != lower("control"@));
        lemma_hl_fold_step(b, "ALT"@, m2, m3);
    }
    let d = if m.shift { c.push("SHIFT"@) } else { c };
    if m.shift {
        assert(lower("SHIFT"@) =~= lower("shift"@));
        assert(lower("SHIFT"@)[1] != lower("super"@)[1]);
        assert(lower("SHIFT"@) != lower("super"@));
        assert(lower("SHIFT"@) != lower("mod4"@));
        assert(lower("SHIFT"@) != lower("win"@));
        assert(lower("SHIFT"@) != lower("ctrl"@));
        assert(lower("SHIFT"@) != lower("control"@));
        assert(lower("SHIFT"@) != lower("alt"@));
        assert(lower("SHIFT"@) != lower("mod1"@));
        lemma_hl_fold_step(c, "SHIFT"@, m3, m);
    }
    assert(d == hypr_modifier_names(m));
}

/// A key that a Hyprlang `bind` line can carry: an ASCII character other than
/// the `,` separator, the comment sign and whitespace, or any named key.
pub open spec fn hyprlang_key_writable(k: ShortcutKey) -> bool {
    match k {
        ShortcutKey::Character(c) => c != ',' && c != '#' && !is_ws(c) && (c as u32) < 128,
        ShortcutKey::Named(_) => true,
    }
}

/// Characters that may stand in a field of a written `bind` line.
pub open spec fn field_char(c: char) -> bool {
    c != ',' && c != '#' && c != '\n' && c != 'h' && c != '=' && !is_ws(c)
}

/// The key name of a Hyprlang line reads back as the key.
proof fn lemma_hl_key_reads_back(k: ShortcutKey)
    requires
        hyprlang_key_writable(k),
    ensures
        hypr_key_name(k, "space"@).len() > 0,
        forall|i: int| 0 <= i < hypr_key_name(k, "space"@).len() ==> (#[trigger] hypr_key_name(k, "space"@)[i]) != ','
            && hypr_key_name(k, "space"@)[i] != '#' && hypr_key_name(k, "space"@)[i] != '\n'
            && hypr_key_name(k, "space"@)[i] != 'h' && !is_ws(hypr_key_name(k, "space"@)[i]),
        hypr_key_matches(hypr_key_name(k, "space"@), k),
{
    lemma_hypr_words();
    let w = hypr_key_name(k, "space"@);
    match k {
        ShortcutKey::Character(c) => {
            assert(w == seq![ascii_upper(c)]);
            crate::text::lemma_ascii_upper_then_lower(c);
            crate::text::lemma_trim_plain_ends(w);
            assert(trim(w)[0] == ascii_upper(c));
        },
        ShortcutKey::Named(n) => match n {
            NamedKey::F(x) => {
                let d = decimal(x as nat);
                crate::text::lemma_decimal_digits(x as nat);
                assert(w == "F"@ + d);
                assert forall|i: int| 0 <= i < w.len() implies (#[trigger] w[i]) != ',' && w[i] != '#'
                    && w[i] != '\n' && w[i] != 'h' && !is_ws(w[i]) by {
                    if i > 0 {
                        assert(w[i] == d[i - 1]);
                    }
                }
                crate::text::lemma_trim_plain_ends(w);
                assert(lower(w) =~= "f"@ + lower(d));
                assert(lower("f"@ + d) =~= "f"@ + lower(d));
            },
            NamedKey::Space => {
                crate::text::lemma_trim_plain_ends(w);
            },
            NamedKey::Tab => {
                crate::text::lemma_trim_plain_ends(w);
                assert(lower(w) =~= lower("tab"@));
            },
            NamedKey::Enter => {
                crate::text::lemma_trim_plain_ends(w);
                assert(lower(w) =~= lower("return"@));
            },
            NamedKey::Escape => {
                crate::text::lemma_trim_plain_ends(w);
                assert(lower(w) =~= lower("escape"@));
            },
            NamedKey::Insert => {
                crate::text::lemma_trim_plain_ends(w);
                assert(lower(w) =~= lower("insert"@));
            },
            NamedKey::Delete => {
                crate::text::lemma_trim_plain_ends(w);
                assert(lower(w) =~= lower("delete"@));
            },
        },
    }
}

/// The modifier list of a Hyprlang line reads back as the modifiers.
proof fn lemma_hl_mods_read_back(m: ShortcutModifiers)
    ensures
        forall|i: int| 0 <= i < join(hypr_modifier_names(m), " "@).len() ==> field_char(
            #[trigger] join(hypr_modifier_names(m), " "@)[i],
        ) || join(hypr_modifier_names(m), " "@)[i] == ' ',
        join(hypr_modifier_names(m), " "@).len() == 0 || (!is_ws(join(hypr_modifier_names(m), " "@)[0])
            && !is_ws(join(hypr_modifier_names(m), " "@).last())),
        join(hypr_modifier_names(m), " "@).len() == 0 <==> hypr_modifier_names(m).len() == 0,
        hl_modifiers(join(hypr_modifier_names(m), " "@)) == m,
{
    lemma_hypr_words();
    let names = hypr_modifier_names(m);
    let mods = join(names, " "@);
    assert forall|i: int| 0 <= i < names.len() implies (#[trigger] names[i] == "SUPER"@ || names[i]
        == "CTRL"@ || names[i] == "ALT"@ || names[i] == "SHIFT"@) by {
    }
    assert forall|i: int, j: int| 0 <= i < names.len() && 0 <= j < names[i].len() implies (field_char(
        #[trigger] names[i][j],
    ) || names[i][j] == ' ') && names[i][j] != ' ' && names[i][j] != '+' && names[i][j] != '|' by {
    }
    assert forall|j: int| 0 <= j < " "@.len() implies field_char(#[trigger] " "@[j]) || " "@[j] == ' ' by {
    }
    crate::text::lemma_join_chars(names, " "@, |c: char| field_char(c) || c == ' ');
    let sep = one_of(seq![' ', '+', '|']);
    if names.len() == 0 {
        assert(mods.len() == 0);
        assert(split_when(mods, sep) == seq![Seq::<char>::empty()]);
        let p = seq![Seq::<char>::empty()];
        assert(p.drop_last() =~= Seq::<Seq<char>>::empty());
        assert(trim(Seq::<char>::empty()) == Seq::<char>::empty());
        assert(lower(Seq::<char>::empty()).len() == 0);
        assert(p.last() == Seq::<char>::empty());
        let none = ShortcutModifiers { super_key: false, control: false, alt: false, shift: false };
        assert(hl_fold_modifiers(Seq::<Seq<char>>::empty()) == none);
        assert(lower("super"@).len() == 5);
        assert(lower("mod4"@).len() == 4);
        assert(lower("win"@).len() == 3);
        assert(lower("ctrl"@).len() == 4);
        assert(lower("control"@).len() == 7);
        assert(lower("alt"@).len() == 3);
        assert(lower("mod1"@).len() == 4);
        assert(lower("shift"@).len() == 5);
        assert(hl_apply_modifier(none, Seq::<char>::empty()) == none);
        assert(hl_fold_modifiers(p) == hl_apply_modifier(
            ShortcutModifiers { super_key: false, control: false, alt: false, shift: false },
            Seq::<char>::empty(),
        ));
    } else {
        crate::text::lemma_join_first(names, " "@);
        assert(names[0][0] != ' ');
        let last = names.last();
        assert(last == names[names.len() - 1]);
        assert(mods.last() == last.last()) by {
            if names.len() > 1 {
                assert(mods == join(names.drop_last(), " "@) + " "@ + last);
            }
        }
        assert(seq![' ', '+', '|'][0] == ' ');
        assert(sep(' '));
        assert forall|i: int, j: int| 0 <= i < names.len() && 0 <= j < names[i].len() implies !sep(
            #[trigger] names[i][j],
        ) by {
            assert(names[i][j] != ' ' && names[i][j] != '+' && names[i][j] != '|');
        }
        assert(" "@ == seq![' ']);
        crate::text::lemma_split_join(names, ' ', sep);
        lemma_hl_fold_of_modifier_names(m);
    }
}

/// A property of every character of two texts holds of their concatenation.
proof fn lemma_concat_chars(a: Seq<char>, b: Seq<char>, p: spec_fn(char) -> bool)
    requires
        forall|i: int| 0 <= i < a.len() ==> p(#[trigger] a[i]),
        forall|i: int| 0 <= i < b.len() ==> p(#[trigger] b[i]),
    ensures
        forall|i: int| 0 <= i < (a + b).len() ==> p(#[trigger] (a + b)[i]),
{
    assert forall|i: int| 0 <= i < (a + b).len() implies p(#[trigger] (a + b)[i]) by {
        if i < a.len() {
            assert((a + b)[i] == a[i]);
        } else {
            assert((a + b)[i] == b[i - a.len()]);
        }
    }
}

/// The fields of a written Hyprlang line after `bind =`.
pub open spec fn hl_fields(s: Shortcut) -> Seq<Seq<char>> {
    seq![
        seq![' '] + join(hypr_modifier_names(s.modifiers), " "@),
        seq![' '] + hypr_key_name(s.key, "space"@),
        seq![' '] + "exec"@,
        seq![' '] + "pookie-paste"@ + " "@ + "--toggle"@,
    ]
}

/// A written Hyprlang line is `bind =` and its fields joined by commas; no
/// field holds a comma, and the line holds no newline, `#` or lower-case `h`.
#[verifier::rlimit(40)]
proof fn lemma_hl_text_shape(s: Shortcut)
    requires
        hyprlang_key_writable(s.key),
    ensures
        hypr_hyprlang_text(s) == "bind ="@ + join(hl_fields(s), seq![',']),
        forall|i: int, j: int| 0 <= i < hl_fields(s).len() && 0 <= j < hl_fields(s)[i].len()
            ==> !one_of(seq![','])(#[trigger] hl_fields(s)[i][j]),
        forall|i: int| 0 <= i < hypr_hyprlang_text(s).len() ==> {
            let c = #[trigger] hypr_hyprlang_text(s)[i];
            c != '\n' && c != '#' && c != 'h'
        },
{
    reveal_strlit("bind = ");
    reveal_strlit("bind = , ");
    reveal_strlit("bind =");
    reveal_strlit(", ");
    reveal_strlit(", exec, pookie-paste --toggle");
    reveal_strlit("exec");
    reveal_strlit("pookie-paste");
    reveal_strlit("--toggle");
    reveal_strlit(" ");
    let mods = join(hypr_modifier_names(s.modifiers), " "@);
    let key = hypr_key_name(s.key, "space"@);
    lemma_hl_mods_read_back(s.modifiers);
    lemma_hl_key_reads_back(s.key);
    let f = hl_fields(s);
    reveal_with_fuel(join, 5);
    let text = "bind ="@ + join(f, seq![',']);
    assert(hypr_hyprlang_text(s) =~= text);
    let e = seq![' '] + "exec"@;
    let t = seq![' '] + "pookie-paste"@ + " "@ + "--toggle"@;
    let nc = |c: char| c != ',';
    assert forall|j: int| 0 <= j < e.len() implies nc(#[trigger] e[j]) by {
    }
    assert forall|j: int| 0 <= j < t.len() implies nc(#[trigger] t[j]) by {
    }
    assert forall|j: int| 0 <= j < seq![' '].len() implies nc(#[trigger] seq![' '][j]) by {
    }
    assert forall|j: int| 0 <= j < mods.len() implies nc(#[trigger] mods[j]) by {
        assert(field_char(mods[j]) || mods[j] == ' ');
    }
    assert forall|j: int| 0 <= j < key.len() implies nc(#[trigger] key[j]) by {
        assert(key[j] != ',');
    }
    lemma_concat_chars(seq![' '], mods, nc);
    lemma_concat_chars(seq![' '], key, nc);
    assert forall|i: int, j: int| 0 <= i < f.len() && 0 <= j < f[i].len() implies !one_of(
        seq![','],
    )(#[trigger] f[i][j]) by {
        assert(nc(f[i][j]));
        assert(seq![','][0] == ',');
    }
    let pl = |c: char| c != '\n' && c != '#' && c != 'h';
    let head = "bind ="@;
    assert forall|j: int| 0 <= j < head.len() implies pl(#[trigger] head[j]) by {
    }
    assert forall|j: int| 0 <= j < mods.len() implies pl(#[trigger] mods[j]) by {
        assert(field_char(mods[j]) || mods[j] == ' ');
    }
    assert forall|j: int| 0 <= j < key.len() implies pl(#[trigger] key[j]) by {
    }
    let cs = seq![',', ' '];
    assert forall|j: int| 0 <= j < cs.len() implies pl(#[trigger] cs[j]) by {
    }
    let tail = ", exec, pookie-paste --toggle"@;
    assert forall|j: int| 0 <= j < tail.len() implies pl(#[trigger] tail[j]) by {
    }
    let text2 = head + seq![' '] + mods + cs + key + tail;
    assert(text2 =~= text);
    assert forall|j: int| 0 <= j < seq![' '].len() implies pl(#[trigger] seq![' '][j]) by {
    }
    lemma_concat_chars(head, seq![' '], pl);
    lemma_concat_chars(head + seq![' '], mods, pl);
    lemma_concat_chars(head + seq![' '] + mods, cs, pl);
    lemma_concat_chars(head + seq![' '] + mods + cs, key, pl);
    lemma_concat_chars(head + seq![' '] + mods + cs + key, tail, pl);
}

/// The written line reads back as a single line that binds nothing in Lua.
proof fn lemma_hl_text_one_line(s: Shortcut)
    requires
        hyprlang_key_writable(s.key),
    ensures
        lines(hypr_hyprlang_text(s)) == seq![hypr_hyprlang_text(s)],
        first_lua_line(lines(hypr_hyprlang_text(s)), s) is None,
{
    lemma_hl_text_shape(s);
    let text = hypr_hyprlang_text(s);
    let nl = one_of(seq!['\n']);
    assert forall|i: int| 0 <= i < text.len() implies !nl(#[trigger] text[i]) by {
        assert(text[i] != '\n');
        assert(seq!['\n'][0] == '\n');
    }
    crate::text::lemma_split_without_separator(text, nl);
    let p = split_when(text, nl);
    assert(p.take(p.len() - 1) =~= Seq::<Seq<char>>::empty());
    assert(lines(text) =~= seq![text]);
    assert(crate::text::lacks(text, 'h'));
    lemma_no_lua_binding(text, s);
    assert(seq![text].drop_first() =~= Seq::<Seq<char>>::empty());
    assert(seq![text][0] == text);
    assert(first_lua_line(Seq::<Seq<char>>::empty(), s) is None);
}

/// The written line, without comment and trimmed, is itself; it splits at its
/// first `=` into `bind ` and the comma-joined fields.
proof fn lemma_hl_text_split(s: Shortcut)
    requires
        hyprlang_key_writable(s.key),
    ensures
        hl_line(hypr_hyprlang_text(s)) == hypr_hyprlang_text(s),
        split_once_eq(hl_line(hypr_hyprlang_text(s))) == Some(
            ("bind "@, join(hl_fields(s), seq![','])),
        ),
{
    reveal_strlit("bind =");
    reveal_strlit("bind ");
    lemma_hl_text_shape(s);
    let text = hypr_hyprlang_text(s);
    let rest = join(hl_fields(s), seq![',']);
    let hs = one_of(seq!['#']);
    assert forall|i: int| 0 <= i < text.len() implies !hs(#[trigger] text[i]) by {
        assert(text[i] != '#');
        assert(seq!['#'][0] == '#');
    }
    crate::text::lemma_split_without_separator(text, hs);
    assert(before(text, '#') == text);
    assert(text[0] == 'b');
    assert(text.last() == 'e') by {
        let f = hl_fields(s);
        reveal_strlit("pookie-paste");
        reveal_strlit("--toggle");
        reveal_strlit(" ");
        reveal_with_fuel(join, 5);
        assert(f[3].last() == 'e');
    }
    crate::text::lemma_trim_plain_ends(text);
    assert(crate::text::occurs_at(text, seq!['='], 5)) by {
        assert(text.subrange(5, 6) =~= seq!['=']);
    }
    assert forall|j: int| 0 <= j < 5 implies !crate::text::occurs_at(text, seq!['='], j) by {
        assert(text.subrange(j, j + 1)[0] == text[j]);
    }
    crate::text::lemma_find_from_first(text, seq!['='], 0, 5);
    assert(text.take(5) =~= "bind "@);
    assert(text.skip(6) =~= rest);
}

/// `bind ` trims to `bind`.
proof fn lemma_trim_bind()
    ensures
        trim("bind "@) == "bind"@,
{
    reveal_strlit("bind ");
    reveal_strlit("bind");
    let v = "bind "@;
    assert(crate::text::trim_start(v) == v);
    assert(v.drop_last() =~= seq!['b', 'i', 'n', 'd']);
    assert(crate::text::trim_end(seq!['b', 'i', 'n', 'd']) == seq!['b', 'i', 'n', 'd']);
    assert(seq!['b', 'i', 'n', 'd'] =~= "bind"@);
}

/// The written line defines no variable.
proof fn lemma_hl_text_no_definition(s: Shortcut)
    requires
        hyprlang_key_writable(s.key),
    ensures
        hl_definitions(lines(hypr_hyprlang_text(s))) == Seq::<(Seq<char>, Seq<char>)>::empty(),
{
    reveal_strlit("bind");
    reveal_strlit("$");
    lemma_hl_text_one_line(s);
    lemma_hl_text_split(s);
    lemma_trim_bind();
    let text = hypr_hyprlang_text(s);
    assert("bind"@.take(1)[0] == 'b');
    assert("$"@[0] == '$');
    assert(!starts_with("bind"@, "$"@));
    assert(hl_definition(text) is None);
    assert(seq![text].drop_last() =~= Seq::<Seq<char>>::empty());
    assert(seq![text].last() == text);
    assert(hl_definitions(Seq::<Seq<char>>::empty()) == Seq::<(Seq<char>, Seq<char>)>::empty());
    assert(hl_definitions(seq![text]) == Seq::<(Seq<char>, Seq<char>)>::empty());
}

/// A Hyprlang `bind` line written for a shortcut is recognised, from the
/// configuration text alone, as Pookie Paste's own binding of that shortcut.
/// The key must be one such a line can carry (no `,`, `#` or whitespace).
pub proof fn lemma_hyprlang_directive_recognised(s: Shortcut)
    requires
        hyprlang_key_writable(s.key),
    ensures
        config_text_diagnosis(hypr_hyprlang_text(s), s) == HyprDiagnosisView::VerifiedPookie,
{
    reveal_strlit("bind ");
    reveal_strlit("bind");
    reveal_strlit("bindm");
    reveal_strlit("exec");
    reveal_strlit(",");
    reveal_strlit("pookie-paste");
    reveal_strlit("--toggle");
    reveal_strlit(" ");
    lemma_hl_text_shape(s);
    lemma_hl_text_one_line(s);
    lemma_hl_text_split(s);
    lemma_hl_text_no_definition(s);
    lemma_hl_mods_read_back(s.modifiers);
    lemma_hl_key_reads_back(s.key);
    let text = hypr_hyprlang_text(s);
    let f = hl_fields(s);
    let mods = join(hypr_modifier_names(s.modifiers), " "@);
    let key = hypr_key_name(s.key, "space"@);
    assert(seq![','][0] == ',');
    crate::text::lemma_split_join(f, ',', one_of(seq![',']));
    let parts = split_when(join(f, seq![',']), one_of(seq![',']));
    assert(parts == f);
    let directive = trim("bind "@);
    lemma_trim_bind();
    assert(directive.take(4) =~= "bind"@);
    assert(starts_with(directive, "bind"@));
    assert(!starts_with(directive, "bindm"@));
    crate::text::lemma_trim_after_space(mods);
    assert(key[0] != ' ' && !is_ws(key[0]) && !is_ws(key.last()));
    crate::text::lemma_trim_after_space(key);
    crate::text::lemma_trim_after_space("exec"@);
    let cmd = "pookie-paste"@ + " "@ + "--toggle"@;
    assert(f[3] =~= seq![' '] + cmd);
    crate::text::lemma_trim_after_space(cmd);
    assert(parts.skip(3) =~= seq![f[3]]);
    assert(join(parts.skip(3), ","@) == f[3]);
    crate::sway_shortcut_backend::lemma_bare_toggle_command_is_pookie();
    assert(hl_line_diagnosis(text, Seq::empty(), s) == Some(HyprDiagnosisView::VerifiedPookie));
    assert(first_hl_line(seq![text], Seq::empty(), s) == HyprDiagnosisView::VerifiedPookie);
}

// ---------------------------------------------------------------------------
// Reading a written Lua binding back

/// Inside a quoted span without its quote character the quote stays open.
proof fn lemma_lua_state_quoted(s: Seq<char>, a: int, b: int, q: char)
    requires
        0 <= a <= b <= s.len(),
        lua_state(s, a).0 == Some(q),
        forall|k: int| a <= k < b ==> s[k] != q,
    ensures
        forall|j: int| a <= j <= b ==> (#[trigger] lua_state(s, j)).0 == Some(q),
    decreases b - a,
{
    if a < b {
        assert(lua_state(s, a + 1).0 == Some(q));
        lemma_lua_state_quoted(s, a + 1, b, q);
    }
}

/// Outside quotes, a span without quote characters opens none.
proof fn lemma_lua_state_plain(s: Seq<char>, a: int, b: int)
    requires
        0 <= a <= b <= s.len(),
        lua_state(s, a).0 is None,
        forall|k: int| a <= k < b ==> s[k] != '"' && s[k] != '\'',
    ensures
        forall|j: int| a <= j <= b ==> (#[trigger] lua_state(s, j)).0 is None,
    decreases b - a,
{
    if a < b {
        assert(lua_state(s, a + 1).0 is None);
        lemma_lua_state_plain(s, a + 1, b);
    }
}

/// Every character of the word is an ASCII capital.
pub open spec fn all_caps(w: Seq<char>) -> bool {
    forall|j: int| 0 <= j < w.len() ==> crate::text::is_ascii_upper(#[trigger] w[j])
}

/// A capitalised word found in `x + y`, where `x` ends in a character that is
/// no capital, lies in `x` or in `y`.
proof fn lemma_caps_split_after(x: Seq<char>, y: Seq<char>, w: Seq<char>, i: int)
    requires
        crate::text::occurs_at(x + y, w, i),
        w.len() > 0,
        all_caps(w),
        x.len() > 0,
        !crate::text::is_ascii_upper(x.last()),
    ensures
        crate::text::occurs_at(x, w, i) || crate::text::occurs_at(y, w, i - x.len()),
{
    let h = x + y;
    if i < x.len() && i + w.len() > x.len() {
        let j = x.len() - 1 - i;
        assert(h.subrange(i, i + w.len())[j] == h[x.len() - 1]);
        assert(h[x.len() - 1] == x.last());
        assert(crate::text::is_ascii_upper(w[j]));
    } else if i + w.len() <= x.len() {
        assert(x.subrange(i, i + w.len()) =~= h.subrange(i, i + w.len()));
    } else {
        assert(y.subrange(i - x.len(), i - x.len() + w.len()) =~= h.subrange(i, i + w.len()));
    }
}

/// A capitalised word found in `x + y`, where `y` starts with a character
/// that is no capital, lies in `x` or in `y`.
proof fn lemma_caps_split_before(x: Seq<char>, y: Seq<char>, w: Seq<char>, i: int)
    requires
        crate::text::occurs_at(x + y, w, i),
        w.len() > 0,
        all_caps(w),
        y.len() > 0,
        !crate::text::is_ascii_upper(y[0]),
    ensures
        crate::text::occurs_at(x, w, i) || crate::text::occurs_at(y, w, i - x.len()),
{
    let h = x + y;
    if i < x.len() && i + w.len() > x.len() {
        let j = x.len() - i;
        assert(h.subrange(i, i + w.len())[j] == h[x.len() as int]);
        assert(h[x.len() as int] == y[0]);
        assert(crate::text::is_ascii_upper(w[j]));
    } else if i + w.len() <= x.len() {
        assert(x.subrange(i, i + w.len()) =~= h.subrange(i, i + w.len()));
    } else {
        assert(y.subrange(i - x.len(), i - x.len() + w.len()) =~= h.subrange(i, i + w.len()));
    }
}

/// Text without capitals contains no capitalised word.
proof fn lemma_no_caps_no_word(x: Seq<char>, w: Seq<char>, i: int)
    requires
        w.len() > 0,
        all_caps(w),
        forall|j: int| 0 <= j < x.len() ==> !crate::text::is_ascii_upper(#[trigger] x[j]),
    ensures
        !crate::text::occurs_at(x, w, i),
{
    if crate::text::occurs_at(x, w, i) {
        assert(x.subrange(i, i + w.len())[0] == x[i]);
        assert(crate::text::is_ascii_upper(w[0]));
    }
}

/// A word occurring in a part occurs in the whole.
proof fn lemma_occurs_shift(x: Seq<char>, y: Seq<char>, z: Seq<char>, w: Seq<char>, i: int)
    requires
        crate::text::occurs_at(y, w, i),
    ensures
        crate::text::occurs_at(x + y + z, w, i + x.len()),
{
    let h = x + y + z;
    assert(h.subrange(i + x.len(), i + x.len() + w.len()) =~= y.subrange(i, i + w.len()));
}

/// No occurrence when every candidate position differs from the word in one
/// of its first two characters.
proof fn lemma_not_contains_by_prefix(hay: Seq<char>, w: Seq<char>)
    requires
        w.len() >= 2,
        forall|i: int| 0 <= i && i + w.len() <= hay.len() ==> #[trigger] hay[i] != w[0] || hay[i + 1] != w[1],
    ensures
        !crate::text::contains(hay, w),
{
    assert forall|i: int| !crate::text::occurs_at(hay, w, i) by {
        if crate::text::occurs_at(hay, w, i) {
            assert(hay.subrange(i, i + w.len())[0] == hay[i]);
            assert(hay.subrange(i, i + w.len())[1] == hay[i + 1]);
        }
    }
}

/// A capitalised word occurs in pieces joined by ` + ` exactly when it occurs
/// in one of the pieces.
proof fn lemma_join_caps(pieces: Seq<Seq<char>>, w: Seq<char>)
    requires
        pieces.len() >= 1,
        w.len() > 0,
        all_caps(w),
    ensures
        crate::text::contains(join(pieces, " + "@), w) <==> exists|k: int|
            0 <= k < pieces.len() && crate::text::contains(#[trigger] pieces[k], w),
    decreases pieces.len(),
{
    reveal_strlit(" + ");
    let sep = " + "@;
    assert(sep == seq![' ', '+', ' ']);
    assert forall|j: int| 0 <= j < sep.len() implies !crate::text::is_ascii_upper(#[trigger] sep[j]) by {
    }
    if pieces.len() == 1 {
        if crate::text::contains(join(pieces, sep), w) {
            assert(crate::text::contains(pieces[0], w));
        }
    } else {
        let init = pieces.drop_last();
        let last = pieces.last();
        lemma_join_caps(init, w);
        let a = join(init, sep);
        assert(join(pieces, sep) == a + sep + last);
        if crate::text::contains(join(pieces, sep), w) {
            let i = choose|i: int| crate::text::occurs_at(a + sep + last, w, i);
            assert((a + sep).last() == ' ');
            lemma_caps_split_after(a + sep, last, w, i);
            if crate::text::occurs_at(a + sep, w, i) {
                lemma_caps_split_before(a, sep, w, i);
                lemma_no_caps_no_word(sep, w, i - a.len());
                assert(crate::text::contains(a, w));
                let k = choose|k: int| 0 <= k < init.len() && crate::text::contains(#[trigger] init[k], w);
                assert(pieces[k] == init[k]);
            } else {
                assert(crate::text::contains(pieces[pieces.len() - 1], w));
            }
        }
        if exists|k: int| 0 <= k < pieces.len() && crate::text::contains(#[trigger] pieces[k], w) {
            let k = choose|k: int| 0 <= k < pieces.len() && crate::text::contains(#[trigger] pieces[k], w);
            let i = choose|i: int| crate::text::occurs_at(pieces[k], w, i);
            if k == pieces.len() - 1 {
                lemma_occurs_shift(a + sep, last, Seq::<char>::empty(), w, i);
                assert(a + sep + last + Seq::<char>::empty() =~= a + sep + last);
            } else {
                assert(init[k] == pieces[k]);
                assert(crate::text::contains(a, w));
                let i2 = choose|i2: int| crate::text::occurs_at(a, w, i2);
                lemma_occurs_shift(Seq::<char>::empty(), a, sep + last, w, i2);
                assert(Seq::<char>::empty() + a + (sep + last) =~= a + sep + last);
            }
        }
    }
}

/// A key that a written Lua binding names so that it reads back: a
/// character other than a double quote, a backslash or a newline, Space, or a
/// function key (the Lua reading knows no other named key).
pub open spec fn lua_key_writable(k: ShortcutKey) -> bool {
    match k {
        ShortcutKey::Character(c) => c != '"' && c != '\\' && c != '\n',
        ShortcutKey::Named(NamedKey::Space) => true,
        ShortcutKey::Named(NamedKey::F(_)) => true,
        _ => false,
    }
}

/// The modifier words the Lua reading looks for.
pub open spec fn lua_modifier_word(w: Seq<char>) -> bool {
    w == "SUPER"@ || w == "CTRL"@ || w == "CONTROL"@ || w == "ALT"@ || w == "SHIFT"@
}

proof fn lemma_lua_word_caps(w: Seq<char>)
    requires
        lua_modifier_word(w),
    ensures
        w.len() >= 3,
        all_caps(w),
        w[0] == 'S' || w[0] == 'C' || w[0] == 'A',
{
    lemma_hypr_words();
    reveal_strlit("CONTROL");
}

/// A modifier name contains a modifier word only when it is that word.
proof fn lemma_name_word(n: Seq<char>, w: Seq<char>)
    requires
        n == "SUPER"@ || n == "CTRL"@ || n == "ALT"@ || n == "SHIFT"@,
        lua_modifier_word(w),
    ensures
        crate::text::contains(n, w) == (n == w),
{
    lemma_hypr_words();
    reveal_strlit("CONTROL");
    if n == w {
        assert(crate::text::occurs_at(n, w, 0)) by {
            assert(n.subrange(0, n.len() as int) =~= n);
        }
    } else {
        lemma_not_contains_by_prefix(n, w);
    }
}

/// The key's name contains no modifier word.
proof fn lemma_key_word(k: ShortcutKey, w: Seq<char>)
    requires
        lua_key_writable(k),
        lua_modifier_word(w),
    ensures
        !crate::text::contains(hypr_key_name(k, "Space"@), w),
{
    lemma_hypr_words();
    lemma_lua_word_caps(w);
    reveal_strlit("Space");
    let name = hypr_key_name(k, "Space"@);
    match k {
        ShortcutKey::Named(NamedKey::F(x)) => {
            let d = decimal(x as nat);
            crate::text::lemma_decimal_digits(x as nat);
            assert(name == "F"@ + d);
            assert forall|i: int| 0 <= i && i + w.len() <= name.len() implies #[trigger] name[i] != w[0]
                || name[i + 1] != w[1] by {
                if i > 0 {
                    assert(name[i] == d[i - 1]);
                }
            }
            lemma_not_contains_by_prefix(name, w);
        },
        ShortcutKey::Named(NamedKey::Space) => {
            lemma_not_contains_by_prefix(name, w);
        },
        _ => {
            assert(name.len() == 1);
            lemma_not_contains_by_prefix(name, w);
        },
    }
}

/// The key combination of a written Lua binding.
pub open spec fn lua_combo(s: Shortcut) -> Seq<char> {
    join(hypr_modifier_names(s.modifiers).push(hypr_key_name(s.key, "Space"@)), " + "@)
}

/// The combination contains a modifier word exactly when it names that
/// modifier.
proof fn lemma_lua_combo_word(s: Shortcut, w: Seq<char>)
    requires
        lua_key_writable(s.key),
        lua_modifier_word(w),
    ensures
        crate::text::contains(lua_combo(s), w) == hypr_modifier_names(s.modifiers).contains(w),
{
    lemma_lua_word_caps(w);
    let names = hypr_modifier_names(s.modifiers);
    let key = hypr_key_name(s.key, "Space"@);
    let pieces = names.push(key);
    lemma_join_caps(pieces, w);
    assert forall|i: int| 0 <= i < names.len() implies (#[trigger] names[i] == "SUPER"@ || names[i]
        == "CTRL"@ || names[i] == "ALT"@ || names[i] == "SHIFT"@) by {
    }
    if crate::text::contains(lua_combo(s), w) {
        let k = choose|k: int| 0 <= k < pieces.len() && crate::text::contains(#[trigger] pieces[k], w);
        if k == names.len() {
            lemma_key_word(s.key, w);
        } else {
            assert(pieces[k] == names[k]);
            lemma_name_word(names[k], w);
            assert(names[k] == w);
        }
    }
    if names.contains(w) {
        let k = choose|k: int| 0 <= k < names.len() && names[k] == w;
        assert(pieces[k] == names[k]);
        lemma_name_word(names[k], w);
        assert(crate::text::contains(pieces[k], w));
    }
}

/// Which modifier words the names hold: the held modifiers' (never `CONTROL`).
proof fn lemma_modifier_names_hold(m: ShortcutModifiers)
    ensures
        hypr_modifier_names(m).contains("SUPER"@) == m.super_key,
        hypr_modifier_names(m).contains("CTRL"@) == m.control,
        !hypr_modifier_names(m).contains("CONTROL"@),
        hypr_modifier_names(m).contains("ALT"@) == m.alt,
        hypr_modifier_names(m).contains("SHIFT"@) == m.shift,
{
    lemma_hypr_words();
    reveal_strlit("CONTROL");
    let names = hypr_modifier_names(m);
    assert forall|i: int| 0 <= i < names.len() implies (#[trigger] names[i] == "SUPER"@ || names[i]
        == "CTRL"@ || names[i] == "ALT"@ || names[i] == "SHIFT"@) by {
    }
    assert("SUPER"@ != "CTRL"@ && "SUPER"@ != "ALT"@ && "SUPER"@[1] != "SHIFT"@[1]);
    assert("CTRL"@ != "ALT"@ && "CTRL"@ != "SHIFT"@ && "ALT"@ != "SHIFT"@);
    assert("CONTROL"@.len() == 7);
    let a: Seq<Seq<char>> = if m.super_key { seq!["SUPER"@] } else { Seq::empty() };
    let b = if m.control { a.push("CTRL"@) } else { a };
    let c = if m.alt { b.push("ALT"@) } else { b };
    assert(names == if m.shift { c.push("SHIFT"@) } else { c });
    if m.super_key {
        assert(names[0] == "SUPER"@);
    }
    if m.control {
        assert(names[b.len() - 1] == "CTRL"@);
    }
    if m.alt {
        assert(names[c.len() - 1] == "ALT"@);
    }
    if m.shift {
        assert(names[names.len() - 1] == "SHIFT"@);
    }
}

/// The combination's characters: no quote, backslash, newline or lower-case
/// `x`, and a `-` only as its last character.
proof fn lemma_lua_combo_chars(s: Shortcut)
    requires
        lua_key_writable(s.key),
    ensures
        lua_combo(s).len() > 0,
        forall|j: int| 0 <= j < lua_combo(s).len() ==> {
            let c = #[trigger] lua_combo(s)[j];
            c != '"' && c != '\\' && c != '\n' && c != 'x'
        },
        forall|j: int| 0 <= j < lua_combo(s).len() && #[trigger] lua_combo(s)[j] == '-' ==> j
            == lua_combo(s).len() - 1,
{
    lemma_hypr_words();
    reveal_strlit(" + ");
    reveal_strlit("Space");
    let names = hypr_modifier_names(s.modifiers);
    let key = hypr_key_name(s.key, "Space"@);
    let sep = " + "@;
    let x = lua_combo(s);
    let ok = |c: char| c != '"' && c != '\\' && c != '\n' && c != 'x' && c != '-';
    assert forall|i: int, j: int| 0 <= i < names.len() && 0 <= j < names[i].len() implies ok(
        #[trigger] names[i][j],
    ) by {
        assert(names[i] == "SUPER"@ || names[i] == "CTRL"@ || names[i] == "ALT"@ || names[i]
            == "SHIFT"@);
    }
    assert forall|j: int| 0 <= j < sep.len() implies ok(#[trigger] sep[j]) by {
    }
    // Key characters: `-` only for the character key `-`.
    let keyok = |c: char| c != '"' && c != '\\' && c != '\n' && c != 'x';
    assert(key.len() > 0);
    assert forall|j: int| 0 <= j < key.len() implies keyok(#[trigger] key[j]) && (key[j] == '-'
        ==> key.len() == 1) by {
        match s.key {
            ShortcutKey::Named(NamedKey::F(n)) => {
                crate::text::lemma_decimal_digits(n as nat);
                if j > 0 {
                    assert(key[j] == decimal(n as nat)[j - 1]);
                }
            },
            _ => {
            },
        }
    }
    if names.len() == 0 {
        assert(names.push(key) =~= seq![key]);
        assert(x == key);
    } else {
        crate::text::lemma_join_chars(names, sep, ok);
        let p = join(names, sep) + sep;
        assert(names.push(key).drop_last() =~= names);
        assert(x == join(names, sep) + sep + key);
        assert forall|j: int| 0 <= j < p.len() implies ok(#[trigger] p[j]) by {
            if j < join(names, sep).len() {
                assert(p[j] == join(names, sep)[j]);
            } else {
                assert(p[j] == sep[j - join(names, sep).len()]);
            }
        }
        assert forall|j: int| 0 <= j < x.len() implies keyok(#[trigger] x[j]) && (x[j] == '-' ==> j
            == x.len() - 1) by {
            if j < p.len() {
                assert(x[j] == p[j]);
            } else {
                assert(x[j] == key[j - p.len()]);
            }
        }
    }
}

/// A written Lua binding has no Lua comment: its only `--` is inside the
/// quoted command.
proof fn lemma_lua_text_no_comment(s: Shortcut)
    requires
        lua_key_writable(s.key),
    ensures
        forall|i: int| !lua_comment_at(hypr_lua_text(s), i),
        hypr_lua_text(s) == "hl.bind(\""@ + lua_combo(s)
            + "\", hl.dsp.exec_cmd(\"pookie-paste --toggle\"))"@,
{
    reveal_strlit("hl.bind(\"");
    reveal_strlit("\", hl.dsp.exec_cmd(\"pookie-paste --toggle\"))");
    lemma_lua_combo_chars(s);
    let a = "hl.bind(\""@;
    let x = lua_combo(s);
    let b = "\", hl.dsp.exec_cmd(\"pookie-paste --toggle\"))"@;
    let t = a + x + b;
    assert(hypr_lua_text(s) == t);
    assert(a.len() == 9);
    assert(b.len() == 44);
    let e: int = 9 + x.len() as int;
    assert forall|j: int| 0 <= j < 9 implies #[trigger] t[j] == a[j] by {
    }
    assert forall|j: int| 9 <= j < e implies #[trigger] t[j] == x[j - 9] by {
    }
    assert forall|j: int| e <= j < e + 44 implies #[trigger] t[j] == b[j - e] by {
    }
    // `hl.bind(` opens nothing; its quote opens the combination.
    lemma_lua_state_plain(t, 0, 8);
    assert(t[8] == '"');
    assert(lua_state(t, 8).0 is None);
    assert(lua_state(t, 9).0 == Some('"'));
    lemma_lua_state_quoted(t, 9, e, '"');
    // The quote after the combination closes it.
    assert(t[e - 1] == x.last());
    assert(lua_state(t, e).1 == t[e - 1]);
    assert(t[e] == '"');
    assert(lua_state(t, e + 1).0 is None);
    assert forall|k: int| e + 1 <= k < e + 19 implies t[k] != '"' && t[k] != '\'' by {
        assert(t[k] == b[k - e]);
    }
    lemma_lua_state_plain(t, e + 1, e + 19);
    assert(t[e + 19] == '"');
    assert(lua_state(t, e + 19).0 is None);
    assert(lua_state(t, e + 20).0 == Some('"'));
    assert forall|k: int| e + 20 <= k < e + 41 implies t[k] != '"' by {
        assert(t[k] == b[k - e]);
    }
    lemma_lua_state_quoted(t, e + 20, e + 41, '"');
    assert forall|i: int| !lua_comment_at(t, i) by {
        if lua_comment_at(t, i) {
            if i < 9 {
                assert(t[i] == a[i]);
            } else if i <= e {
                assert(lua_state(t, i).0 == Some('"'));
            } else if i <= e + 19 {
                assert(lua_state(t, i).0 is None);
                assert(t[i] == b[i - e]);
            } else if i <= e + 41 {
                assert(lua_state(t, i).0 == Some('"'));
            } else {
                assert(t[i] == b[i - e]);
            }
        }
    }
}

/// A capitalised word occurs in text framed by capital-free parts exactly
/// when it occurs in the middle.
proof fn lemma_caps_in_middle(a: Seq<char>, x: Seq<char>, b: Seq<char>, w: Seq<char>)
    requires
        w.len() > 0,
        all_caps(w),
        a.len() > 0,
        b.len() > 0,
        forall|j: int| 0 <= j < a.len() ==> !crate::text::is_ascii_upper(#[trigger] a[j]),
        forall|j: int| 0 <= j < b.len() ==> !crate::text::is_ascii_upper(#[trigger] b[j]),
    ensures
        crate::text::contains(a + x + b, w) == crate::text::contains(x, w),
{
    if crate::text::contains(a + x + b, w) {
        let i = choose|i: int| crate::text::occurs_at(a + x + b, w, i);
        lemma_caps_split_before(a + x, b, w, i);
        lemma_no_caps_no_word(b, w, i - (a + x).len());
        lemma_caps_split_after(a, x, w, i);
        lemma_no_caps_no_word(a, w, i);
    }
    if crate::text::contains(x, w) {
        let i = choose|i: int| crate::text::occurs_at(x, w, i);
        lemma_occurs_shift(a, x, b, w, i);
    }
}

/// What the Lua reading finds in a written binding: the binding call, the
/// modifiers it names, its key, and the command `pookie-paste --toggle`.
proof fn lemma_lua_text_reads(s: Shortcut)
    requires
        lua_key_writable(s.key),
    ensures
        crate::text::contains(hypr_lua_text(s), "hl.bind"@),
        crate::text::contains(hypr_lua_text(s), "SUPER"@) == s.modifiers.super_key,
        (crate::text::contains(hypr_lua_text(s), "CTRL"@) || crate::text::contains(
            hypr_lua_text(s),
            "CONTROL"@,
        )) == s.modifiers.control,
        crate::text::contains(hypr_lua_text(s), "ALT"@) == s.modifiers.alt,
        crate::text::contains(hypr_lua_text(s), "SHIFT"@) == s.modifiers.shift,
{
    reveal_strlit("hl.bind(\"");
    reveal_strlit("\", hl.dsp.exec_cmd(\"pookie-paste --toggle\"))");
    reveal_strlit("hl.bind");
    lemma_lua_text_no_comment(s);
    let a = "hl.bind(\""@;
    let x = lua_combo(s);
    let b = "\", hl.dsp.exec_cmd(\"pookie-paste --toggle\"))"@;
    let t = a + x + b;
    assert(crate::text::occurs_at(t, "hl.bind"@, 0)) by {
        assert(t.subrange(0, 7) =~= "hl.bind"@);
    }
    assert forall|j: int| 0 <= j < a.len() implies !crate::text::is_ascii_upper(#[trigger] a[j]) by {
    }
    assert forall|j: int| 0 <= j < b.len() implies !crate::text::is_ascii_upper(#[trigger] b[j]) by {
    }
    lemma_hypr_words();
    reveal_strlit("CONTROL");
    lemma_modifier_names_hold(s.modifiers);
    lemma_lua_word_caps("SUPER"@);
    lemma_caps_in_middle(a, x, b, "SUPER"@);
    lemma_lua_combo_word(s, "SUPER"@);
    lemma_lua_word_caps("CTRL"@);
    lemma_caps_in_middle(a, x, b, "CTRL"@);
    lemma_lua_combo_word(s, "CTRL"@);
    lemma_lua_word_caps("CONTROL"@);
    lemma_caps_in_middle(a, x, b, "CONTROL"@);
    lemma_lua_combo_word(s, "CONTROL"@);
    lemma_lua_word_caps("ALT"@);
    lemma_caps_in_middle(a, x, b, "ALT"@);
    lemma_lua_combo_word(s, "ALT"@);
    lemma_lua_word_caps("SHIFT"@);
    lemma_caps_in_middle(a, x, b, "SHIFT"@);
    lemma_lua_combo_word(s, "SHIFT"@);
}

/// The Lua reading finds the key of a written binding.
proof fn lemma_lua_text_key(s: Shortcut)
    requires
        lua_key_writable(s.key),
    ensures
        lua_key_matches(hypr_lua_text(s), s.key),
{
    reveal_strlit("hl.bind(\"");
    reveal_strlit("\", hl.dsp.exec_cmd(\"pookie-paste --toggle\"))");
    reveal_strlit(" + ");
    reveal_strlit("Space");
    lemma_lua_text_no_comment(s);
    let a = "hl.bind(\""@;
    let x = lua_combo(s);
    let b = "\", hl.dsp.exec_cmd(\"pookie-paste --toggle\"))"@;
    let t = a + x + b;
    let names = hypr_modifier_names(s.modifiers);
    let key = hypr_key_name(s.key, "Space"@);
    let sep = " + "@;
    let p: Seq<char> = if names.len() == 0 {
        Seq::empty()
    } else {
        join(names, sep) + sep
    };
    if names.len() == 0 {
        assert(names.push(key) =~= seq![key]);
    } else {
        assert(names.push(key).drop_last() =~= names);
    }
    assert(x =~= p + key);
    let e: int = (a.len() + x.len()) as int;
    assert(t =~= a + p + key + b);
    assert(crate::text::occurs_at(t, key, e - key.len())) by {
        assert(t.subrange(e - key.len(), e) =~= key);
    }
    match s.key {
        ShortcutKey::Character(c) => {
            let u = ascii_upper(c);
            assert(key == seq![u]);
            if names.len() == 0 {
                assert(crate::text::occurs_at(t, seq!['"', u, '"'], 8)) by {
                    assert(t.subrange(8, 11) =~= seq!['"', u, '"']);
                }
            } else {
                assert(p.len() >= 3);
                assert(p[p.len() - 2] == '+' && p[p.len() - 1] == ' ');
                assert(crate::text::occurs_at(t, seq!['+', ' ', u], e - 3)) by {
                    assert(t.subrange(e - 3, e) =~= seq!['+', ' ', u]);
                }
            }
        },
        _ => {
        },
    }
}

/// The Lua reading finds the command of a written binding.
proof fn lemma_lua_text_exec(s: Shortcut)
    requires
        lua_key_writable(s.key),
    ensures
        lua_exec_cmd(hypr_lua_text(s)) == Some("pookie-paste"@ + " "@ + "--toggle"@),
{
    reveal_strlit("hl.bind(\"");
    reveal_strlit("\", hl.dsp.exec_cmd(\"pookie-paste --toggle\"))");
    reveal_strlit("exec_cmd(");
    reveal_strlit("pookie-paste");
    reveal_strlit(" ");
    reveal_strlit("--toggle");
    lemma_lua_text_no_comment(s);
    lemma_lua_combo_chars(s);
    let a = "hl.bind(\""@;
    let x = lua_combo(s);
    let b = "\", hl.dsp.exec_cmd(\"pookie-paste --toggle\"))"@;
    let t = a + x + b;
    let e: int = (a.len() + x.len()) as int;
    let pat = "exec_cmd("@;
    assert(crate::text::occurs_at(t, pat, e + 10)) by {
        assert(t.subrange(e + 10, e + 19) =~= pat);
    }
    assert forall|j: int| 0 <= j < e + 10 implies !crate::text::occurs_at(t, pat, j) by {
        if crate::text::occurs_at(t, pat, j) {
            assert(t.subrange(j, j + 9)[1] == t[j + 1]);
            assert(pat[1] == 'x');
            if j + 1 < 9 {
                assert(t[j + 1] == a[j + 1]);
            } else if j + 1 < e {
                assert(t[j + 1] == x[j + 1 - 9]);
            } else {
                assert(t[j + 1] == b[j + 1 - e]);
            }
        }
    }
    crate::text::lemma_find_from_first(t, pat, 0, e + 10);
    let after = t.skip(e + 19);
    assert(after =~= b.skip(19));
    assert(after[0] == '"');
    let inner = after.skip(1);
    let q = seq![after[0]];
    assert(crate::text::occurs_at(inner, q, 21)) by {
        assert(inner.subrange(21, 22) =~= q);
    }
    assert forall|j: int| 0 <= j < 21 implies !crate::text::occurs_at(inner, q, j) by {
        if crate::text::occurs_at(inner, q, j) {
            assert(inner.subrange(j, j + 1)[0] == inner[j]);
        }
    }
    crate::text::lemma_find_from_first(inner, q, 0, 21);
    assert(inner.take(21) =~= "pookie-paste"@ + " "@ + "--toggle"@);
}

/// A Lua binding written for a shortcut is recognised, from the
/// configuration text alone, as Pookie Paste's own binding of that shortcut.
/// The key must be one the Lua reading knows (a character other than a double
/// quote, backslash or newline; Space; a function key).
pub proof fn lemma_lua_directive_recognised(s: Shortcut)
    requires
        lua_key_writable(s.key),
    ensures
        config_text_diagnosis(hypr_lua_text(s), s) == HyprDiagnosisView::VerifiedPookie,
{
    reveal_strlit("hl.bind(\"");
    reveal_strlit("\", hl.dsp.exec_cmd(\"pookie-paste --toggle\"))");
    lemma_lua_text_no_comment(s);
    lemma_lua_text_reads(s);
    lemma_lua_text_key(s);
    lemma_lua_text_exec(s);
    lemma_lua_combo_chars(s);
    crate::sway_shortcut_backend::lemma_bare_toggle_command_is_pookie();
    let a = "hl.bind(\""@;
    let x = lua_combo(s);
    let b = "\", hl.dsp.exec_cmd(\"pookie-paste --toggle\"))"@;
    let t = hypr_lua_text(s);
    assert(t == a + x + b);
    assert(t[0] == 'h');
    assert(t.last() == ')');
    crate::text::lemma_trim_plain_ends(t);
    assert(strip_lua_comment_spec(t) == t);
    assert(lua_line_diagnosis(t, s) == Some(HyprDiagnosisView::VerifiedPookie));
    let nl = one_of(seq!['\n']);
    assert forall|i: int| 0 <= i < t.len() implies !nl(#[trigger] t[i]) by {
        assert(seq!['\n'][0] == '\n');
        if i < 9 {
            assert(t[i] == a[i]);
        } else if i < 9 + x.len() {
            assert(t[i] == x[i - 9]);
        } else {
            assert(t[i] == b[i - 9 - x.len()]);
        }
    }
    crate::text::lemma_split_without_separator(t, nl);
    let p = split_when(t, nl);
    assert(p.take(p.len() - 1) =~= Seq::<Seq<char>>::empty());
    assert(lines(t) =~= seq![t]);
    assert(seq![t][0] == t);
    assert(first_lua_line(seq![t], s) == Some(HyprDiagnosisView::VerifiedPookie));
}

} // verus!
