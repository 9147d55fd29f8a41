//! The global shortcut model: keys, modifiers, activations, backend capabilities
//! and registration outcomes.
use vstd::prelude::*;

use crate::text::{
    ascii_upper, char_to_ascii_uppercase, digit, chars_to_string, decimal, decimal_u8, join, join_chars,
    push_chars, push_str, str_chars, string_push, views,
};

verus! {

#[derive(Debug, Clone, Copy, PartialEq, Eq, Structural)]
pub struct Shortcut {
    pub key: ShortcutKey,
    pub modifiers: ShortcutModifiers,
}

#[derive(Debug, Clone, Copy, PartialEq, Eq, Structural)]
pub enum ShortcutKey {
    Character(char),
    Named(NamedKey),
}

#[derive(Debug, Clone, Copy, PartialEq, Eq, Structural)]
pub enum NamedKey {
    Space,
    Tab,
    Enter,
    Escape,
    Insert,
    Delete,
    F(u8),
}

#[derive(Debug, Clone, Copy, PartialEq, Eq, Structural, Default)]
pub struct ShortcutModifiers {
    pub super_key: bool,
    pub control: bool,
    pub alt: bool,
    pub shift: bool,
}

/// The default shortcut, Super+V.
pub open spec fn super_v_spec() -> Shortcut {
    Shortcut {
        key: ShortcutKey::Character('v'),
        modifiers: ShortcutModifiers { super_key: true, control: false, alt: false, shift: false },
    }
}

impl Shortcut {
    pub fn new(key: ShortcutKey, modifiers: ShortcutModifiers) -> (r: Self)
        ensures
            r.key == key,
            r.modifiers == modifiers,
    {
        Self { key, modifiers }
    }

    pub fn super_v() -> (r: Self)
        ensures
            r == super_v_spec(),
    {
        Self::new(
            ShortcutKey::Character('v'),
            ShortcutModifiers { super_key: true, control: false, alt: false, shift: false },
        )
    }

    /// The human-readable form, e.g. `Super+Shift+P`.
    pub fn to_string(&self) -> (r: String)
        ensures
            r@ == shortcut_text(*self),
    {
        let mods = self.modifiers.to_string();
        let key = self.key.to_string();
        let mut out = String::new();
        if mods.as_str().is_empty() {
            push_str(&mut out, key.as_str());
        } else {
            push_str(&mut out, mods.as_str());
            push_str(&mut out, "+");
            push_str(&mut out, key.as_str());
        }
        out
    }
}

/// `Display` text of a named key.
pub open spec fn named_key_text(k: NamedKey) -> Seq<char> {
    match k {
        NamedKey::Space => "Space"@,
        NamedKey::Tab => "Tab"@,
        NamedKey::Enter => "Enter"@,
        NamedKey::Escape => "Escape"@,
        NamedKey::Insert => "Insert"@,
        NamedKey::Delete => "Delete"@,
        NamedKey::F(n) => "F"@ + decimal(n as nat),
    }
}

/// `Display` text of a key: characters are shown in upper case.
pub open spec fn key_text(k: ShortcutKey) -> Seq<char> {
    match k {
        ShortcutKey::Character(c) => seq![ascii_upper(c)],
        ShortcutKey::Named(n) => named_key_text(n),
    }
}

/// The names of the held modifiers, in the order Super, Ctrl, Alt, Shift.
pub open spec fn modifier_names(m: ShortcutModifiers) -> Seq<Seq<char>> {
    let a: Seq<Seq<char>> = if m.super_key { seq!["Super"@] } else { Seq::empty() };
    let b = if m.control { a.push("Ctrl"@) } else { a };
    let c = if m.alt { b.push("Alt"@) } else { b };
    if m.shift { c.push("Shift"@) } else { c }
}

/// `Display` text of the modifiers: their names joined by `+`.
pub open spec fn modifiers_text(m: ShortcutModifiers) -> Seq<char> {
    join(modifier_names(m), "+"@)
}

/// `Display` text of a shortcut.
pub open spec fn shortcut_text(s: Shortcut) -> Seq<char> {
    let m = modifiers_text(s.modifiers);
    if m.len() == 0 {
        key_text(s.key)
    } else {
        m + "+"@ + key_text(s.key)
    }
}

impl ShortcutKey {
    pub fn to_string(&self) -> (r: String)
        ensures
            r@ == key_text(*self),
    {
        match self {
            ShortcutKey::Character(c) => {
                let mut out = String::new();
                string_push(&mut out, char_to_ascii_uppercase(*c));
                out
            },
            ShortcutKey::Named(named) => named.to_string(),
        }
    }
}

/// The X11 keysym of a named key (function keys beyond F12 have none: 0).
pub open spec fn keysym_spec(k: NamedKey) -> u32 {
    match k {
        NamedKey::Space => 0x0020,
        NamedKey::Tab => 0xff09,
        NamedKey::Enter => 0xff0d,
        NamedKey::Escape => 0xff1b,
        NamedKey::Insert => 0xff63,
        NamedKey::Delete => 0xffff,
        NamedKey::F(n) => if 1 <= n <= 12 {
            (0xffbe + n - 1) as u32
        } else {
            0
        },
    }
}

/// The XDG Desktop Portal name of a named key.
pub open spec fn portal_name_spec(k: NamedKey) -> Seq<char> {
    match k {
        NamedKey::Space => "space"@,
        NamedKey::Tab => "Tab"@,
        NamedKey::Enter => "Return"@,
        NamedKey::Escape => "Escape"@,
        NamedKey::Insert => "Insert"@,
        NamedKey::Delete => "Delete"@,
        NamedKey::F(n) => if 1 <= n <= 12 {
            "F"@ + decimal(n as nat)
        } else {
            "unknown"@
        },
    }
}

impl NamedKey {
    /// Returns the standard X11 keysym for this named key.
    pub fn keysym(&self) -> (r: u32)
        ensures
            r == keysym_spec(*self),
    {
        match self {
            NamedKey::Space => 0x0020,
            NamedKey::Tab => 0xff09,
            NamedKey::Enter => 0xff0d,
            NamedKey::Escape => 0xff1b,
            NamedKey::Insert => 0xff63,
            NamedKey::Delete => 0xffff,
            NamedKey::F(n) => {
                if 1 <= *n && *n <= 12 {
                    0xffbe + (*n as u32 - 1)
                } else {
                    0x0000
                }
            },
        }
    }

    /// Returns the XDG Desktop Portal string identifier for this named key.
    pub fn portal_name(&self) -> (r: &'static str)
        ensures
            r@ == portal_name_spec(*self),
    {
        proof {
            reveal_strlit("F1");
            reveal_strlit("F2");
            reveal_strlit("F3");
            reveal_strlit("F4");
            reveal_strlit("F5");
            reveal_strlit("F6");
            reveal_strlit("F7");
            reveal_strlit("F8");
            reveal_strlit("F9");
            reveal_strlit("F10");
            reveal_strlit("F11");
            reveal_strlit("F12");
            reveal_strlit("F");
            assert(digit(0) == '0');
            assert(digit(1) == '1');
            assert(digit(2) == '2');
            assert(decimal(1) == seq!['1']);
            assert(decimal(10) == seq!['1', '0']);
            assert(decimal(11) == seq!['1', '1']);
            assert(decimal(12) == seq!['1', '2']);
        }
        match self {
            NamedKey::Space => "space",
            NamedKey::Tab => "Tab",
            NamedKey::Enter => "Return",
            NamedKey::Escape => "Escape",
            NamedKey::Insert => "Insert",
            NamedKey::Delete => "Delete",
            NamedKey::F(1) => "F1",
            NamedKey::F(2) => "F2",
            NamedKey::F(3) => "F3",
            NamedKey::F(4) => "F4",
            NamedKey::F(5) => "F5",
            NamedKey::F(6) => "F6",
            NamedKey::F(7) => "F7",
            NamedKey::F(8) => "F8",
            NamedKey::F(9) => "F9",
            NamedKey::F(10) => "F10",
            NamedKey::F(11) => "F11",
            NamedKey::F(12) => "F12",
            NamedKey::F(_) => "unknown",
        }
    }

    pub fn to_string(&self) -> (r: String)
        ensures
            r@ == named_key_text(*self),
    {
        let mut out = String::new();
        match self {
            NamedKey::Space => push_str(&mut out, "Space"),
            NamedKey::Tab => push_str(&mut out, "Tab"),
            NamedKey::Enter => push_str(&mut out, "Enter"),
            NamedKey::Escape => push_str(&mut out, "Escape"),
            NamedKey::Insert => push_str(&mut out, "Insert"),
            NamedKey::Delete => push_str(&mut out, "Delete"),
            NamedKey::F(n) => {
                push_str(&mut out, "F");
                let d = decimal_u8(*n);
                push_chars(&mut out, &d);
            },
        }
        out
    }
}

impl ShortcutModifiers {
    /// No modifier held (the same value as `ShortcutModifiers::default()`).
    pub fn none() -> (r: Self)
        ensures
            !r.super_key && !r.control && !r.alt && !r.shift,
    {
        ShortcutModifiers { super_key: false, control: false, alt: false, shift: false }
    }

    pub open spec fn has_any_spec(&self) -> bool {
        self.super_key || self.control || self.alt || self.shift
    }

    pub fn has_any(&self) -> (r: bool)
        ensures
            r == self.has_any_spec(),
    {
        self.super_key || self.control || self.alt || self.shift
    }

    pub fn to_string(&self) -> (r: String)
        ensures
            r@ == modifiers_text(*self),
    {
        let mut parts: Vec<Vec<char>> = Vec::new();
        if self.super_key {
            parts.push(str_chars("Super"));
        }
        if self.control {
            parts.push(str_chars("Ctrl"));
        }
        if self.alt {
            parts.push(str_chars("Alt"));
        }
        if self.shift {
            parts.push(str_chars("Shift"));
        }
        assert(views(parts@) =~= modifier_names(*self));
        let sep = str_chars("+");
        let joined = join_chars(&parts, &sep);
        chars_to_string(&joined)
    }
}

#[derive(Debug, Clone)]
pub struct ShortcutActivation {
    /// Platform-specific activation identifier: for Wayland the activation
    /// token returned by the global shortcut portal; X11 needs none.
    pub activation_token: Option<String>,
}

impl ShortcutActivation {
    pub fn none() -> (r: Self)
        ensures
            r.activation_token is None,
    {
        Self { activation_token: None }
    }

    pub fn with_activation_token(token: String) -> (r: Self)
        ensures
            r.activation_token == Some(token),
    {
        Self { activation_token: Some(token) }
    }
}

#[derive(Debug)]
pub enum ShortcutError {
    Unavailable,
    Cancelled,
    TimedOut(String),
    Conflict(String),
    Failed(String),
}

/// Identifies the underlying mechanism used by a shortcut backend.
#[derive(Debug, Clone, Copy, PartialEq, Eq, Structural)]
pub enum ShortcutBackendCapability {
    /// Programmatic direct grab by the daemon process (e.g., X11 XGrabKey).
    Native,
    /// Handled via a desktop portal D-Bus session (e.g., KDE Plasma xdg-desktop-portal).
    Portal,
    /// Managed externally by window manager / compositor keybind (e.g., Sway, Hyprland).
    CompositorManaged,
    /// Global shortcuts are completely unsupported on the active session.
    Unsupported,
}

pub open spec fn capability_description_spec(c: ShortcutBackendCapability) -> Seq<char> {
    match c {
        ShortcutBackendCapability::Native => "Native window system key grab (e.g. X11)"@,
        ShortcutBackendCapability::Portal => "Desktop portal global shortcuts (e.g. KDE Plasma)"@,
        ShortcutBackendCapability::CompositorManaged =>
            "Compositor-managed keybinding (e.g. Sway, Hyprland)"@,
        ShortcutBackendCapability::Unsupported => "Global shortcuts unsupported on this session"@,
    }
}

impl ShortcutBackendCapability {
    pub fn description(&self) -> (r: &'static str)
        ensures
            r@ == capability_description_spec(*self),
    {
        match self {
            ShortcutBackendCapability::Native => "Native window system key grab (e.g. X11)",
            ShortcutBackendCapability::Portal => "Desktop portal global shortcuts (e.g. KDE Plasma)",
            ShortcutBackendCapability::CompositorManaged =>
                "Compositor-managed keybinding (e.g. Sway, Hyprland)",
            ShortcutBackendCapability::Unsupported => "Global shortcuts unsupported on this session",
        }
    }
}

/// Rich status outcome returned when registering or inspecting a global shortcut.
#[derive(Debug, Clone, PartialEq, Eq)]
pub enum ShortcutRegistrationOutcome {
    /// Actively registered and grabbed by the backend.
    Active { description: String },
    /// Managed externally by window manager or compositor keybinding.
    CompositorManaged {
        binding_snippet: String,
        verified: bool,
        conflict: Option<String>,
        diagnostic: Option<String>,
    },
    /// The key could not be bound because of an active conflict.
    Conflict { details: String },
}

/// The view of an optional string.
pub open spec fn opt_view(o: Option<String>) -> Option<Seq<char>> {
    match o {
        Some(s) => Some(s@),
        None => None,
    }
}

/// A registration outcome by its text.
pub enum OutcomeView {
    Active(Seq<char>),
    /// Binding snippet, whether verified, conflict, diagnostic.
    CompositorManaged(Seq<char>, bool, Option<Seq<char>>, Option<Seq<char>>),
    Conflict(Seq<char>),
}

impl View for ShortcutRegistrationOutcome {
    type V = OutcomeView;

    open spec fn view(&self) -> OutcomeView {
        match self {
            ShortcutRegistrationOutcome::Active { description } => OutcomeView::Active(description@),
            ShortcutRegistrationOutcome::CompositorManaged {
                binding_snippet,
                verified,
                conflict,
                diagnostic,
            } => OutcomeView::CompositorManaged(
                binding_snippet@,
                *verified,
                opt_view(*conflict),
                opt_view(*diagnostic),
            ),
            ShortcutRegistrationOutcome::Conflict { details } => OutcomeView::Conflict(details@),
        }
    }
}

/// A shortcut error by its text.
pub enum ShortcutErrorView {
    Unavailable,
    Cancelled,
    TimedOut(Seq<char>),
    Conflict(Seq<char>),
    Failed(Seq<char>),
}

impl View for ShortcutError {
    type V = ShortcutErrorView;

    open spec fn view(&self) -> ShortcutErrorView {
        match self {
            ShortcutError::Unavailable => ShortcutErrorView::Unavailable,
            ShortcutError::Cancelled => ShortcutErrorView::Cancelled,
            ShortcutError::TimedOut(s) => ShortcutErrorView::TimedOut(s@),
            ShortcutError::Conflict(s) => ShortcutErrorView::Conflict(s@),
            ShortcutError::Failed(s) => ShortcutErrorView::Failed(s@),
        }
    }
}

/// The text reported for a shortcut error: the carried message, or for the
/// errors without one the sentence the listener reports.
pub open spec fn error_text(e: ShortcutErrorView) -> Seq<char> {
    match e {
        ShortcutErrorView::Unavailable => "global shortcuts are unavailable on this session"@,
        ShortcutErrorView::Cancelled => "shortcut registration was cancelled by user"@,
        ShortcutErrorView::TimedOut(m) => "registration timed out: "@ + m,
        ShortcutErrorView::Conflict(m) => m,
        ShortcutErrorView::Failed(m) => m,
    }
}

impl ShortcutError {
    pub fn message(&self) -> (r: String)
        ensures
            r@ == error_text(self@),
    {
        match self {
            ShortcutError::Unavailable => {
                let v = str_chars("global shortcuts are unavailable on this session");
                chars_to_string(&v)
            },
            ShortcutError::Cancelled => {
                let v = str_chars("shortcut registration was cancelled by user");
                chars_to_string(&v)
            },
            ShortcutError::TimedOut(m) => {
                let mut s = String::new();
                push_str(&mut s, "registration timed out: ");
                push_str(&mut s, m.as_str());
                s
            },
            ShortcutError::Conflict(m) => m.clone(),
            ShortcutError::Failed(m) => m.clone(),
        }
    }

    /// A copy of the error.
    pub fn duplicate(&self) -> (r: Self)
        ensures
            r@ == self@,
    {
        match self {
            ShortcutError::Unavailable => ShortcutError::Unavailable,
            ShortcutError::Cancelled => ShortcutError::Cancelled,
            ShortcutError::TimedOut(m) => ShortcutError::TimedOut(m.clone()),
            ShortcutError::Conflict(m) => ShortcutError::Conflict(m.clone()),
            ShortcutError::Failed(m) => ShortcutError::Failed(m.clone()),
        }
    }
}

impl ShortcutRegistrationOutcome {
    pub open spec fn description_spec(&self) -> Seq<char> {
        match self {
            ShortcutRegistrationOutcome::Active { description } => description@,
            ShortcutRegistrationOutcome::CompositorManaged { binding_snippet, .. } =>
                binding_snippet@,
            ShortcutRegistrationOutcome::Conflict { details } => details@,
        }
    }

    pub fn description(&self) -> (r: &str)
        ensures
            r@ == self.description_spec(),
    {
        match self {
            ShortcutRegistrationOutcome::Active { description } => description.as_str(),
            ShortcutRegistrationOutcome::CompositorManaged { binding_snippet, .. } =>
                binding_snippet.as_str(),
            ShortcutRegistrationOutcome::Conflict { details } => details.as_str(),
        }
    }
}

/// A way of registering the global shortcut and waiting for it.
pub trait ShortcutBackend {
    fn name(&self) -> &'static str;

    fn capability(&self) -> ShortcutBackendCapability;

    fn register(&mut self, shortcut: Shortcut) -> Result<ShortcutRegistrationOutcome, ShortcutError>;

    fn wait_for_activation(&mut self) -> Result<ShortcutActivation, ShortcutError>;

    /// Releases the registration; backends that hold none have nothing to do.
    fn unregister(&mut self) -> Result<(), ShortcutError> {
        Ok(())
    }
}

/// The backend of sessions without global shortcuts: nothing can be
/// registered and nothing is ever activated.
pub struct UnavailableShortcutBackend;

impl ShortcutBackend for UnavailableShortcutBackend {
    fn name(&self) -> (r: &'static str)
        ensures
            r@ == "unavailable"@,
    {
        "unavailable"
    }

    fn capability(&self) -> (r: ShortcutBackendCapability)
        ensures
            r == ShortcutBackendCapability::Unsupported,
    {
        ShortcutBackendCapability::Unsupported
    }

    fn register(&mut self, shortcut: Shortcut) -> (r: Result<ShortcutRegistrationOutcome, ShortcutError>)
        ensures
            r matches Err(ShortcutError::Unavailable),
    {
        Err(ShortcutError::Unavailable)
    }

    fn wait_for_activation(&mut self) -> (r: Result<ShortcutActivation, ShortcutError>)
        ensures
            r matches Err(ShortcutError::Unavailable),
    {
        Err(ShortcutError::Unavailable)
    }
}

} // verus!
