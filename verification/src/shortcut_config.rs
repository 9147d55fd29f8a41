//! The shortcut section of the configuration file and its conversion into the
//! runtime `Shortcut` model.
//!
//! Supported layouts:
//! ```toml
//! [shortcut.primary]
//! modifiers = ["SUPER"]
//! key = "V"
//! ```
//! and the single-table convenience form:
//! ```toml
//! [shortcut]
//! modifiers = "SUPER"
//! key = "V"
//! ```
use vstd::prelude::*;

use crate::shortcut_backend::{named_key_text, NamedKey, Shortcut, ShortcutKey, ShortcutModifiers};
use crate::text::{
    ascii_lower, char_is_ascii_alphanumeric, decimal, digit, is_ws, trim_end, trim_start, char_to_ascii_lowercase, eq_str, is_ascii_alnum,
    lemma_split_without_separator, lower, one_of, push_chars, push_str, split_on, split_when, str_chars, to_ascii_lowercase,
    trim, trim_chars, views, chars_to_string,
};

verus! {

pub const DEFAULT_CONFIG_TEMPLATE: &'static str = "# Pookie Paste Configuration File
# Documentation: https://github.com/riyanj220/pookie-paste

[shortcut.primary]
modifiers = [\"SUPER\"]
key = \"V\"
";

#[derive(Debug, Clone, PartialEq, Eq)]
pub enum ShortcutConfigError {
    FileNotFound(String),
    Io(String),
    Parse(String),
    ModifierRequired(String),
    UnknownModifier(String),
    InvalidKey(String),
}

#[derive(Debug, Clone, PartialEq, Eq)]
pub struct ShortcutConfig {
    pub shortcut: ShortcutSection,
}

#[derive(Debug, Clone, PartialEq, Eq)]
pub struct ShortcutSection {
    pub primary: Option<KeyBindingConfig>,
    /// Convenience fallback when the keys stand directly under `[shortcut]`.
    pub modifiers: Option<ModifiersConfig>,
    pub key: Option<String>,
}

#[derive(Debug, Clone, PartialEq, Eq)]
pub struct KeyBindingConfig {
    pub modifiers: ModifiersConfig,
    pub key: String,
}

#[derive(Debug, Clone, PartialEq, Eq)]
pub enum ModifiersConfig {
    Single(String),
    Multiple(Vec<String>),
}

/// The view of a list of strings.
pub open spec fn strings_view(v: Seq<String>) -> Seq<Seq<char>> {
    v.map_values(|s: String| s@)
}

/// Two modifier configurations hold the same text.
pub open spec fn same_modifiers(a: ModifiersConfig, b: ModifiersConfig) -> bool {
    match (a, b) {
        (ModifiersConfig::Single(x), ModifiersConfig::Single(y)) => x@ == y@,
        (ModifiersConfig::Multiple(x), ModifiersConfig::Multiple(y)) => strings_view(x@)
            == strings_view(y@),
        _ => false,
    }
}

/// Two key bindings hold the same text.
pub open spec fn same_binding(a: KeyBindingConfig, b: KeyBindingConfig) -> bool {
    same_modifiers(a.modifiers, b.modifiers) && a.key@ == b.key@
}

/// The default binding: modifiers `["SUPER"]`, key `"V"`.
pub open spec fn is_default_binding(b: KeyBindingConfig) -> bool {
    &&& b.modifiers matches ModifiersConfig::Multiple(v)
    &&& strings_view(v@) == seq!["SUPER"@]
    &&& b.key@ == "V"@
}

/// The binding that the configuration designates: `[shortcut.primary]` when
/// present, else the `[shortcut]` keys when both are present, else the default.
pub open spec fn primary_binding_matches(c: ShortcutConfig, r: KeyBindingConfig) -> bool {
    match c.shortcut.primary {
        Some(p) => same_binding(r, p),
        None => match (c.shortcut.modifiers, c.shortcut.key) {
            (Some(m), Some(k)) => same_modifiers(r.modifiers, m) && r.key@ == k@,
            _ => is_default_binding(r),
        },
    }
}

/// The modifier tokens of a configuration: every entry split at `+`, trimmed.
pub open spec fn modifier_tokens_of(s: Seq<char>) -> Seq<Seq<char>> {
    split_when(s, one_of(seq!['+'])).map_values(|p: Seq<char>| trim(p))
}

pub open spec fn modifier_tokens_list(list: Seq<Seq<char>>) -> Seq<Seq<char>>
    decreases list.len(),
{
    if list.len() == 0 {
        Seq::empty()
    } else {
        modifier_tokens_list(list.drop_last()) + modifier_tokens_of(list.last())
    }
}

pub open spec fn modifier_tokens(c: ModifiersConfig) -> Seq<Seq<char>> {
    match c {
        ModifiersConfig::Single(s) => modifier_tokens_of(s@),
        ModifiersConfig::Multiple(v) => modifier_tokens_list(strings_view(v@)),
    }
}

/// Applies one lower-cased modifier name; `None` for an unknown name.
pub open spec fn apply_modifier(m: ShortcutModifiers, t: Seq<char>) -> Option<ShortcutModifiers> {
    if t == "super"@ || t == "mod4"@ || t == "logo"@ || t == "win"@ {
        Some(ShortcutModifiers { super_key: true, ..m })
    } else if t == "ctrl"@ || t == "control"@ {
        Some(ShortcutModifiers { control: true, ..m })
    } else if t == "alt"@ || t == "mod1"@ {
        Some(ShortcutModifiers { alt: true, ..m })
    } else if t == "shift"@ {
        Some(ShortcutModifiers { shift: true, ..m })
    } else {
        None
    }
}

/// Applies one lower-cased modifier name.
pub fn apply_modifier_name(m: ShortcutModifiers, l: &Vec<char>) -> (r: Option<ShortcutModifiers>)
    ensures
        r == apply_modifier(m, l@),
{
    if eq_str(l, "super") || eq_str(l, "mod4") || eq_str(l, "logo") || eq_str(l, "win") {
        Some(ShortcutModifiers { super_key: true, ..m })
    } else if eq_str(l, "ctrl") || eq_str(l, "control") {
        Some(ShortcutModifiers { control: true, ..m })
    } else if eq_str(l, "alt") || eq_str(l, "mod1") {
        Some(ShortcutModifiers { alt: true, ..m })
    } else if eq_str(l, "shift") {
        Some(ShortcutModifiers { shift: true, ..m })
    } else {
        None
    }
}

/// Folds the tokens in order: empty tokens are skipped, the first unknown
/// token (lower-cased) is the error.
pub open spec fn fold_modifiers(tokens: Seq<Seq<char>>) -> Result<ShortcutModifiers, Seq<char>>
    decreases tokens.len(),
{
    if tokens.len() == 0 {
        Ok(ShortcutModifiers { super_key: false, control: false, alt: false, shift: false })
    } else {
        match fold_modifiers(tokens.drop_last()) {
            Err(e) => Err(e),
            Ok(m) => {
                let t = tokens.last();
                if t.len() == 0 {
                    Ok(m)
                } else {
                    match apply_modifier(m, lower(t)) {
                        Some(m2) => Ok(m2),
                        None => Err(lower(t)),
                    }
                }
            },
        }
    }
}

/// The named keys, by their lower-cased configuration names.
pub open spec fn named_key_of(l: Seq<char>) -> Option<NamedKey> {
    if l == "space"@ {
        Some(NamedKey::Space)
    } else if l == "tab"@ {
        Some(NamedKey::Tab)
    } else if l == "enter"@ || l == "return"@ {
        Some(NamedKey::Enter)
    } else if l == "esc"@ || l == "escape"@ {
        Some(NamedKey::Escape)
    } else if l == "ins"@ || l == "insert"@ {
        Some(NamedKey::Insert)
    } else if l == "del"@ || l == "delete"@ {
        Some(NamedKey::Delete)
    } else if l == "f1"@ {
        Some(NamedKey::F(1))
    } else if l == "f2"@ {
        Some(NamedKey::F(2))
    } else if l == "f3"@ {
        Some(NamedKey::F(3))
    } else if l == "f4"@ {
        Some(NamedKey::F(4))
    } else if l == "f5"@ {
        Some(NamedKey::F(5))
    } else if l == "f6"@ {
        Some(NamedKey::F(6))
    } else if l == "f7"@ {
        Some(NamedKey::F(7))
    } else if l == "f8"@ {
        Some(NamedKey::F(8))
    } else if l == "f9"@ {
        Some(NamedKey::F(9))
    } else if l == "f10"@ {
        Some(NamedKey::F(10))
    } else if l == "f11"@ {
        Some(NamedKey::F(11))
    } else if l == "f12"@ {
        Some(NamedKey::F(12))
    } else {
        None
    }
}

/// The key that a configured key string names; the error text otherwise.
pub open spec fn parse_key_spec(k: Seq<char>) -> Result<ShortcutKey, Seq<char>> {
    let t = trim(k);
    if t.len() == 0 {
        Err("key cannot be empty"@)
    } else {
        match named_key_of(lower(t)) {
            Some(n) => Ok(ShortcutKey::Named(n)),
            None => if t.len() == 1 && is_ascii_alnum(t[0]) {
                Ok(ShortcutKey::Character(ascii_lower(t[0])))
            } else {
                Err(t)
            },
        }
    }
}

/// The error kinds of a configuration, by their payload text.
pub enum ConfigErrorView {
    FileNotFound(Seq<char>),
    Io(Seq<char>),
    Parse(Seq<char>),
    ModifierRequired(Seq<char>),
    UnknownModifier(Seq<char>),
    InvalidKey(Seq<char>),
}

impl View for ShortcutConfigError {
    type V = ConfigErrorView;

    open spec fn view(&self) -> ConfigErrorView {
        match self {
            ShortcutConfigError::FileNotFound(s) => ConfigErrorView::FileNotFound(s@),
            ShortcutConfigError::Io(s) => ConfigErrorView::Io(s@),
            ShortcutConfigError::Parse(s) => ConfigErrorView::Parse(s@),
            ShortcutConfigError::ModifierRequired(s) => ConfigErrorView::ModifierRequired(s@),
            ShortcutConfigError::UnknownModifier(s) => ConfigErrorView::UnknownModifier(s@),
            ShortcutConfigError::InvalidKey(s) => ConfigErrorView::InvalidKey(s@),
        }
    }
}

/// The text of a configuration error.
pub open spec fn config_error_text(e: ConfigErrorView) -> Seq<char> {
    match e {
        ConfigErrorView::FileNotFound(p) => "configuration file not found: "@ + p,
        ConfigErrorView::Io(m) => "failed reading configuration file: "@ + m,
        ConfigErrorView::Parse(m) => "failed to parse configuration TOML: "@ + m,
        ConfigErrorView::ModifierRequired(k) =>
            "shortcut must include at least one modifier key (Super, Ctrl, Alt, or Shift); cannot bind bare key '"@
                + k + "'"@,
        ConfigErrorView::UnknownModifier(m) => "unknown shortcut modifier: '"@ + m + "'"@,
        ConfigErrorView::InvalidKey(k) => "invalid or unsupported shortcut key: '"@ + k + "'"@,
    }
}

impl ShortcutConfigError {
    pub fn message(&self) -> (r: String)
        ensures
            r@ == config_error_text(self@),
    {
        let mut s = String::new();
        match self {
            ShortcutConfigError::FileNotFound(p) => {
                push_str(&mut s, "configuration file not found: ");
                push_str(&mut s, p.as_str());
            },
            ShortcutConfigError::Io(m) => {
                push_str(&mut s, "failed reading configuration file: ");
                push_str(&mut s, m.as_str());
            },
            ShortcutConfigError::Parse(m) => {
                push_str(&mut s, "failed to parse configuration TOML: ");
                push_str(&mut s, m.as_str());
            },
            ShortcutConfigError::ModifierRequired(k) => {
                push_str(
                    &mut s,
                    "shortcut must include at least one modifier key (Super, Ctrl, Alt, or Shift); cannot bind bare key '",
                );
                push_str(&mut s, k.as_str());
                push_str(&mut s, "'");
            },
            ShortcutConfigError::UnknownModifier(m) => {
                push_str(&mut s, "unknown shortcut modifier: '");
                push_str(&mut s, m.as_str());
                push_str(&mut s, "'");
            },
            ShortcutConfigError::InvalidKey(k) => {
                push_str(&mut s, "invalid or unsupported shortcut key: '");
                push_str(&mut s, k.as_str());
                push_str(&mut s, "'");
            },
        }
        s
    }

    /// A copy of the error.
    pub fn duplicate(&self) -> (r: Self)
        ensures
            r@ == self@,
    {
        match self {
            ShortcutConfigError::FileNotFound(p) => ShortcutConfigError::FileNotFound(p.clone()),
            ShortcutConfigError::Io(m) => ShortcutConfigError::Io(m.clone()),
            ShortcutConfigError::Parse(m) => ShortcutConfigError::Parse(m.clone()),
            ShortcutConfigError::ModifierRequired(k) => ShortcutConfigError::ModifierRequired(
                k.clone(),
            ),
            ShortcutConfigError::UnknownModifier(m) => ShortcutConfigError::UnknownModifier(
                m.clone(),
            ),
            ShortcutConfigError::InvalidKey(k) => ShortcutConfigError::InvalidKey(k.clone()),
        }
    }
}

/// What converting a binding yields: modifier errors first, then key errors,
/// then a binding without any modifier is refused.
pub open spec fn binding_shortcut(b: KeyBindingConfig) -> Result<Shortcut, ConfigErrorView> {
    match fold_modifiers(modifier_tokens(b.modifiers)) {
        Err(e) => Err(ConfigErrorView::UnknownModifier(e)),
        Ok(m) => match parse_key_spec(b.key@) {
            Err(e) => Err(ConfigErrorView::InvalidKey(e)),
            Ok(k) => if !m.has_any_spec() {
                Err(ConfigErrorView::ModifierRequired(b.key@))
            } else {
                Ok(Shortcut { key: k, modifiers: m })
            },
        },
    }
}

/// The shortcut that a configuration designates.
pub open spec fn config_shortcut(c: ShortcutConfig) -> Result<Shortcut, ConfigErrorView> {
    match c.shortcut.primary {
        Some(p) => binding_shortcut(p),
        None => match (c.shortcut.modifiers, c.shortcut.key) {
            (Some(m), Some(k)) => binding_shortcut(KeyBindingConfig { modifiers: m, key: k }),
            _ => Ok(
                Shortcut {
                    key: ShortcutKey::Character('v'),
                    modifiers: ShortcutModifiers {
                        super_key: true,
                        control: false,
                        alt: false,
                        shift: false,
                    },
                },
            ),
        },
    }
}

/// A copy of a list of strings.
fn copy_strings(v: &Vec<String>) -> (r: Vec<String>)
    ensures
        strings_view(r@) == strings_view(v@),
{
    let mut r: Vec<String> = Vec::new();
    for i in 0..v.len()
        invariant
            strings_view(r@) == strings_view(v@.take(i as int)),
    {
        let ghost prev = r@;
        r.push(v[i].clone());
        assert(v@.take(i + 1) == v@.take(i as int).push(v@[i as int]));
        assert(strings_view(r@) =~= strings_view(prev).push(v@[i as int]@));
        assert(strings_view(v@.take(i + 1)) =~= strings_view(v@.take(i as int)).push(
            v@[i as int]@,
        ));
    }
    assert(v@.take(v.len() as int) == v@);
    r
}

impl ModifiersConfig {
    /// A copy holding the same text.
    pub fn duplicate(&self) -> (r: Self)
        ensures
            same_modifiers(r, *self),
    {
        match self {
            ModifiersConfig::Single(s) => ModifiersConfig::Single(s.clone()),
            ModifiersConfig::Multiple(v) => ModifiersConfig::Multiple(copy_strings(v)),
        }
    }
}

impl KeyBindingConfig {
    /// A copy holding the same text.
    pub fn duplicate(&self) -> (r: Self)
        ensures
            same_binding(r, *self),
    {
        KeyBindingConfig { modifiers: self.modifiers.duplicate(), key: self.key.clone() }
    }

    /// Converts the binding into the runtime `Shortcut` model.
    pub fn to_shortcut(&self) -> (r: Result<Shortcut, ShortcutConfigError>)
        ensures
            match r {
                Ok(s) => binding_shortcut(*self) == Ok::<Shortcut, ConfigErrorView>(s),
                Err(e) => binding_shortcut(*self) == Err::<Shortcut, ConfigErrorView>(e@),
            },
    {
        let modifiers = match parse_modifiers(&self.modifiers) {
            Ok(m) => m,
            Err(e) => return Err(e),
        };
        let key = match parse_key(self.key.as_str()) {
            Ok(k) => k,
            Err(e) => return Err(e),
        };
        if !modifiers.has_any() {
            return Err(ShortcutConfigError::ModifierRequired(self.key.clone()));
        }
        Ok(Shortcut::new(key, modifiers))
    }
}

impl Default for KeyBindingConfig {
    fn default() -> (r: Self)
        ensures
            is_default_binding(r),
    {
        KeyBindingConfig { modifiers: default_modifiers(), key: default_key() }
    }
}

impl Default for ShortcutSection {
    fn default() -> (r: Self)
        ensures
            r.primary is None && r.modifiers is None && r.key is None,
    {
        ShortcutSection { primary: None, modifiers: None, key: None }
    }
}

impl Default for ShortcutConfig {
    fn default() -> (r: Self)
        ensures
            r.shortcut.primary is None && r.shortcut.modifiers is None && r.shortcut.key is None,
    {
        ShortcutConfig { shortcut: ShortcutSection::default() }
    }
}

/// `["SUPER"]`.
pub fn default_modifiers() -> (r: ModifiersConfig)
    ensures
        r matches ModifiersConfig::Multiple(v) && strings_view(v@) == seq!["SUPER"@],
{
    let mut v: Vec<String> = Vec::new();
    let mut s = String::new();
    push_str(&mut s, "SUPER");
    v.push(s);
    assert(strings_view(v@) =~= seq!["SUPER"@]);
    ModifiersConfig::Multiple(v)
}

/// `"V"`.
pub fn default_key() -> (r: String)
    ensures
        r@ == "V"@,
{
    let mut s = String::new();
    push_str(&mut s, "V");
    s
}

impl ShortcutConfig {
    /// Resolves the primary keybinding configuration.
    pub fn primary_binding(&self) -> (r: KeyBindingConfig)
        ensures
            primary_binding_matches(*self, r),
    {
        if let Some(primary) = &self.shortcut.primary {
            return primary.duplicate();
        }
        if let (Some(modifiers), Some(key)) = (&self.shortcut.modifiers, &self.shortcut.key) {
            return KeyBindingConfig { modifiers: modifiers.duplicate(), key: key.clone() };
        }
        KeyBindingConfig::default()
    }

    /// Converts the configured primary shortcut into the internal `Shortcut` model.
    pub fn primary_shortcut(&self) -> (r: Result<Shortcut, ShortcutConfigError>)
        ensures
            match r {
                Ok(s) => config_shortcut(*self) == Ok::<Shortcut, ConfigErrorView>(s),
                Err(e) => config_shortcut(*self) == Err::<Shortcut, ConfigErrorView>(e@),
            },
    {
        let binding = self.primary_binding();
        proof {
            lemma_binding_shortcut_same_text(binding, *self);
        }
        binding.to_shortcut()
    }

    /// Accepts a parsed configuration only if its primary shortcut converts
    /// into a valid runtime `Shortcut`.
    pub fn validate(self) -> (r: Result<Self, ShortcutConfigError>)
        ensures
            match r {
                Ok(c) => c == self && config_shortcut(self) is Ok,
                Err(e) => config_shortcut(self) == Err::<Shortcut, ConfigErrorView>(e@),
            },
    {
        match self.primary_shortcut() {
            Ok(_) => Ok(self),
            Err(e) => Err(e),
        }
    }
}

/// What reading the configuration file found. Reading and TOML parsing
/// happen before; the loaders below decide what that means.
#[derive(Debug)]
pub enum ConfigFile {
    /// No file at the path.
    Missing,
    /// The file exists but could not be read; the reason.
    Unreadable(String),
    /// The file was read and parsed as TOML: the configuration, or the parse error.
    Parsed(Result<ShortcutConfig, String>),
}

/// What loading strictly yields for a file state.
pub open spec fn strict_load_spec(path: Seq<char>, file: ConfigFile) -> Result<
    ShortcutConfig,
    ConfigErrorView,
> {
    match file {
        ConfigFile::Missing => Err(ConfigErrorView::FileNotFound(path)),
        ConfigFile::Unreadable(e) => Err(ConfigErrorView::Io(path + ": "@ + e@)),
        ConfigFile::Parsed(Err(e)) => Err(ConfigErrorView::Parse(e@)),
        ConfigFile::Parsed(Ok(c)) => match config_shortcut(c) {
            Ok(_) => Ok(c),
            Err(e) => Err(e),
        },
    }
}

impl ShortcutConfig {
    /// Loads and validates the configuration at `path`: a missing file, an
    /// unreadable one, invalid TOML and an invalid shortcut are errors.
    pub fn load_strict_from_path(path: &str, file: ConfigFile) -> (r: Result<
        ShortcutConfig,
        ShortcutConfigError,
    >)
        ensures
            match strict_load_spec(path@, file) {
                Ok(c) => r == Ok::<ShortcutConfig, ShortcutConfigError>(c),
                Err(e) => r matches Err(f) && f@ == e,
            },
    {
        match file {
            ConfigFile::Missing => {
                let v = str_chars(path);
                Err(ShortcutConfigError::FileNotFound(chars_to_string(&v)))
            },
            ConfigFile::Unreadable(e) => {
                let mut m = String::new();
                push_str(&mut m, path);
                push_str(&mut m, ": ");
                push_str(&mut m, e.as_str());
                Err(ShortcutConfigError::Io(m))
            },
            ConfigFile::Parsed(Err(e)) => Err(ShortcutConfigError::Parse(e)),
            ConfigFile::Parsed(Ok(c)) => c.validate(),
        }
    }

    /// Loads the configuration at `path`, falling back to the defaults (Super+V)
    /// when the file is missing or invalid.
    pub fn load_or_default_from_path(path: &str, file: ConfigFile) -> (r: ShortcutConfig)
        ensures
            config_shortcut(r) is Ok,
            match strict_load_spec(path@, file) {
                Ok(c) => r == c,
                Err(_) => r.shortcut.primary is None && r.shortcut.modifiers is None
                    && r.shortcut.key is None,
            },
    {
        match Self::load_strict_from_path(path, file) {
            Ok(c) => c,
            Err(_) => ShortcutConfig::default(),
        }
    }
}

/// What creating the default configuration file did.
#[derive(Debug)]
pub enum FileCreation {
    /// The file was created and the default template written into it.
    Created,
    /// Another process created it first.
    AlreadyExists,
    /// Creating or writing it failed; the reason.
    Failed(String),
}

/// The file a configuration is read from after bootstrapping: the resolved
/// file when it exists (`creation` is then `None`: nothing was created), else
/// the default path once created there, or found created by another process.
/// A failed creation is its reason.
pub open spec fn bootstrap_spec(resolved: Seq<char>, default_path: Seq<char>, creation: Option<FileCreation>) -> Result<
    Seq<char>,
    Seq<char>,
> {
    match creation {
        None => Ok(resolved),
        Some(FileCreation::Created) => Ok(default_path),
        Some(FileCreation::AlreadyExists) => Ok(default_path),
        Some(FileCreation::Failed(e)) => Err(e@),
    }
}

impl ShortcutConfig {
    /// The configuration file that exists after bootstrapping (see
    /// `bootstrap_spec`); the caller creates the default file, with the
    /// default template, only when the resolved one does not exist.
    pub fn ensure_config_file_exists_at(
        resolved: &str,
        default_path: &str,
        creation: Option<FileCreation>,
    ) -> (r: Result<String, String>)
        ensures
            match bootstrap_spec(resolved@, default_path@, creation) {
                Ok(p) => r matches Ok(q) && q@ == p,
                Err(e) => r matches Err(f) && f@ == e,
            },
    {
        match creation {
            None => {
                let v = str_chars(resolved);
                Ok(chars_to_string(&v))
            },
            Some(FileCreation::Created) | Some(FileCreation::AlreadyExists) => {
                let v = str_chars(default_path);
                Ok(chars_to_string(&v))
            },
            Some(FileCreation::Failed(e)) => Err(e),
        }
    }
}

/// What a strict load with explicit paths yields: the file after
/// bootstrapping is loaded strictly (`file` is what reading it found); a
/// failed bootstrap is an I/O error.
pub open spec fn strict_with_paths_spec(
    resolved: Seq<char>,
    default_path: Seq<char>,
    creation: Option<FileCreation>,
    file: ConfigFile,
) -> Result<ShortcutConfig, ConfigErrorView> {
    match bootstrap_spec(resolved, default_path, creation) {
        Ok(target) => strict_load_spec(target, file),
        Err(e) => Err(
            ConfigErrorView::Io("could not bootstrap configuration file during reload: "@ + e),
        ),
    }
}

impl ShortcutConfig {
    /// Loads the configuration strictly for a reload: a missing file is first
    /// bootstrapped with the defaults, then the file is loaded and validated.
    /// `file` is what reading the file after bootstrapping found.
    pub fn load_strict_with_paths(
        resolved: &str,
        default_path: &str,
        creation: Option<FileCreation>,
        file: ConfigFile,
    ) -> (r: Result<ShortcutConfig, ShortcutConfigError>)
        ensures
            match strict_with_paths_spec(resolved@, default_path@, creation, file) {
                Ok(c) => r == Ok::<ShortcutConfig, ShortcutConfigError>(c),
                Err(e) => r matches Err(f) && f@ == e,
            },
    {
        match Self::ensure_config_file_exists_at(resolved, default_path, creation) {
            Ok(target) => Self::load_strict_from_path(target.as_str(), file),
            Err(e) => {
                let mut m = String::new();
                push_str(&mut m, "could not bootstrap configuration file during reload: ");
                push_str(&mut m, e.as_str());
                Err(ShortcutConfigError::Io(m))
            },
        }
    }
}

/// Bindings with the same text convert alike.
proof fn lemma_binding_shortcut_same_text(b: KeyBindingConfig, c: ShortcutConfig)
    requires
        primary_binding_matches(c, b),
    ensures
        binding_shortcut(b) == config_shortcut(c),
{
    match c.shortcut.primary {
        Some(p) => {
            lemma_same_modifier_tokens(b.modifiers, p.modifiers);
            assert(b.key@ == p.key@);
            assert(binding_shortcut(b) == binding_shortcut(p));
        },
        None => match (c.shortcut.modifiers, c.shortcut.key) {
            (Some(m), Some(k)) => {
                lemma_same_modifier_tokens(b.modifiers, m);
            },
            _ => {
                lemma_default_binding_shortcut(b);
            },
        },
    }
}

/// The default binding converts to Super+V.
proof fn lemma_default_binding_shortcut(b: KeyBindingConfig)
    requires
        is_default_binding(b),
    ensures
        binding_shortcut(b) == Ok::<Shortcut, ConfigErrorView>(
            Shortcut {
                key: ShortcutKey::Character('v'),
                modifiers: ShortcutModifiers {
                    super_key: true,
                    control: false,
                    alt: false,
                    shift: false,
                },
            },
        ),
{
    let s = "SUPER"@;
    let b_mods = b.modifiers;
    assert(b_mods matches ModifiersConfig::Multiple(v) && strings_view(v@) == seq![s]);
    assert(seq![s].drop_last() =~= Seq::<Seq<char>>::empty());
    assert(modifier_tokens_list(seq![s]) == modifier_tokens_list(seq![s].drop_last())
        + modifier_tokens_of(s));
    lemma_super_tokens();
    assert(modifier_tokens_list(seq![s]) =~= seq![s]);
    assert(modifier_tokens(b.modifiers) == seq![s]);
    reveal_strlit("SUPER");
    reveal_strlit("super");
    assert(lower(s) =~= "super"@);
    let none = ShortcutModifiers { super_key: false, control: false, alt: false, shift: false };
    assert(fold_modifiers(seq![s].drop_last()) == Ok::<ShortcutModifiers, Seq<char>>(none));
    assert(apply_modifier(none, lower(s)) == Some(
        ShortcutModifiers { super_key: true, control: false, alt: false, shift: false },
    ));
    assert(fold_modifiers(seq![s]) == Ok::<ShortcutModifiers, Seq<char>>(
        ShortcutModifiers { super_key: true, control: false, alt: false, shift: false },
    ));
    reveal_strlit("V");
    reveal_strlit("v");
    assert(trim("V"@) =~= "V"@) by {
        assert(!crate::text::is_ws('V'));
        assert(crate::text::trim_start("V"@) == "V"@);
        assert(crate::text::trim_end("V"@) == "V"@);
    }
    assert(lower("V"@) =~= "v"@);
    assert(ascii_lower('V') == 'v');
    lemma_single_char_not_named("v"@);
    assert(parse_key_spec(b.key@) == Ok::<ShortcutKey, Seq<char>>(ShortcutKey::Character('v')));
}

/// No named key has a one-character name.
proof fn lemma_single_char_not_named(l: Seq<char>)
    requires
        l.len() == 1,
    ensures
        named_key_of(l) is None,
{
    reveal_strlit("space");
    reveal_strlit("tab");
    reveal_strlit("enter");
    reveal_strlit("return");
    reveal_strlit("esc");
    reveal_strlit("escape");
    reveal_strlit("ins");
    reveal_strlit("insert");
    reveal_strlit("del");
    reveal_strlit("delete");
    reveal_strlit("f1");
    reveal_strlit("f2");
    reveal_strlit("f3");
    reveal_strlit("f4");
    reveal_strlit("f5");
    reveal_strlit("f6");
    reveal_strlit("f7");
    reveal_strlit("f8");
    reveal_strlit("f9");
    reveal_strlit("f10");
    reveal_strlit("f11");
    reveal_strlit("f12");
}

proof fn lemma_super_tokens()
    ensures
        modifier_tokens_of("SUPER"@) == seq!["SUPER"@],
{
    reveal_strlit("SUPER");
    let s = "SUPER"@;
    let sep = one_of(seq!['+']);
    assert forall|i: int| 0 <= i < s.len() implies !sep(#[trigger] s[i]) by {
        assert(s[i] != '+');
        assert(!seq!['+'].contains(s[i])) by {
            if seq!['+'].contains(s[i]) {
                assert(seq!['+'][0] == '+');
            }
        }
    }
    lemma_split_without_separator(s, sep);
    assert(trim(s) == s) by {
        assert(crate::text::trim_start(s) == s);
        assert(crate::text::trim_end(s) == s);
    }
    assert(modifier_tokens_of(s) =~= seq![s]);
}

proof fn lemma_same_modifier_tokens(a: ModifiersConfig, b: ModifiersConfig)
    requires
        same_modifiers(a, b),
    ensures
        modifier_tokens(a) == modifier_tokens(b),
{
}

/// The pieces of `s` at `+`, each trimmed, appended to `out`.
fn push_plus_tokens(out: &mut Vec<Vec<char>>, s: &String)
    ensures
        views(final(out)@) == views(old(out)@) + modifier_tokens_of(s@),
{
    let plus = vec!['+'];
    assert(plus@ == seq!['+']);
    let chars = str_chars(s.as_str());
    let parts = split_on(&chars, &plus);
    let ghost start = views(out@);
    for i in 0..parts.len()
        invariant
            views(parts@) == split_when(s@, one_of(seq!['+'])),
            views(out@) == start + views(parts@).take(i as int).map_values(|p: Seq<char>| trim(p)),
    {
        let ghost prev = views(out@);
        out.push(trim_chars(&parts[i]));
        assert(views(out@) =~= prev.push(trim(parts@[i as int]@)));
        assert(views(parts@).take(i + 1).map_values(|p: Seq<char>| trim(p)) =~= views(
            parts@,
        ).take(i as int).map_values(|p: Seq<char>| trim(p)).push(trim(parts@[i as int]@)));
    }
    assert(views(parts@).take(parts.len() as int) == views(parts@));
}

/// Splits the configured modifiers into trimmed tokens.
fn modifier_token_chars(config: &ModifiersConfig) -> (r: Vec<Vec<char>>)
    ensures
        views(r@) == modifier_tokens(*config),
{
    let mut out: Vec<Vec<char>> = Vec::new();
    match config {
        ModifiersConfig::Single(s) => {
            push_plus_tokens(&mut out, s);
            assert(views(out@) =~= modifier_tokens_of(s@));
        },
        ModifiersConfig::Multiple(list) => {
            for j in 0..list.len()
                invariant
                    views(out@) == modifier_tokens_list(strings_view(list@.take(j as int))),
            {
                push_plus_tokens(&mut out, &list[j]);
                assert(strings_view(list@.take(j + 1)).drop_last() =~= strings_view(
                    list@.take(j as int),
                ));
                assert(strings_view(list@.take(j + 1)).last() == list@[j as int]@);
            }
            assert(list@.take(list.len() as int) == list@);
        },
    }
    out
}

/// Once folding fails on a prefix, it fails the same way on the whole.
proof fn lemma_fold_modifiers_error(t: Seq<Seq<char>>, j: int, e: Seq<char>)
    requires
        0 <= j <= t.len(),
        fold_modifiers(t.take(j)) == Err::<ShortcutModifiers, Seq<char>>(e),
    ensures
        fold_modifiers(t) == Err::<ShortcutModifiers, Seq<char>>(e),
    decreases t.len() - j,
{
    if j == t.len() {
        assert(t.take(j) == t);
    } else {
        assert(t.take(j + 1).drop_last() == t.take(j));
        lemma_fold_modifiers_error(t, j + 1, e);
    }
}

/// Parses the modifier names of a binding.
pub fn parse_modifiers(config: &ModifiersConfig) -> (r: Result<ShortcutModifiers, ShortcutConfigError>)
    ensures
        match r {
            Ok(m) => fold_modifiers(modifier_tokens(*config)) == Ok::<ShortcutModifiers, Seq<char>>(m),
            Err(e) => e matches ShortcutConfigError::UnknownModifier(s) && fold_modifiers(
                modifier_tokens(*config),
            ) == Err::<ShortcutModifiers, Seq<char>>(s@),
        },
{
    let tokens = modifier_token_chars(config);
    let ghost t = views(tokens@);
    let mut modifiers = ShortcutModifiers { super_key: false, control: false, alt: false, shift: false };
    for i in 0..tokens.len()
        invariant
            t == views(tokens@),
            t == modifier_tokens(*config),
            fold_modifiers(t.take(i as int)) == Ok::<ShortcutModifiers, Seq<char>>(modifiers),
    {
        assert(t.take(i + 1).drop_last() == t.take(i as int));
        assert(t.take(i + 1).last() == tokens@[i as int]@);
        let item = &tokens[i];
        if item.len() > 0 {
            let l = to_ascii_lowercase(item);
            match apply_modifier_name(modifiers, &l) {
                Some(m2) => {
                    modifiers = m2;
                },
                None => {
                    proof {
                        assert(fold_modifiers(t.take(i + 1)) == Err::<ShortcutModifiers, Seq<char>>(
                            l@,
                        ));
                        lemma_fold_modifiers_error(t, i + 1, l@);
                    }
                    return Err(ShortcutConfigError::UnknownModifier(chars_to_string(&l)));
                },
            }
        }
    }
    assert(t.take(tokens.len() as int) == t);
    Ok(modifiers)
}

/// Parses a key name: named keys case-insensitively, or a single ASCII
/// letter or digit.
pub fn parse_key(key_str: &str) -> (r: Result<ShortcutKey, ShortcutConfigError>)
    ensures
        match r {
            Ok(k) => parse_key_spec(key_str@) == Ok::<ShortcutKey, Seq<char>>(k),
            Err(e) => e matches ShortcutConfigError::InvalidKey(s) && parse_key_spec(key_str@)
                == Err::<ShortcutKey, Seq<char>>(s@),
        },
{
    let chars = str_chars(key_str);
    let trimmed = trim_chars(&chars);
    if trimmed.len() == 0 {
        let mut msg = String::new();
        push_str(&mut msg, "key cannot be empty");
        return Err(ShortcutConfigError::InvalidKey(msg));
    }
    let l = to_ascii_lowercase(&trimmed);
    let named = if eq_str(&l, "space") {
        Some(NamedKey::Space)
    } else if eq_str(&l, "tab") {
        Some(NamedKey::Tab)
    } else if eq_str(&l, "enter") || eq_str(&l, "return") {
        Some(NamedKey::Enter)
    } else if eq_str(&l, "esc") || eq_str(&l, "escape") {
        Some(NamedKey::Escape)
    } else if eq_str(&l, "ins") || eq_str(&l, "insert") {
        Some(NamedKey::Insert)
    } else if eq_str(&l, "del") || eq_str(&l, "delete") {
        Some(NamedKey::Delete)
    } else if eq_str(&l, "f1") {
        Some(NamedKey::F(1))
    } else if eq_str(&l, "f2") {
        Some(NamedKey::F(2))
    } else if eq_str(&l, "f3") {
        Some(NamedKey::F(3))
    } else if eq_str(&l, "f4") {
        Some(NamedKey::F(4))
    } else if eq_str(&l, "f5") {
        Some(NamedKey::F(5))
    } else if eq_str(&l, "f6") {
        Some(NamedKey::F(6))
    } else if eq_str(&l, "f7") {
        Some(NamedKey::F(7))
    } else if eq_str(&l, "f8") {
        Some(NamedKey::F(8))
    } else if eq_str(&l, "f9") {
        Some(NamedKey::F(9))
    } else if eq_str(&l, "f10") {
        Some(NamedKey::F(10))
    } else if eq_str(&l, "f11") {
        Some(NamedKey::F(11))
    } else if eq_str(&l, "f12") {
        Some(NamedKey::F(12))
    } else {
        None
    };
    if let Some(n) = named {
        return Ok(ShortcutKey::Named(n));
    }
    if trimmed.len() == 1 && char_is_ascii_alphanumeric(trimmed[0]) {
        return Ok(ShortcutKey::Character(char_to_ascii_lowercase(trimmed[0])));
    }
    Err(ShortcutConfigError::InvalidKey(chars_to_string(&trimmed)))
}

/// No configuration binds a bare key: every shortcut a configuration yields
/// holds at least one modifier.
pub proof fn lemma_no_bare_key_accepted(c: ShortcutConfig)
    ensures
        config_shortcut(c) matches Ok(s) ==> s.modifiers.has_any_spec(),
{
}


/// The named keys a configuration can name: function keys F1 to F12 and the
/// others.
pub open spec fn is_config_named_key(k: NamedKey) -> bool {
    k matches NamedKey::F(n) ==> 1 <= n <= 12
}

/// The second configuration name of the keys that have one; the others go by
/// their display name only.
pub open spec fn named_key_alias(k: NamedKey) -> Seq<char> {
    match k {
        NamedKey::Enter => "return"@,
        NamedKey::Escape => "esc"@,
        NamedKey::Insert => "ins"@,
        NamedKey::Delete => "del"@,
        _ => lower(named_key_text(k)),
    }
}

/// The display names of the named keys, lower-cased.
proof fn lemma_lower_named_key_text(k: NamedKey)
    requires
        is_config_named_key(k),
    ensures
        k == NamedKey::Space ==> lower(named_key_text(k)) == "space"@,
        k == NamedKey::Tab ==> lower(named_key_text(k)) == "tab"@,
        k == NamedKey::Enter ==> lower(named_key_text(k)) == "enter"@,
        k == NamedKey::Escape ==> lower(named_key_text(k)) == "escape"@,
        k == NamedKey::Insert ==> lower(named_key_text(k)) == "insert"@,
        k == NamedKey::Delete ==> lower(named_key_text(k)) == "delete"@,
        k == NamedKey::F(1) ==> lower(named_key_text(k)) == "f1"@,
        k == NamedKey::F(2) ==> lower(named_key_text(k)) == "f2"@,
        k == NamedKey::F(3) ==> lower(named_key_text(k)) == "f3"@,
        k == NamedKey::F(4) ==> lower(named_key_text(k)) == "f4"@,
        k == NamedKey::F(5) ==> lower(named_key_text(k)) == "f5"@,
        k == NamedKey::F(6) ==> lower(named_key_text(k)) == "f6"@,
        k == NamedKey::F(7) ==> lower(named_key_text(k)) == "f7"@,
        k == NamedKey::F(8) ==> lower(named_key_text(k)) == "f8"@,
        k == NamedKey::F(9) ==> lower(named_key_text(k)) == "f9"@,
        k == NamedKey::F(10) ==> lower(named_key_text(k)) == "f10"@,
        k == NamedKey::F(11) ==> lower(named_key_text(k)) == "f11"@,
        k == NamedKey::F(12) ==> lower(named_key_text(k)) == "f12"@,
        named_key_of(lower(named_key_text(k))) == Some(k),
        lower(named_key_text(k)).len() > 0,
{
    reveal_strlit("space");
    reveal_strlit("tab");
    reveal_strlit("enter");
    reveal_strlit("return");
    reveal_strlit("esc");
    reveal_strlit("escape");
    reveal_strlit("ins");
    reveal_strlit("insert");
    reveal_strlit("del");
    reveal_strlit("delete");
    reveal_strlit("f1");
    reveal_strlit("f2");
    reveal_strlit("f3");
    reveal_strlit("f4");
    reveal_strlit("f5");
    reveal_strlit("f6");
    reveal_strlit("f7");
    reveal_strlit("f8");
    reveal_strlit("f9");
    reveal_strlit("f10");
    reveal_strlit("f11");
    reveal_strlit("f12");
    match k {
        NamedKey::Space => {
            reveal_strlit("Space");
            assert(lower("Space"@) =~= "space"@);
            assert(named_key_of("space"@) == Some(NamedKey::Space));
        },
        NamedKey::Tab => {
            reveal_strlit("Tab");
            assert(lower("Tab"@) =~= "tab"@);
            assert(named_key_of("tab"@) == Some(NamedKey::Tab));
        },
        NamedKey::Enter => {
            reveal_strlit("Enter");
            assert(lower("Enter"@) =~= "enter"@);
            assert("enter"@[0] != "space"@[0]);
            assert(named_key_of("enter"@) == Some(NamedKey::Enter));
        },
        NamedKey::Escape => {
            reveal_strlit("Escape");
            assert(lower("Escape"@) =~= "escape"@);
            assert("escape"@[0] != "return"@[0]);
            assert(named_key_of("escape"@) == Some(NamedKey::Escape));
        },
        NamedKey::Insert => {
            reveal_strlit("Insert");
            assert(lower("Insert"@) =~= "insert"@);
            assert("insert"@[0] != "return"@[0]);
            assert("insert"@[0] != "escape"@[0]);
            assert(named_key_of("insert"@) == Some(NamedKey::Insert));
        },
        NamedKey::Delete => {
            reveal_strlit("Delete");
            assert(lower("Delete"@) =~= "delete"@);
            assert("delete"@[0] != "return"@[0]);
            assert("delete"@[0] != "escape"@[0]);
            assert("delete"@[0] != "insert"@[0]);
            assert(named_key_of("delete"@) == Some(NamedKey::Delete));
        },
        NamedKey::F(n) => {
            reveal_strlit("F");
            if n == 1 {
                assert(decimal(1nat) == seq![digit(1nat)]);
                assert(lower("F"@ + decimal(1nat)) =~= "f1"@);
            assert(named_key_of("f1"@) == Some(NamedKey::F(1)));
            }
            else if n == 2 {
                assert(decimal(2nat) == seq![digit(2nat)]);
                assert(lower("F"@ + decimal(2nat)) =~= "f2"@);
            assert("f2"@[1] != "f1"@[1]);
            assert(named_key_of("f2"@) == Some(NamedKey::F(2)));
            }
            else if n == 3 {
                assert(decimal(3nat) == seq![digit(3nat)]);
                assert(lower("F"@ + decimal(3nat)) =~= "f3"@);
            assert("f3"@[1] != "f1"@[1]);
            assert("f3"@[1] != "f2"@[1]);
            assert(named_key_of("f3"@) == Some(NamedKey::F(3)));
            }
            else if n == 4 {
                assert(decimal(4nat) == seq![digit(4nat)]);
                assert(lower("F"@ + decimal(4nat)) =~= "f4"@);
            assert("f4"@[1] != "f1"@[1]);
            assert("f4"@[1] != "f2"@[1]);
            assert("f4"@[1] != "f3"@[1]);
            assert(named_key_of("f4"@) == Some(NamedKey::F(4)));
            }
            else if n == 5 {
                assert(decimal(5nat) == seq![digit(5nat)]);
                assert(lower("F"@ + decimal(5nat)) =~= "f5"@);
            assert("f5"@[1] != "f1"@[1]);
            assert("f5"@[1] != "f2"@[1]);
            assert("f5"@[1] != "f3"@[1]);
            assert("f5"@[1] != "f4"@[1]);
            assert(named_key_of("f5"@) == Some(NamedKey::F(5)));
            }
            else if n == 6 {
                assert(decimal(6nat) == seq![digit(6nat)]);
                assert(lower("F"@ + decimal(6nat)) =~= "f6"@);
            assert("f6"@[1] != "f1"@[1]);
            assert("f6"@[1] != "f2"@[1]);
            assert("f6"@[1] != "f3"@[1]);
            assert("f6"@[1] != "f4"@[1]);
            assert("f6"@[1] != "f5"@[1]);
            assert(named_key_of("f6"@) == Some(NamedKey::F(6)));
            }
            else if n == 7 {
                assert(decimal(7nat) == seq![digit(7nat)]);
                assert(lower("F"@ + decimal(7nat)) =~= "f7"@);
            assert("f7"@[1] != "f1"@[1]);
            assert("f7"@[1] != "f2"@[1]);
            assert("f7"@[1] != "f3"@[1]);
            assert("f7"@[1] != "f4"@[1]);
            assert("f7"@[1] != "f5"@[1]);
            assert("f7"@[1] != "f6"@[1]);
            assert(named_key_of("f7"@) == Some(NamedKey::F(7)));
            }
            else if n == 8 {
                assert(decimal(8nat) == seq![digit(8nat)]);
                assert(lower("F"@ + decimal(8nat)) =~= "f8"@);
            assert("f8"@[1] != "f1"@[1]);
            assert("f8"@[1] != "f2"@[1]);
            assert("f8"@[1] != "f3"@[1]);
            assert("f8"@[1] != "f4"@[1]);
            assert("f8"@[1] != "f5"@[1]);
            assert("f8"@[1] != "f6"@[1]);
            assert("f8"@[1] != "f7"@[1]);
            assert(named_key_of("f8"@) == Some(NamedKey::F(8)));
            }
            else if n == 9 {
                assert(decimal(9nat) == seq![digit(9nat)]);
                assert(lower("F"@ + decimal(9nat)) =~= "f9"@);
            assert("f9"@[1] != "f1"@[1]);
            assert("f9"@[1] != "f2"@[1]);
            assert("f9"@[1] != "f3"@[1]);
            assert("f9"@[1] != "f4"@[1]);
            assert("f9"@[1] != "f5"@[1]);
            assert("f9"@[1] != "f6"@[1]);
            assert("f9"@[1] != "f7"@[1]);
            assert("f9"@[1] != "f8"@[1]);
            assert(named_key_of("f9"@) == Some(NamedKey::F(9)));
            }
            else if n == 10 {
                assert(decimal(10nat) == decimal(1nat).push(digit(0nat)));
                assert(decimal(1nat) == seq![digit(1nat)]);
                assert(lower("F"@ + decimal(10nat)) =~= "f10"@);
            assert("f10"@[0] != "tab"@[0]);
            assert("f10"@[0] != "esc"@[0]);
            assert("f10"@[0] != "ins"@[0]);
            assert("f10"@[0] != "del"@[0]);
            assert(named_key_of("f10"@) == Some(NamedKey::F(10)));
            }
            else if n == 11 {
                assert(decimal(11nat) == decimal(1nat).push(digit(1nat)));
                assert(decimal(1nat) == seq![digit(1nat)]);
                assert(lower("F"@ + decimal(11nat)) =~= "f11"@);
            assert("f11"@[0] != "tab"@[0]);
            assert("f11"@[0] != "esc"@[0]);
            assert("f11"@[0] != "ins"@[0]);
            assert("f11"@[0] != "del"@[0]);
            assert("f11"@[2] != "f10"@[2]);
            assert(named_key_of("f11"@) == Some(NamedKey::F(11)));
            }
            else if n == 12 {
                assert(decimal(12nat) == decimal(1nat).push(digit(2nat)));
                assert(decimal(1nat) == seq![digit(1nat)]);
                assert(lower("F"@ + decimal(12nat)) =~= "f12"@);
            assert("f12"@[0] != "tab"@[0]);
            assert("f12"@[0] != "esc"@[0]);
            assert("f12"@[0] != "ins"@[0]);
            assert("f12"@[0] != "del"@[0]);
            assert("f12"@[2] != "f10"@[2]);
            assert("f12"@[2] != "f11"@[2]);
            assert(named_key_of("f12"@) == Some(NamedKey::F(12)));
            }
        },
    }
}

/// Text without surrounding whitespace trims to itself.
proof fn lemma_trim_unchanged(t: Seq<char>)
    requires
        t.len() > 0,
        !is_ws(t[0]),
        !is_ws(t.last()),
    ensures
        trim(t) == t,
{
    assert(trim_start(t) == t);
    assert(trim_end(t) == t);
}

/// A named key is configured by its display name, in any letter case and with
/// any surrounding whitespace: "Tab", "tab", " TAB " all give Tab.
pub proof fn lemma_named_key_parses_by_name(key: Seq<char>, k: NamedKey)
    requires
        is_config_named_key(k),
        lower(trim(key)) == lower(named_key_text(k)),
    ensures
        parse_key_spec(key) == Ok::<ShortcutKey, Seq<char>>(ShortcutKey::Named(k)),
{
    reveal_strlit("space");
    reveal_strlit("tab");
    reveal_strlit("enter");
    reveal_strlit("return");
    reveal_strlit("esc");
    reveal_strlit("escape");
    reveal_strlit("ins");
    reveal_strlit("insert");
    reveal_strlit("del");
    reveal_strlit("delete");
    reveal_strlit("f1");
    reveal_strlit("f2");
    reveal_strlit("f3");
    reveal_strlit("f4");
    reveal_strlit("f5");
    reveal_strlit("f6");
    reveal_strlit("f7");
    reveal_strlit("f8");
    reveal_strlit("f9");
    reveal_strlit("f10");
    reveal_strlit("f11");
    reveal_strlit("f12");
    lemma_lower_named_key_text(k);
    assert(lower(trim(key)).len() == trim(key).len());
}

/// The display text of a named key reads back as that key.
pub proof fn lemma_named_key_text_reads_back(k: NamedKey)
    requires
        is_config_named_key(k),
    ensures
        parse_key_spec(named_key_text(k)) == Ok::<ShortcutKey, Seq<char>>(ShortcutKey::Named(k)),
{
    reveal_strlit("Space");
    reveal_strlit("Tab");
    reveal_strlit("Enter");
    reveal_strlit("Escape");
    reveal_strlit("Insert");
    reveal_strlit("Delete");
    reveal_strlit("F");
    let t = named_key_text(k);
    match k {
        NamedKey::F(n) => {
            reveal_with_fuel(decimal, 2);
            assert(t[0] == 'F');
            assert(t.last() == digit((n % 10) as nat));
        },
        _ => {},
    }
    lemma_trim_unchanged(t);
    lemma_named_key_parses_by_name(t, k);
}

/// Distinct named keys never share a name: a key string that parses to a
/// named key is, ignoring case and surrounding whitespace, that key's display
/// name or its alias.
pub proof fn lemma_named_key_names_distinct(key: Seq<char>, k: NamedKey)
    requires
        parse_key_spec(key) == Ok::<ShortcutKey, Seq<char>>(ShortcutKey::Named(k)),
    ensures
        is_config_named_key(k),
        lower(trim(key)) == lower(named_key_text(k)) || lower(trim(key)) == named_key_alias(k),
{
    reveal_strlit("space");
    reveal_strlit("tab");
    reveal_strlit("enter");
    reveal_strlit("return");
    reveal_strlit("esc");
    reveal_strlit("escape");
    reveal_strlit("ins");
    reveal_strlit("insert");
    reveal_strlit("del");
    reveal_strlit("delete");
    reveal_strlit("f1");
    reveal_strlit("f2");
    reveal_strlit("f3");
    reveal_strlit("f4");
    reveal_strlit("f5");
    reveal_strlit("f6");
    reveal_strlit("f7");
    reveal_strlit("f8");
    reveal_strlit("f9");
    reveal_strlit("f10");
    reveal_strlit("f11");
    reveal_strlit("f12");
    let l = lower(trim(key));
    assert(named_key_of(l) == Some(k));
    lemma_lower_named_key_text(k);
}


/// A modifier named by its display name, in any letter case, sets exactly that
/// modifier: "Super" the Super key, "Ctrl" Control, "Alt" Alt, "Shift" Shift.
pub proof fn lemma_modifier_display_names(m: ShortcutModifiers)
    ensures
        apply_modifier(m, lower("Super"@)) == Some(ShortcutModifiers { super_key: true, ..m }),
        apply_modifier(m, lower("Ctrl"@)) == Some(ShortcutModifiers { control: true, ..m }),
        apply_modifier(m, lower("Alt"@)) == Some(ShortcutModifiers { alt: true, ..m }),
        apply_modifier(m, lower("Shift"@)) == Some(ShortcutModifiers { shift: true, ..m }),
{
    reveal_strlit("Super");
    reveal_strlit("Ctrl");
    reveal_strlit("Alt");
    reveal_strlit("Shift");
    reveal_strlit("super");
    reveal_strlit("mod4");
    reveal_strlit("logo");
    reveal_strlit("win");
    reveal_strlit("ctrl");
    reveal_strlit("control");
    reveal_strlit("alt");
    reveal_strlit("mod1");
    reveal_strlit("shift");
    assert(lower("Super"@) =~= "super"@);
    assert(lower("Ctrl"@) =~= "ctrl"@);
    assert(lower("Alt"@) =~= "alt"@);
    assert(lower("Shift"@) =~= "shift"@);
    assert("ctrl"@[0] != "super"@[0] && "ctrl"@[0] != "logo"@[0] && "ctrl"@[0] != "mod4"@[0]);
    assert("alt"@[0] != "win"@[0]);
    assert("shift"@[1] != "super"@[1]);
}

/// Every modifier name that is accepted sets exactly one modifier, and the
/// others stay as they were.
pub proof fn lemma_modifier_name_sets_one(m: ShortcutModifiers, t: Seq<char>)
    ensures
        apply_modifier(m, t) matches Some(r) ==> {
            ||| r == ShortcutModifiers { super_key: true, ..m }
            ||| r == ShortcutModifiers { control: true, ..m }
            ||| r == ShortcutModifiers { alt: true, ..m }
            ||| r == ShortcutModifiers { shift: true, ..m }
        },
{
}

} // verus!
