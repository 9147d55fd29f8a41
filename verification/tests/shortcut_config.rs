use pookie_paste::shortcut_backend::{NamedKey, Shortcut, ShortcutKey};
use pookie_paste::shortcut_config::{
    parse_key, parse_modifiers, ConfigFile, FileCreation, KeyBindingConfig, ModifiersConfig, ShortcutConfig,
    ShortcutConfigError, ShortcutSection,
};

#[test]
fn default_config_resolves_to_super_v() {
    let config = ShortcutConfig::default();
    let shortcut = config.primary_shortcut().expect("failed resolving default");

    assert_eq!(shortcut, Shortcut::super_v());
    assert_eq!(shortcut.to_string(), "Super+V");
}

#[test]
fn loads_or_defaults_gracefully_when_nonexistent() {
    let nonexistent = "/nonexistent/path/pookie-paste/config.toml";
    let config = ShortcutConfig::load_or_default_from_path(nonexistent, ConfigFile::Missing);
    let sc = config.primary_shortcut().expect("default resolution");
    assert_eq!(sc, Shortcut::super_v());
}

#[test]
fn load_strict_from_path_missing_returns_file_not_found() {
    let nonexistent = "/nonexistent/path/to/missing_config.toml";
    let err = ShortcutConfig::load_strict_from_path(nonexistent, ConfigFile::Missing)
        .expect_err("missing explicit path must return error");
    assert!(matches!(err, ShortcutConfigError::FileNotFound(_)));
}

fn primary(mods: ModifiersConfig, key: &str) -> ShortcutConfig {
    ShortcutConfig {
        shortcut: ShortcutSection {
            primary: Some(KeyBindingConfig { modifiers: mods, key: key.to_string() }),
            modifiers: None,
            key: None,
        },
    }
}

fn many(mods: &[&str]) -> ModifiersConfig {
    ModifiersConfig::Multiple(mods.iter().map(|m| m.to_string()).collect())
}

#[test]
fn bare_keys_are_refused() {
    let err = primary(many(&[]), "V").primary_shortcut().unwrap_err();
    assert_eq!(err, ShortcutConfigError::ModifierRequired("V".to_string()));
    assert!(err.message().contains("cannot bind bare key 'V'"));
}

#[test]
fn strict_load_reports_each_failure() {
    assert_eq!(
        ShortcutConfig::load_strict_from_path("/c.toml", ConfigFile::Unreadable("denied".to_string()))
            .unwrap_err(),
        ShortcutConfigError::Io("/c.toml: denied".to_string())
    );
    assert_eq!(
        ShortcutConfig::load_strict_from_path("/c.toml", ConfigFile::Parsed(Err("bad".to_string())))
            .unwrap_err(),
        ShortcutConfigError::Parse("bad".to_string())
    );
    let invalid = primary(many(&["SUPER"]), "Nope");
    assert!(matches!(
        ShortcutConfig::load_strict_from_path("/c.toml", ConfigFile::Parsed(Ok(invalid.clone()))),
        Err(ShortcutConfigError::InvalidKey(_))
    ));
    assert_eq!(
        ShortcutConfig::load_or_default_from_path("/c.toml", ConfigFile::Parsed(Ok(invalid))),
        ShortcutConfig::default()
    );
    let valid = primary(many(&["CTRL"]), "x");
    assert_eq!(
        ShortcutConfig::load_or_default_from_path("/c.toml", ConfigFile::Parsed(Ok(valid.clone()))),
        valid
    );
}

#[test]
fn keys_and_modifiers_parse() {
    assert_eq!(parse_key("esc").unwrap(), ShortcutKey::Named(NamedKey::Escape));
    assert_eq!(parse_key(" Return ").unwrap(), ShortcutKey::Named(NamedKey::Enter));
    assert_eq!(parse_key("7").unwrap(), ShortcutKey::Character('7'));
    assert!(parse_key("F13").is_err());
    let m = parse_modifiers(&ModifiersConfig::Single("logo + shift".to_string())).unwrap();
    assert!(m.super_key && m.shift && !m.control && !m.alt);
}

#[test]
fn config_error_texts() {
    assert_eq!(
        ShortcutConfigError::FileNotFound("/x".to_string()).message(),
        "configuration file not found: /x"
    );
    assert_eq!(
        ShortcutConfigError::UnknownModifier("HYPER".to_string()).message(),
        "unknown shortcut modifier: 'HYPER'"
    );
}

/// Reads TOML text the way the configuration file is deserialised, then
/// validates it (`ShortcutConfig::parse_str` of the daemon).
fn parse_str(text: &str) -> Result<ShortcutConfig, ShortcutConfigError> {
    let value: toml::Value = toml::from_str(text).map_err(|e| ShortcutConfigError::Parse(e.to_string()))?;
    let bad = |what: &str| ShortcutConfigError::Parse(format!("invalid type for {what}"));
    let mods_of = |v: &toml::Value| -> Result<ModifiersConfig, ShortcutConfigError> {
        match v {
            toml::Value::String(s) => Ok(ModifiersConfig::Single(s.clone())),
            toml::Value::Array(items) => {
                let mut out = Vec::new();
                for item in items {
                    match item {
                        toml::Value::String(s) => out.push(s.clone()),
                        _ => return Err(bad("modifiers")),
                    }
                }
                Ok(ModifiersConfig::Multiple(out))
            },
            _ => Err(bad("modifiers")),
        }
    };
    let key_of = |v: &toml::Value| -> Result<String, ShortcutConfigError> {
        v.as_str().map(|s| s.to_string()).ok_or_else(|| bad("key"))
    };
    let mut section = ShortcutSection { primary: None, modifiers: None, key: None };
    if let Some(shortcut) = value.get("shortcut") {
        if let Some(primary) = shortcut.get("primary") {
            let modifiers = match primary.get("modifiers") {
                Some(m) => mods_of(m)?,
                None => ModifiersConfig::Multiple(vec!["SUPER".to_string()]),
            };
            let key = match primary.get("key") {
                Some(k) => key_of(k)?,
                None => "V".to_string(),
            };
            section.primary = Some(KeyBindingConfig { modifiers, key });
        }
        if let Some(m) = shortcut.get("modifiers") {
            section.modifiers = Some(mods_of(m)?);
        }
        if let Some(k) = shortcut.get("key") {
            section.key = Some(key_of(k)?);
        }
    }
    ShortcutConfig { shortcut: section }.validate()
}

#[test]
fn parses_nested_primary_table_with_array_modifiers() {
    let toml = r#"
[shortcut.primary]
modifiers = ["SUPER", "SHIFT"]
key = "P"
"#;
    let config = parse_str(toml).expect("parse failed");
    let shortcut = config.primary_shortcut().expect("conversion failed");

    assert_eq!(shortcut.key, ShortcutKey::Character('p'));
    assert!(shortcut.modifiers.super_key);
    assert!(shortcut.modifiers.shift);
    assert!(!shortcut.modifiers.control);
    assert_eq!(shortcut.to_string(), "Super+Shift+P");
}

#[test]
fn parses_single_table_with_string_modifier() {
    let toml = r#"
[shortcut]
modifiers = "CTRL+ALT"
key = "Space"
"#;
    let config = parse_str(toml).expect("parse failed");
    let shortcut = config.primary_shortcut().expect("conversion failed");

    assert_eq!(shortcut.key, ShortcutKey::Named(NamedKey::Space));
    assert!(shortcut.modifiers.control);
    assert!(shortcut.modifiers.alt);
    assert!(!shortcut.modifiers.super_key);
    assert_eq!(shortcut.to_string(), "Ctrl+Alt+Space");
}

#[test]
fn parses_function_keys_case_insensitively() {
    let toml = r#"
[shortcut.primary]
modifiers = "super"
key = "F12"
"#;
    let config = parse_str(toml).expect("parse failed");
    let shortcut = config.primary_shortcut().expect("conversion failed");

    assert_eq!(shortcut.key, ShortcutKey::Named(NamedKey::F(12)));
    assert!(shortcut.modifiers.super_key);
    assert_eq!(shortcut.to_string(), "Super+F12");
}

#[test]
fn rejects_modifier_less_bare_keys_for_safety() {
    let toml = r#"
[shortcut.primary]
modifiers = []
key = "V"
"#;
    let err = parse_str(toml).expect_err("should reject bare key");
    assert!(matches!(err, ShortcutConfigError::ModifierRequired(_)));
}

#[test]
fn rejects_unknown_modifier() {
    let toml = r#"
[shortcut.primary]
modifiers = ["INVALID"]
key = "V"
"#;
    let err = parse_str(toml).expect_err("should reject unknown modifier");
    assert!(matches!(err, ShortcutConfigError::UnknownModifier(_)));
}

#[test]
fn rejects_unknown_key_string() {
    let toml = r#"
[shortcut.primary]
modifiers = ["SUPER"]
key = "UnknownLongKeyName"
"#;
    let err = parse_str(toml).expect_err("should reject unknown key");
    assert!(matches!(err, ShortcutConfigError::InvalidKey(_)));
}

#[test]
fn default_config_template_is_valid_and_resolves_to_super_v() {
    let config = parse_str(pookie_paste::shortcut_config::DEFAULT_CONFIG_TEMPLATE).expect("template is valid");
    let shortcut = config.primary_shortcut().expect("converts to shortcut");
    assert_eq!(shortcut, Shortcut::super_v());
}

/// What reading a file with these contents finds.
fn parsed_file(text: &str) -> ConfigFile {
    match toml::from_str::<toml::Value>(text) {
        Ok(_) => match parse_str(text) {
            Ok(c) => ConfigFile::Parsed(Ok(c)),
            Err(ShortcutConfigError::Parse(m)) => ConfigFile::Parsed(Err(m)),
            Err(_) => {
                // Well-formed TOML whose shortcut is invalid: hand over the
                // configuration itself, the loader validates it.
                let value: toml::Value = toml::from_str(text).unwrap();
                let primary = value["shortcut"]["primary"].clone();
                let modifiers = match &primary["modifiers"] {
                    toml::Value::Array(items) => ModifiersConfig::Multiple(
                        items.iter().map(|i| i.as_str().unwrap().to_string()).collect(),
                    ),
                    other => ModifiersConfig::Single(other.as_str().unwrap().to_string()),
                };
                let key = primary["key"].as_str().unwrap().to_string();
                ConfigFile::Parsed(Ok(ShortcutConfig {
                    shortcut: ShortcutSection {
                        primary: Some(KeyBindingConfig { modifiers, key }),
                        modifiers: None,
                        key: None,
                    },
                }))
            },
        },
        Err(e) => ConfigFile::Parsed(Err(e.to_string())),
    }
}

#[test]
fn load_strict_from_path_malformed_returns_parse_error() {
    let file = parsed_file("[shortcut\nthis is not valid toml\n");
    let err = ShortcutConfig::load_strict_from_path("/tmp/malformed.toml", file)
        .expect_err("malformed config must fail strictly");
    assert!(matches!(err, ShortcutConfigError::Parse(_)));
}

#[test]
fn load_strict_from_path_invalid_key_returns_validation_error() {
    let file = parsed_file("[shortcut.primary]\nmodifiers = ['SUPER']\nkey = 'NoSuchKey123'\n");
    let err = ShortcutConfig::load_strict_from_path("/tmp/invalid_key.toml", file)
        .expect_err("invalid key config must fail strictly");
    assert!(matches!(err, ShortcutConfigError::InvalidKey(_)));
}

#[test]
fn strict_reload_bootstraps_a_missing_file_then_loads_it() {
    let resolved = "/home/u/.config/pookie-paste/config.toml";
    let default_path = "/home/u/.config/pookie-paste/config.toml.default";
    assert_eq!(
        ShortcutConfig::ensure_config_file_exists_at(resolved, default_path, None).unwrap(),
        resolved
    );
    assert_eq!(
        ShortcutConfig::ensure_config_file_exists_at(resolved, default_path, Some(FileCreation::Created))
            .unwrap(),
        default_path
    );
    assert_eq!(
        ShortcutConfig::ensure_config_file_exists_at(resolved, default_path, Some(FileCreation::AlreadyExists))
            .unwrap(),
        default_path
    );
    assert_eq!(
        ShortcutConfig::ensure_config_file_exists_at(
            resolved,
            default_path,
            Some(FileCreation::Failed("read-only file system".to_string()))
        )
        .unwrap_err(),
        "read-only file system"
    );
    let template = parse_str(pookie_paste::shortcut_config::DEFAULT_CONFIG_TEMPLATE).unwrap();
    let loaded = ShortcutConfig::load_strict_with_paths(
        resolved,
        default_path,
        Some(FileCreation::Created),
        ConfigFile::Parsed(Ok(template)),
    )
    .unwrap();
    assert_eq!(loaded.primary_shortcut().unwrap(), Shortcut::super_v());
    assert_eq!(
        ShortcutConfig::load_strict_with_paths(
            resolved,
            default_path,
            Some(FileCreation::Failed("denied".to_string())),
            ConfigFile::Missing,
        )
        .unwrap_err(),
        ShortcutConfigError::Io("could not bootstrap configuration file during reload: denied".to_string())
    );
    assert!(matches!(
        ShortcutConfig::load_strict_with_paths(resolved, default_path, None, ConfigFile::Parsed(Err("x".to_string()))),
        Err(ShortcutConfigError::Parse(_))
    ));
}
